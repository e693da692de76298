//! Display filters of the bus analyzer.

use vstd::prelude::*;

use crate::can::{mask_passes, CanFilter, CanId};

verus! {

/// Display filter, applied at query time (capture keeps everything).
#[derive(Debug, Clone, Copy, PartialEq, Eq, Structural)]
pub enum FilterSpec {
    All,
    /// Match a CANopen node across its function-code ranges. `include_nodeless`
    /// keeps NMT/SYNC/TIME/LSS (which carry no node) visible for context.
    Node { node: u8, include_nodeless: bool },
    /// Bit-mask filter within one id width.
    Mask { id: u32, mask: u32, extended: bool },
}

/// The CANopen node that an 11-bit identifier addresses: the low seven bits,
/// where these are not zero and the function code above them is EMCY (1), one of
/// the eight PDOs or the two SDO directions (3 to 12), or heartbeat (14).
pub open spec fn node_of(id: u16) -> Option<u8> {
    let node = id as int % 128;
    let function_code = id as int / 128 % 16;
    if node != 0 && (function_code == 1 || 3 <= function_code <= 12 || function_code == 14) {
        Some(node as u8)
    } else {
        None
    }
}

/// NMT, SYNC, TIME and the two LSS identifiers: traffic that carries no node.
pub open spec fn is_nodeless(id: u16) -> bool {
    id == 0x000 || id == 0x080 || id == 0x100 || id == 0x7E4 || id == 0x7E5
}

impl FilterSpec {
    /// Which identifiers the filter shows.
    pub open spec fn accepts(self, id: CanId) -> bool {
        match self {
            FilterSpec::All => true,
            FilterSpec::Mask { id: want, mask, extended } => mask_passes(
                CanFilter { id: want, mask, extended },
                id,
            ),
            FilterSpec::Node { node, include_nodeless } => match id {
                CanId::Extended(_) => false,
                CanId::Standard(s) => node_of(s) == Some(node) || (include_nodeless
                    && is_nodeless(s)),
            },
        }
    }

    /// Whether the filter shows frames with this identifier.
    pub fn matches(&self, id: CanId) -> (r: bool)
        ensures
            r == self.accepts(id),
    {
        match *self {
            FilterSpec::All => true,
            FilterSpec::Mask { id: want, mask, extended } => match id {
                CanId::Standard(s) => !extended && (s as u32 & mask) == (want & mask),
                CanId::Extended(e) => extended && (e & mask) == (want & mask),
            },
            FilterSpec::Node { node, include_nodeless } => match id {
                // CANopen is 11-bit only; extended frames have no node.
                CanId::Extended(_) => false,
                CanId::Standard(s) => {
                    proof {
                        assert(s & 0x7F == s % 128) by (bit_vector);
                        assert(s & 0x780 == (s / 128 % 16) * 128) by (bit_vector);
                    }
                    let n: u8 = (s & 0x7F) as u8;
                    let node_bearing: bool = n != 0 && match s & 0x780 {
                        0x080 | 0x180 | 0x200 | 0x280 | 0x300 | 0x380 | 0x400 | 0x480 | 0x500
                        | 0x580 | 0x600 | 0x700 => true,
                        _ => false,
                    };
                    if node_bearing && n == node {
                        return true;
                    }
                    if include_nodeless {
                        match s {
                            0x000 | 0x080 | 0x100 | 0x7E4 | 0x7E5 => true,
                            _ => false,
                        }
                    } else {
                        false
                    }
                },
            },
        }
    }
}

/// Keeping the nodeless traffic visible hides nothing.
pub proof fn nodeless_only_adds(node: u8, id: CanId)
    ensures
        (FilterSpec::Node { node, include_nodeless: false }).accepts(id) ==> (FilterSpec::Node {
            node,
            include_nodeless: true,
        }).accepts(id),
{
}

/// A frame that addresses a node is shown for that node and for no other,
/// whatever else is kept visible.
pub proof fn node_frames_show_for_their_node_only(id: u16, node: u8, include_nodeless: bool)
    requires
        node_of(id) is Some,
    ensures
        (FilterSpec::Node { node, include_nodeless }).accepts(CanId::Standard(id)) <==> node_of(id)
            == Some(node),
{
}

/// A node filter never shows an extended frame, and node 0 (the broadcast
/// address) selects no frame of its own.
pub proof fn node_filter_limits(id: CanId, node: u8, include_nodeless: bool)
    ensures
        id is Extended ==> !(FilterSpec::Node { node, include_nodeless }).accepts(id),
        !(FilterSpec::Node { node: 0, include_nodeless: false }).accepts(id),
{
}

/// An empty mask shows one identifier width, and all of it.
pub proof fn empty_mask_is_a_width(id: CanId, want: u32, extended: bool)
    ensures
        (FilterSpec::Mask { id: want, mask: 0, extended }).accepts(id) <==> (id is Extended)
            == extended,
{
    let raw = id.raw_value();
    assert(raw & 0 == 0 && want & 0 == 0) by (bit_vector);
}

/// A mask with every bit set shows a single identifier.
pub proof fn full_mask_is_exact(id: CanId, want: u32, extended: bool)
    ensures
        (FilterSpec::Mask { id: want, mask: u32::MAX, extended }).accepts(id) <==> (id is Extended)
            == extended && id.raw_value() == want,
{
    let raw = id.raw_value();
    assert(raw & 0xFFFF_FFFF == raw && want & 0xFFFF_FFFF == want) by (bit_vector);
}

/// A node filter shows exactly the identifiers whose low seven bits are the node, not
/// zero, in these ranges: EMCY 0x080, the PDOs 0x180 to 0x500, SDO 0x580 and 0x600,
/// heartbeat 0x700.
pub proof fn node_filter_shows_its_ranges(id: u16, node: u8)
    ensures
        (FilterSpec::Node { node, include_nodeless: false }).accepts(CanId::Standard(id)) <==> ({
            let base = id as int % 0x800 - id as int % 0x80;
            &&& id as int % 0x80 == node
            &&& node != 0
            &&& base == 0x080 || base == 0x180 || base == 0x200 || base == 0x280 || base == 0x300
                || base == 0x380 || base == 0x400 || base == 0x480 || base == 0x500 || base
                == 0x580 || base == 0x600 || base == 0x700
        }),
{
    let n = id as int;
    assert(n % 0x800 - n % 0x80 == n / 128 % 16 * 128);
}

/// Keeping nodeless traffic visible adds NMT, SYNC, TIME and the two LSS identifiers, and
/// nothing else.
pub proof fn nodeless_adds_five(id: u16, node: u8)
    ensures
        (FilterSpec::Node { node, include_nodeless: true }).accepts(CanId::Standard(id)) <==> (
        FilterSpec::Node { node, include_nodeless: false }).accepts(CanId::Standard(id)) || id
            == 0x000 || id == 0x080 || id == 0x100 || id == 0x7E4 || id == 0x7E5,
{
}

/// A mask filter shows the identifiers of its width that differ from its own in no bit of
/// the mask; the filter for everything shows everything.
pub proof fn mask_filter_compares_its_bits(id: CanId, want: u32, mask: u32, extended: bool)
    ensures
        (FilterSpec::Mask { id: want, mask, extended }).accepts(id) <==> match id {
            CanId::Standard(raw) => !extended && (raw as u32 ^ want) & mask == 0,
            CanId::Extended(raw) => extended && (raw ^ want) & mask == 0,
        },
        FilterSpec::All.accepts(id),
{
    crate::can::mask_compares_its_bits(CanFilter { id: want, mask, extended }, id);
}

} // verus!
