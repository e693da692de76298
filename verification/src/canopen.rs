//! CANopen object writes and PDO mappings.

use hex_motor::canopen::rpdo_config::RpdoRecipe as DriverRecipe;
use hex_motor::canopen::tpdo_config::TpdoEntry;
use vstd::prelude::*;

verus! {

/// One object-dictionary write.
#[derive(Debug, Clone, PartialEq, Eq)]
pub struct SdoWrite {
    pub index: u16,
    pub subindex: u8,
    pub data: Vec<u8>,
}

/// An object-dictionary write as a mathematical value.
#[verifier::ext_equal]
pub struct ObjectWrite {
    pub index: u16,
    pub subindex: u8,
    pub data: Seq<u8>,
}

impl View for SdoWrite {
    type V = ObjectWrite;

    open spec fn view(&self) -> ObjectWrite {
        ObjectWrite { index: self.index, subindex: self.subindex, data: self.data@ }
    }
}

/// One object mapped into a PDO.
#[derive(Debug, Clone, Copy, PartialEq, Eq, Structural)]
pub struct PdoEntry {
    pub index: u16,
    pub subindex: u8,
    pub bit_len: u8,
}

/// The configuration of one receive PDO.
#[derive(Debug, Clone)]
pub struct RpdoRecipe {
    /// 0 to 3.
    pub rpdo_index: u8,
    pub cob_id: u16,
    pub entries: Vec<PdoEntry>,
    pub transmission_type: u8,
}

/// Bits that the entries take together.
pub open spec fn total_bits(entries: Seq<PdoEntry>) -> int
    decreases entries.len(),
{
    if entries.len() == 0 {
        0
    } else {
        total_bits(entries.drop_last()) + entries.last().bit_len
    }
}

/// Little-endian bytes of a 32-bit number.
pub open spec fn le32(v: int) -> Seq<u8> {
    seq![
        (v % 0x100) as u8,
        (v / 0x100 % 0x100) as u8,
        (v / 0x1_0000 % 0x100) as u8,
        (v / 0x100_0000 % 0x100) as u8,
    ]
}

/// A receive PDO configuration as a mathematical value.
#[verifier::ext_equal]
pub struct Mapping {
    pub rpdo_index: u8,
    pub cob_id: u16,
    pub entries: Seq<PdoEntry>,
    pub transmission_type: u8,
}

impl View for RpdoRecipe {
    type V = Mapping;

    open spec fn view(&self) -> Mapping {
        Mapping {
            rpdo_index: self.rpdo_index,
            cob_id: self.cob_id,
            entries: self.entries@,
            transmission_type: self.transmission_type,
        }
    }
}

impl Mapping {
    /// The mapping can be configured: a PDO that exists, one to 64 entries within
    /// a CAN-FD payload, and an 11-bit identifier.
    pub open spec fn valid(self) -> bool {
        &&& self.rpdo_index <= 3
        &&& 1 <= self.entries.len() <= 64
        &&& total_bits(self.entries) <= 512
        &&& self.cob_id <= 0x7FF
    }

    /// The write that maps entry `i`.
    pub open spec fn mapping_write(self, i: int) -> ObjectWrite {
        let e = self.entries[i];
        ObjectWrite {
            index: (0x1600 + self.rpdo_index) as u16,
            subindex: (i + 1) as u8,
            data: le32(e.index * 0x1_0000 + e.subindex * 0x100 + e.bit_len),
        }
    }

    /// The writes that configure the PDO, in order: disable, transmission type,
    /// clear the mapping, map each entry, set the entry count, enable.
    pub open spec fn writes(self) -> Seq<ObjectWrite> {
        let comm = (0x1400 + self.rpdo_index) as u16;
        let map = (0x1600 + self.rpdo_index) as u16;
        seq![
            ObjectWrite { index: comm, subindex: 1, data: le32(0x8000_0000 + self.cob_id) },
            ObjectWrite { index: comm, subindex: 2, data: seq![self.transmission_type] },
            ObjectWrite { index: map, subindex: 0, data: seq![0u8] },
        ] + Seq::new(self.entries.len(), |i: int| self.mapping_write(i)) + seq![
            ObjectWrite { index: map, subindex: 0, data: seq![self.entries.len() as u8] },
            ObjectWrite { index: comm, subindex: 1, data: le32(self.cob_id as int) },
        ]
    }
}

/// `hex_motor`'s error, carried through unread.
#[verifier::external_type_specification]
#[verifier::external_body]
pub struct ExDriverError(hex_motor::Error);

/// `hex_motor::canopen::rpdo_config::build_rpdo_config_writes`: accepts exactly
/// the valid mappings, and gives the six-step write sequence of its documentation.
#[verifier::external_body]
pub(crate) fn build_rpdo_config_writes(recipe: &RpdoRecipe) -> (r: Result<
    Vec<SdoWrite>,
    hex_motor::Error,
>)
    ensures
        r is Ok <==> recipe@.valid(),
        r matches Ok(w) ==> w@.map_values(|x: SdoWrite| x@) == recipe@.writes(),
{
    let writes = hex_motor::canopen::rpdo_config::build_rpdo_config_writes(&DriverRecipe {
        rpdo_index: recipe.rpdo_index,
        cob_id: recipe.cob_id,
        entries: recipe.entries.iter().map(|e| TpdoEntry {
            index: e.index,
            subindex: e.subindex,
            bit_len: e.bit_len,
        }).collect(),
        transmission_type: recipe.transmission_type,
    })?;
    Ok(writes.into_iter().map(|w| SdoWrite {
        index: w.index, subindex: w.subindex, data: w.data,
    }).collect())
}

/// A PDO is changed only while it is off: the first write disables it, the last one
/// enables it, and none between touches its identifier.
pub proof fn mapping_changes_while_disabled(m: Mapping)
    requires
        m.valid(),
    ensures
        ({
            let w = m.writes();
            let comm = (0x1400 + m.rpdo_index) as u16;
            &&& w.len() == m.entries.len() + 5
            &&& w.first() == (ObjectWrite {
                index: comm,
                subindex: 1,
                data: le32(0x8000_0000 + m.cob_id),
            })
            &&& w.last() == (ObjectWrite { index: comm, subindex: 1, data: le32(m.cob_id as int) })
            &&& forall|i: int|
                0 < i < w.len() - 1 ==> !(#[trigger] w[i].index == comm && w[i].subindex == 1)
        }),
{
}

/// Little-endian bytes put together again are the number.
pub proof fn le32_reads_back(v: int)
    requires
        0 <= v <= u32::MAX,
    ensures
        le32(v).len() == 4,
        le32(v)[0] + 0x100 * le32(v)[1] + 0x1_0000 * le32(v)[2] + 0x100_0000 * le32(v)[3] == v,
{
    assert(le32(v)[0] == v % 0x100);
    assert(le32(v)[1] == v / 0x100 % 0x100);
    assert(le32(v)[2] == v / 0x1_0000 % 0x100);
    assert(le32(v)[3] == v / 0x100_0000 % 0x100);
}

/// Mapped bits add up.
pub proof fn bits_add_up(entries: Seq<PdoEntry>, e: PdoEntry)
    ensures
        total_bits(seq![]) == 0,
        total_bits(entries.push(e)) == total_bits(entries) + e.bit_len,
{
    assert(entries.push(e).drop_last() =~= entries);
}

/// While a PDO is off it gets its transmission type, then its mapping: emptied, one object
/// per entry in order with index, subindex and length, and the number of entries.
pub proof fn mapping_is_written_in_order(m: Mapping, i: int)
    requires
        m.valid(),
        0 <= i < m.entries.len(),
    ensures
        ({
            let w = m.writes();
            let n = m.entries.len() as int;
            let e = m.entries[i];
            let d = w[3 + i].data;
            &&& w[1].index == 0x1400 + m.rpdo_index && w[1].subindex == 2 && w[1].data
                == seq![m.transmission_type]
            &&& w[2].index == 0x1600 + m.rpdo_index && w[2].subindex == 0 && w[2].data
                == seq![0u8]
            &&& w[3 + i].index == 0x1600 + m.rpdo_index && w[3 + i].subindex == i + 1
            &&& d.len() == 4
            &&& d[0] == e.bit_len && d[1] == e.subindex && d[2] + 0x100 * d[3] == e.index
            &&& w[3 + n].index == 0x1600 + m.rpdo_index && w[3 + n].subindex == 0 && w[3
                + n].data == seq![n as u8]
        }),
{
    assert(m.writes()[3 + i] == m.mapping_write(i));
    object_bytes(m.entries[i]);
}

/// The bytes that name a mapped object: its length, its subindex, its index.
proof fn object_bytes(e: PdoEntry)
    ensures
        ({
            let d = le32(e.index * 0x1_0000 + e.subindex * 0x100 + e.bit_len);
            &&& d[0] == e.bit_len && d[1] == e.subindex
            &&& d[2] == e.index % 0x100 && d[3] == e.index / 0x100
        }),
{
    let (index, sub, bits) = (e.index as int, e.subindex as int, e.bit_len as int);
    let v = index * 0x1_0000 + sub * 0x100 + bits;
    assert(v % 0x100 == bits);
    assert(v / 0x100 == index * 0x100 + sub);
    assert((index * 0x100 + sub) % 0x100 == sub);
    assert(v / 0x1_0000 == index);
    assert(v / 0x100_0000 == index / 0x100);
    assert(index / 0x100 % 0x100 == index / 0x100);
}

/// A mapping can be configured exactly for one of four PDOs, with one to 64 objects of at
/// most 64 bytes together and an eleven-bit identifier.
pub proof fn valid_mappings(m: Mapping)
    ensures
        m.valid() <==> m.rpdo_index < 4 && 0 < m.entries.len() <= 64 && total_bits(m.entries) <= 512
            && m.cob_id < 0x800,
{
}

/// The views hold what the values hold.
pub proof fn views_are_the_values(w: SdoWrite, r: RpdoRecipe)
    ensures
        w@.index == w.index && w@.subindex == w.subindex && w@.data == w.data@,
        r@.rpdo_index == r.rpdo_index && r@.cob_id == r.cob_id && r@.entries == r.entries@
            && r@.transmission_type == r.transmission_type,
{
}

} // verus!
