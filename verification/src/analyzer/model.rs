//! The analyzer's state as a mathematical value, its transitions, and the laws
//! that tie them together.

use vstd::prelude::*;

use super::keyset::{MAX_BUS_CHUNKS, MAX_CHUNKS};
use super::record::{AggStats, Capture, FrameRecord};
use crate::can::CanId;

verus! {

/// Hard cap on the trace ring. Older frames roll off.
pub const RING_CAP: usize = 8192;

/// Hard cap on distinct identifiers with statistics: a device that walks the
/// identifier space, or noise on the bus, cannot make the table grow without end.
/// Overflow is counted, not fatal.
pub const MAX_IDS: usize = 4096;

/// No poll returns more trace frames than this, whatever the caller asks for.
pub const MAX_BATCH: u32 = 5000;

/// What the analyzer keeps.
#[verifier::ext_equal]
pub struct AnalyzerView {
    /// The most recent frames, oldest first.
    pub ring: Seq<FrameRecord>,
    /// Sequence number of the oldest frame in the ring; `next_seq` when empty.
    pub first_seq: int,
    /// Sequence number of the next captured frame.
    pub next_seq: int,
    /// Statistics per identifier.
    pub agg: Map<CanId, AggStats>,
    /// Identifiers without statistics, because the table was full.
    pub refused: Set<CanId>,
    /// Frames captured since the last clear.
    pub total: int,
    /// Device clock minus host clock, once a stamped frame was seen.
    pub hw_offset: Option<int>,
}

/// All frames that the statistics have counted.
pub open spec fn counted(agg: Map<CanId, AggStats>) -> int
    decreases agg.dom().len(),
    when agg.dom().finite()
{
    if agg.dom().len() == 0 {
        0
    } else {
        let id = agg.dom().choose();
        agg[id].count + counted(agg.remove(id))
    }
}

/// A clock reading taken as a signed 64-bit number.
pub open spec fn signed(us: u64) -> int {
    if us <= i64::MAX {
        us as int
    } else {
        us - 0x1_0000_0000_0000_0000
    }
}

pub open spec fn fits_i64(x: int) -> bool {
    i64::MIN <= x <= i64::MAX
}

impl AnalyzerView {
    /// A fresh session. Sequence numbers start at 1, so a cursor of 0 sees the
    /// first frame.
    pub open spec fn fresh() -> Self {
        AnalyzerView {
            ring: seq![],
            first_seq: 1,
            next_seq: 1,
            agg: Map::empty(),
            refused: Set::empty(),
            total: 0,
            hw_offset: None,
        }
    }

    /// Whether a new identifier still gets statistics.
    pub open spec fn has_room(self) -> bool {
        self.agg.dom().len() < MAX_IDS
    }

    /// How many distinct identifiers could not be tracked.
    pub open spec fn agg_overflow(self) -> int {
        self.refused.len() as int
    }

    /// Captures one frame.
    pub open spec fn push(self, c: Capture) -> Self {
        let full = self.ring.len() == RING_CAP;
        AnalyzerView {
            ring: (if full {
                self.ring.drop_first()
            } else {
                self.ring
            }).push(c.record(self.next_seq)),
            first_seq: if full {
                self.first_seq + 1
            } else {
                self.first_seq
            },
            next_seq: self.next_seq + 1,
            agg: if self.agg.contains_key(c.id) {
                self.agg.insert(c.id, self.agg[c.id].next(c.sample))
            } else if self.has_room() {
                self.agg.insert(c.id, AggStats::first(c.sample))
            } else {
                self.agg
            },
            refused: if self.agg.contains_key(c.id) || self.has_room() {
                self.refused
            } else {
                self.refused.insert(c.id)
            },
            total: self.total + 1,
            hw_offset: self.hw_offset,
        }
    }

    /// Captures several frames, first to last.
    pub open spec fn push_all(self, captures: Seq<Capture>) -> Self
        decreases captures.len(),
    {
        if captures.len() == 0 {
            self
        } else {
            self.push_all(captures.drop_last()).push(captures.last())
        }
    }

    /// Forgets frames, statistics and counters. Sequence numbers and the clock
    /// offset go on.
    pub open spec fn clear(self) -> Self {
        AnalyzerView {
            ring: seq![],
            first_seq: self.next_seq,
            next_seq: self.next_seq,
            agg: Map::empty(),
            refused: Set::empty(),
            total: 0,
            hw_offset: self.hw_offset,
        }
    }

    /// The device-to-host clock offset that a frame stamped `hw_us` at `host_us`
    /// is shown with: the first such frame fixes it.
    pub open spec fn offset(self, host_us: u64, hw_us: u64) -> int {
        match self.hw_offset {
            Some(offset) => offset,
            None => signed(hw_us) - signed(host_us),
        }
    }

    /// The clock differences fit the machine's signed numbers.
    pub open spec fn clock_ok(self, host_us: u64, hw_us: Option<u64>) -> bool {
        hw_us matches Some(h) ==> {
            &&& fits_i64(self.offset(host_us, h))
            &&& fits_i64(signed(h) - self.offset(host_us, h))
        }
    }

    /// Display time: host time as it is, device time rebased by the offset.
    pub open spec fn display(self, host_us: u64, hw_us: Option<u64>) -> int {
        match hw_us {
            Some(h) => {
                let rebased = signed(h) - self.offset(host_us, h);
                if rebased > 0 {
                    rebased
                } else {
                    0
                }
            },
            None => host_us as int,
        }
    }

    /// The state once the offset is fixed.
    pub open spec fn after_display(self, host_us: u64, hw_us: Option<u64>) -> Self {
        match hw_us {
            Some(h) => AnalyzerView { hw_offset: Some(self.offset(host_us, h)), ..self },
            None => self,
        }
    }

    /// What holds of every state.
    pub open spec fn inv(self) -> bool {
        &&& 1 <= self.first_seq
        &&& self.first_seq + self.ring.len() == self.next_seq
        &&& self.ring.len() <= RING_CAP
        &&& forall|i: int|
            #![trigger self.ring[i]]
            0 <= i < self.ring.len() ==> self.ring[i].seq == self.first_seq + i
        &&& self.agg.dom().finite()
        &&& self.agg.dom().len() <= MAX_IDS
        &&& forall|id: CanId| #[trigger] self.agg.contains_key(id) ==> self.agg[id].sound()
        &&& self.refused.finite()
        &&& self.refused.disjoint(self.agg.dom())
        &&& self.refused.len() > 0 ==> !self.has_room()
        &&& counted(self.agg) + self.refused.len() <= self.total
        &&& self.refused.len() == 0 ==> counted(self.agg) == self.total
        &&& self.total < self.next_seq
    }

    /// `chunks` chunks of 512 bytes may hold the refused identifiers: what is kept of them
    /// is bounded by the identifier space, whatever the traffic, and by their number.
    pub open spec fn allows_storage(self, chunks: nat) -> bool {
        &&& chunks <= MAX_CHUNKS
        &&& chunks <= self.agg_overflow()
        &&& (forall|id: CanId| #[trigger] self.refused.contains(id) ==> id.on_bus()) ==> chunks
            <= MAX_BUS_CHUNKS
    }

    /// Every frame and every statistic that is kept can be shown.
    pub open spec fn showable(self) -> bool {
        &&& forall|i: int|
            #![trigger self.ring[i]]
            0 <= i < self.ring.len() ==> self.ring[i].showable()
        &&& forall|id: CanId| #[trigger] self.agg.contains_key(id) ==> self.agg[id].showable()
    }
}

/// Taking one identifier out of the statistics takes its frames out of the sum.
pub proof fn counted_remove(agg: Map<CanId, AggStats>, id: CanId)
    requires
        agg.dom().finite(),
        agg.contains_key(id),
    ensures
        counted(agg) == agg[id].count + counted(agg.remove(id)),
    decreases agg.dom().len(),
{
    let pick = agg.dom().choose();
    assert(agg.dom().contains(id));
    assert(agg.dom().len() > 0);
    assert(agg.dom().contains(pick));
    if pick != id {
        counted_remove(agg.remove(pick), id);
        assert(agg.remove(pick).remove(id) =~= agg.remove(id).remove(pick));
        counted_remove(agg.remove(id), pick);
    }
}

proof fn counted_insert(agg: Map<CanId, AggStats>, id: CanId, stats: AggStats)
    requires
        agg.dom().finite(),
    ensures
        counted(agg.insert(id, stats)) == counted(agg) + stats.count - (if agg.contains_key(id) {
            agg[id].count
        } else {
            0
        }),
{
    let after = agg.insert(id, stats);
    counted_remove(after, id);
    if agg.contains_key(id) {
        counted_remove(agg, id);
        assert(after.remove(id) =~= agg.remove(id));
    } else {
        assert(after.remove(id) =~= agg);
    }
}

proof fn counted_bounds(agg: Map<CanId, AggStats>, id: CanId)
    requires
        agg.dom().finite(),
        forall|k: CanId| #[trigger] agg.contains_key(k) ==> agg[k].sound(),
        agg.contains_key(id),
    ensures
        agg[id].count <= counted(agg),
{
    counted_remove(agg, id);
    counted_nonnegative(agg.remove(id));
}

proof fn counted_nonnegative(agg: Map<CanId, AggStats>)
    requires
        agg.dom().finite(),
        forall|k: CanId| #[trigger] agg.contains_key(k) ==> agg[k].sound(),
    ensures
        counted(agg) >= 0,
    decreases agg.dom().len(),
{
    if agg.dom().len() > 0 {
        let id = agg.dom().choose();
        assert(agg.contains_key(id));
        let rest = agg.remove(id);
        assert forall|k: CanId| #[trigger] rest.contains_key(k) implies rest[k].sound() by {
            assert(agg.contains_key(k));
        }
        counted_nonnegative(rest);
    }
}

/// A fresh session satisfies the invariant.
pub proof fn fresh_inv()
    ensures
        AnalyzerView::fresh().inv(),
        AnalyzerView::fresh().showable(),
{
}

/// Every capture keeps the invariant. Together with its clauses on `total`: as long
/// as no identifier was refused, each captured frame is counted once, in the
/// statistics of its identifier.
pub proof fn push_inv(v: AnalyzerView, c: Capture)
    requires
        v.inv(),
        c.storable(),
    ensures
        v.push(c).inv(),
{
    let w = v.push(c);
    assert forall|i: int| #![trigger w.ring[i]] 0 <= i < w.ring.len() implies w.ring[i].seq
        == w.first_seq + i by {
        if i < w.ring.len() - 1 {
            let j = if v.ring.len() == RING_CAP {
                i + 1
            } else {
                i
            };
            assert(w.ring[i] == v.ring[j]);
        }
    }
    if v.agg.contains_key(c.id) {
        counted_insert(v.agg, c.id, v.agg[c.id].next(c.sample));
        assert(w.agg.dom() =~= v.agg.dom());
    } else if v.has_room() {
        counted_insert(v.agg, c.id, AggStats::first(c.sample));
        assert(v.refused =~= Set::empty());
    }
    assert forall|id: CanId| #[trigger] w.agg.contains_key(id) implies w.agg[id].sound() by {
        if id != c.id {
            assert(v.agg.contains_key(id));
        }
    }
}

/// Capturing a frame that can be shown leaves everything showable.
pub proof fn push_showable(v: AnalyzerView, c: Capture)
    requires
        v.showable(),
        c.showable(),
    ensures
        v.push(c).showable(),
{
    let w = v.push(c);
    assert forall|i: int| #![trigger w.ring[i]] 0 <= i < w.ring.len() implies w.ring[
        i
    ].showable() by {
        if i < w.ring.len() - 1 {
            let j = if v.ring.len() == RING_CAP {
                i + 1
            } else {
                i
            };
            assert(w.ring[i] == v.ring[j]);
        }
    }
    assert forall|id: CanId| #[trigger] w.agg.contains_key(id) implies w.agg[id].showable() by {
        if id != c.id {
            assert(v.agg.contains_key(id));
        }
    }
}

/// Clearing keeps the invariant.
pub proof fn clear_inv(v: AnalyzerView)
    requires
        v.inv(),
    ensures
        v.clear().inv(),
        v.clear().showable(),
{
    counted_nonnegative(v.agg);
}

/// Counters never exceed the sequence number, so they overflow no earlier.
pub proof fn counters_below_seq(v: AnalyzerView)
    requires
        v.inv(),
    ensures
        v.agg_overflow() < v.next_seq,
        forall|id: CanId| #[trigger] v.agg.contains_key(id) ==> v.agg[id].count < v.next_seq,
{
    counted_nonnegative(v.agg);
    assert forall|id: CanId| #[trigger] v.agg.contains_key(id) implies v.agg[id].count
        < v.next_seq by {
        counted_bounds(v.agg, id);
    }
}

/// A capture changes the statistics of its own identifier alone, and none are
/// ever dropped: a frame adds one to its identifier's count where that identifier
/// has statistics, or gets them. The time of the first frame stays. As long as no
/// identifier was refused, the counts add up to the total.
pub proof fn captures_count_by_identifier(v: AnalyzerView, c: Capture, id: CanId)
    requires
        v.inv(),
    ensures
        id != c.id ==> v.push(c).agg.contains_key(id) == v.agg.contains_key(id),
        id != c.id && v.agg.contains_key(id) ==> v.push(c).agg[id] == v.agg[id],
        v.agg.contains_key(c.id) ==> {
            &&& v.push(c).agg.contains_key(c.id)
            &&& v.push(c).agg[c.id].count == v.agg[c.id].count + 1
            &&& v.push(c).agg[c.id].first_us == v.agg[c.id].first_us
        },
        !v.agg.contains_key(c.id) && v.has_room() ==> {
            &&& v.push(c).agg.contains_key(c.id)
            &&& v.push(c).agg[c.id].count == 1
        },
        !v.agg.contains_key(c.id) && !v.has_room() ==> {
            &&& v.push(c).agg == v.agg
            &&& v.push(c).refused == v.refused.insert(c.id)
        },
        v.agg_overflow() == 0 ==> counted(v.agg) == v.total,
{
}

/// The overflow counts distinct identifiers: the first frame of one that is refused
/// adds one, and further frames of it add nothing. Frames of tracked identifiers
/// never do.
pub proof fn overflow_counts_identifiers(v: AnalyzerView, c: Capture)
    requires
        v.inv(),
    ensures
        v.push(c).agg_overflow() == v.agg_overflow() + (if !v.agg.contains_key(c.id)
            && !v.has_room() && !v.refused.contains(c.id) {
            1int
        } else {
            0
        }),
        v.push(c).push(c).agg_overflow() == v.push(c).agg_overflow(),
{
    let w = v.push(c);
    if w.refused.contains(c.id) {
        assert(w.refused.insert(c.id) =~= w.refused);
    }
    if v.refused.contains(c.id) {
        assert(v.refused.insert(c.id) =~= v.refused);
    }
}

/// A refused identifier stays without statistics until the capture is cleared.
pub proof fn refusal_lasts(v: AnalyzerView, c: Capture, id: CanId)
    requires
        v.inv(),
        v.refused.contains(id),
    ensures
        v.push(c).refused.contains(id),
        !v.push(c).agg.contains_key(id),
        !v.clear().refused.contains(id),
{
    assert(v.refused.len() > 0) by {
        if v.refused.len() == 0 {
            assert(v.refused =~= Set::empty());
        }
    }
    assert(!v.agg.dom().contains(id));
}

/// Statistics outlive the ring: what rolls off the trace does not touch them.
pub proof fn statistics_ignore_the_ring(v: AnalyzerView, w: AnalyzerView, c: Capture)
    requires
        v.agg == w.agg,
    ensures
        v.push(c).agg == w.push(c).agg,
{
}

/// The first stamped frame is shown at its host arrival time, so the axis does
/// not jump when stamping sets in.
pub proof fn first_stamp_shows_host_time(v: AnalyzerView, host_us: u64, hw_us: u64)
    requires
        v.hw_offset is None,
        host_us <= i64::MAX,
    ensures
        v.display(host_us, Some(hw_us)) == host_us,
{
}

/// The first stamped frame fixes the offset for the session: later frames,
/// captures and clears leave it.
pub proof fn offset_stays(
    v: AnalyzerView,
    host_us: u64,
    hw_us: Option<u64>,
    c: Capture,
)
    requires
        v.hw_offset is Some,
    ensures
        v.after_display(host_us, hw_us).hw_offset == v.hw_offset,
        v.push(c).hw_offset == v.hw_offset,
        v.clear().hw_offset == v.hw_offset,
{
}

/// Shown times keep the device clock's differences exactly, wherever they are not
/// cut off at the start of the session, and its order everywhere.
pub proof fn stamps_keep_device_deltas(
    v: AnalyzerView,
    host_a: u64,
    hw_a: u64,
    host_b: u64,
    hw_b: u64,
)
    requires
        v.hw_offset is Some,
    ensures
        ({
            let a = v.display(host_a, Some(hw_a));
            let b = v.display(host_b, Some(hw_b));
            &&& a > 0 && b > 0 ==> b - a == signed(hw_b) - signed(hw_a)
            &&& signed(hw_a) <= signed(hw_b) ==> a <= b
        }),
{
}

} // verus!
