//! The capture state: the ring, the per-identifier table and their counters.

use std::collections::HashMap;
use std::collections::VecDeque;

use vstd::prelude::*;

use super::keyset::{is_bus_key, is_key, KeySet};
use super::model::{
    clear_inv, counters_below_seq, push_inv, signed, AnalyzerView, MAX_IDS, RING_CAP,
};
use super::poll::{at_most, next_cursor, shown_after, wanted};
use super::record::{
    storable, AggEntry, AggStats, Capture, Dir, FrameRecord, Sample, TraceRecord,
};
use crate::can::{CanId, FrameKind};
use crate::filter::FilterSpec;

verus! {

broadcast use {
    vstd::std_specs::hash::group_hash_axioms,
    vstd::std_specs::vecdeque::group_vec_dequeue_axioms,
};

/// Table key of an identifier: width and number in one integer.
pub open spec fn key_of(id: CanId) -> u64 {
    match id {
        CanId::Standard(s) => s as u64,
        CanId::Extended(e) => (0x1_0000_0000 + e) as u64,
    }
}

/// The identifier of a table key.
pub open spec fn id_of(key: u64) -> CanId {
    if key < 0x1_0000_0000 {
        CanId::Standard(key as u16)
    } else {
        CanId::Extended((key - 0x1_0000_0000) as u32)
    }
}

fn key(id: CanId) -> (k: u64)
    ensures
        k == key_of(id),
        is_key(k),
{
    match id {
        CanId::Standard(s) => s as u64,
        CanId::Extended(e) => 0x1_0000_0000 + e as u64,
    }
}

fn id_from_key(k: u64) -> (id: CanId)
    requires
        key_of(id_of(k)) == k,
    ensures
        id == id_of(k),
{
    if k < 0x1_0000_0000 {
        CanId::Standard(k as u16)
    } else {
        CanId::Extended((k - 0x1_0000_0000) as u32)
    }
}

/// The identifiers of a set of keys.
pub open spec fn ids(keys: Set<u64>) -> Set<CanId> {
    Set::new(|id: CanId| keys.contains(key_of(id)))
}

/// Every key stands for an identifier.
pub open spec fn keyed(keys: Set<u64>) -> bool {
    forall|k: u64| #[trigger] keys.contains(k) ==> key_of(id_of(k)) == k
}

/// The table as a map from identifiers to statistics.
pub open spec fn table(agg: Map<u64, AggEntry>) -> Map<CanId, AggStats> {
    Map::new(|id: CanId| agg.contains_key(key_of(id)), |id: CanId| agg[key_of(id)]@)
}

proof fn ids_size(keys: Set<u64>)
    requires
        keyed(keys),
        keys.finite(),
    ensures
        ids(keys).finite(),
        ids(keys).len() == keys.len(),
{
    let f = |k: u64| id_of(k);
    let image = keys.map(f);
    assert(image =~= ids(keys)) by {
        assert forall|id: CanId| ids(keys).contains(id) implies image.contains(id) by {
            assert(keys.contains(key_of(id)));
            assert(f(key_of(id)) == id);
        }
        assert forall|id: CanId| image.contains(id) implies ids(keys).contains(id) by {
            let k = choose|k: u64| keys.contains(k) && f(k) == id;
            assert(keys.contains(k));
        }
    }
    assert(vstd::relations::injective_on(f, keys)) by {
        assert forall|a: u64, b: u64|
            keys.contains(a) && keys.contains(b) && #[trigger] f(a) == #[trigger] f(
                b,
            ) implies a == b by {
            assert(keys.contains(a) && keys.contains(b));
        }
    }
    vstd::set_lib::lemma_map_size(keys, image, f);
}

proof fn ids_insert(keys: Set<u64>, id: CanId)
    requires
        keyed(keys),
    ensures
        keyed(keys.insert(key_of(id))),
        ids(keys.insert(key_of(id))) == ids(keys).insert(id),
{
    assert(id_of(key_of(id)) == id);
    assert forall|other: CanId| key_of(other) == key_of(id) implies other == id by {
        assert(id_of(key_of(other)) == other);
    }
    assert(ids(keys.insert(key_of(id))) =~= ids(keys).insert(id));
}

proof fn table_size(agg: Map<u64, AggEntry>)
    requires
        keyed(agg.dom()),
        agg.dom().finite(),
    ensures
        table(agg).dom().finite(),
        table(agg).dom().len() == agg.dom().len(),
{
    ids_size(agg.dom());
    assert(table(agg).dom() =~= ids(agg.dom()));
}

proof fn table_insert(agg: Map<u64, AggEntry>, id: CanId, e: AggEntry)
    requires
        keyed(agg.dom()),
    ensures
        keyed(agg.insert(key_of(id), e).dom()),
        table(agg.insert(key_of(id), e)) == table(agg).insert(id, e@),
{
    assert(id_of(key_of(id)) == id);
    let after = agg.insert(key_of(id), e);
    assert forall|k: u64| #[trigger] after.dom().contains(k) implies key_of(id_of(k)) == k by {
        if k != key_of(id) {
            assert(agg.dom().contains(k));
        }
    }
    assert forall|other: CanId| key_of(other) == key_of(id) implies other == id by {
        assert(id_of(key_of(other)) == other);
    }
    assert(table(after) =~= table(agg).insert(id, e@));
}

/// Everything one session has captured and still keeps.
pub struct AnalyzerState {
    ring: VecDeque<TraceRecord>,
    first_seq: u64,
    next_seq: u64,
    agg: HashMap<u64, AggEntry>,
    refused: KeySet,
    total: u64,
    hw_offset: Option<i64>,
}

impl View for AnalyzerState {
    type V = AnalyzerView;

    closed spec fn view(&self) -> AnalyzerView {
        AnalyzerView {
            ring: self.ring@.map_values(|r: TraceRecord| r@),
            first_seq: self.first_seq as int,
            next_seq: self.next_seq as int,
            agg: table(self.agg@),
            refused: ids(self.refused@),
            total: self.total as int,
            hw_offset: match self.hw_offset {
                Some(o) => Some(o as int),
                None => None,
            },
        }
    }
}

impl AnalyzerState {
    /// The state is one that captures and clears lead to.
    pub open spec fn wf(&self) -> bool {
        self@.inv() && self@.allows_storage(self.refused_chunks()) && self.table_ok()
    }

    /// The chunks of 512 bytes that hold the refused identifiers.
    pub closed spec fn refused_chunks(&self) -> nat {
        self.refused.chunk_count()
    }

    /// The keys stand for identifiers.
    pub closed spec fn table_ok(&self) -> bool {
        &&& keyed(self.agg@.dom()) && self.agg@.dom().finite()
        &&& keyed(self.refused@) && self.refused.wf()
    }

    /// The storage bounds are those of the key set.
    proof fn is_bounded(self)
        requires
            keyed(self.refused@),
            self.refused.wf(),
        ensures
            self@.allows_storage(self.refused_chunks()),
    {
        ids_size(self.refused@);
        if forall|id: CanId| #[trigger] self@.refused.contains(id) ==> id.on_bus() {
            assert forall|k: u64| #[trigger] self.refused@.contains(k) implies is_bus_key(k) by {
                assert(self@.refused.contains(id_of(k)));
            }
        }
    }

    /// A fresh session.
    pub fn new() -> (r: Self)
        ensures
            r.wf(),
            r@ == AnalyzerView::fresh(),
    {
        let r: AnalyzerState = AnalyzerState {
            ring: VecDeque::with_capacity(RING_CAP),
            first_seq: 1,
            next_seq: 1,
            agg: HashMap::new(),
            refused: KeySet::new(),
            total: 0,
            hw_offset: None,
        };
        proof {
            assert(r@ =~= AnalyzerView::fresh());
            r.is_bounded();
        }
        r
    }

    /// Maps a frame's clock onto the session's display axis (microseconds since
    /// capture start, host timeline). Host-clock rows pass through; stamped frames
    /// are rebased with the offset of the first of them.
    pub fn display_time(&mut self, host_us: u64, hw_us: Option<u64>) -> (t_us: u64)
        requires
            old(self).wf(),
            old(self)@.clock_ok(host_us, hw_us),
        ensures
            final(self).wf(),
            final(self)@ == old(self)@.after_display(host_us, hw_us),
            t_us == old(self)@.display(host_us, hw_us),
    {
        match hw_us {
            Some(h) => {
                let hw: i64 = as_signed(h);
                let offset: i64 = match self.hw_offset {
                    Some(o) => o,
                    None => {
                        let o: i64 = hw - as_signed(host_us);
                        self.hw_offset = Some(o);
                        o
                    },
                };
                proof {
                    assert(self@ =~= old(self)@.after_display(host_us, hw_us));
                }
                let rebased: i64 = hw - offset;
                if rebased > 0 {
                    rebased as u64
                } else {
                    0
                }
            },
            None => host_us,
        }
    }

    /// Captures one frame, received or sent.
    pub fn push(
        &mut self,
        id: CanId,
        kind: FrameKind,
        data: &[u8],
        len: u8,
        t_us: u64,
        dir: Dir,
    )
        requires
            old(self).wf(),
            old(self)@.next_seq < u64::MAX,
            storable(data@, len),
        ensures
            final(self).wf(),
            final(self)@ == old(self)@.push(
                (Capture {
                    id,
                    dir,
                    sample: (Sample { kind, data: data@, len, t_us: t_us as int }),
                }),
            ),
    {
        let ghost c = Capture {
            id,
            dir,
            sample: Sample { kind, data: data@, len, t_us: t_us as int },
        };
        proof {
            push_inv(self@, c);
            counters_below_seq(self@);
            table_size(self.agg@);
            ids_size(self.refused@);
        }
        let seq: u64 = self.next_seq;
        self.next_seq = self.next_seq + 1;
        self.total = self.total + 1;
        let rec: TraceRecord = TraceRecord::new(seq, t_us, id, kind, data, len, dir);
        if self.ring.len() == RING_CAP {
            self.ring.pop_front();
            self.first_seq = self.first_seq + 1;
        }
        if self.ring.len() == 0 {
            self.first_seq = seq;
        }
        self.ring.push_back(rec);
        proof {
            assert(self.ring@.map_values(|r: TraceRecord| r@) =~= old(self)@.push(c).ring);
        }
        let k: u64 = key(id);
        let known: Option<AggEntry> = match self.agg.get(&k) {
            Some(e) => Some(*e),
            None => None,
        };
        proof {
            assert(table(self.agg@).contains_key(id) <==> self.agg@.contains_key(k));
        }
        match known {
            Some(e) => {
                let mut e: AggEntry = e;
                assert(old(self)@.agg.contains_key(id));
                e.update(t_us, kind, data, len);
                proof {
                    table_insert(self.agg@, id, e);
                }
                self.agg.insert(k, e);
            },
            None => {
                if self.agg.len() >= MAX_IDS {
                    proof {
                        ids_insert(self.refused@, id);
                    }
                    self.refused.insert(k);
                } else {
                    let e: AggEntry = AggEntry::new(t_us, kind, data, len);
                    proof {
                        table_insert(self.agg@, id, e);
                    }
                    self.agg.insert(k, e);
                }
            },
        }
        proof {
            assert(self@ =~= old(self)@.push(c));
            self.is_bounded();
        }
    }

    /// Empties ring, table and counters.
    pub fn clear(&mut self)
        requires
            old(self).wf(),
        ensures
            final(self).wf(),
            final(self)@ == old(self)@.clear(),
    {
        proof {
            clear_inv(self@);
        }
        self.ring.clear();
        self.agg.clear();
        self.refused.clear();
        self.total = 0;
        self.first_seq = self.next_seq;
        proof {
            assert(self@ =~= old(self)@.clear());
            self.is_bounded();
        }
    }
}

/// `records` are, in order, the frames `frames`.
pub open spec fn copies(records: Seq<TraceRecord>, frames: Seq<FrameRecord>) -> bool {
    records.map_values(|r: TraceRecord| r@) == frames
}

/// `rows` lists the statistics of each identifier that passes the filter, once,
/// in any order.
pub open spec fn lists(
    rows: Seq<(CanId, AggEntry)>,
    agg: Map<CanId, AggStats>,
    filter: FilterSpec,
) -> bool {
    &&& forall|i: int|
        #![trigger rows[i]]
        0 <= i < rows.len() ==> {
            &&& agg.contains_key(rows[i].0)
            &&& filter.accepts(rows[i].0)
            &&& rows[i].1@ == agg[rows[i].0]
        }
    &&& forall|i: int, j: int|
        #![trigger rows[i], rows[j]]
        0 <= i < j < rows.len() ==> rows[i].0 != rows[j].0
    &&& forall|id: CanId| #[trigger]
        agg.contains_key(id) && filter.accepts(id) ==> exists|i: int|
            0 <= i < rows.len() && (#[trigger] rows[i]).0 == id
}

impl AnalyzerState {
    pub fn next_seq(&self) -> (r: u64)
        ensures
            r == self@.next_seq,
    {
        self.next_seq
    }

    pub fn total(&self) -> (r: u64)
        ensures
            r == self@.total,
    {
        self.total
    }

    /// How many distinct identifiers could not be tracked.
    pub fn agg_overflow(&self) -> (r: u64)
        requires
            self.wf(),
        ensures
            r == self@.agg_overflow(),
    {
        proof {
            ids_size(self.refused@);
        }
        self.refused.len()
    }

    pub fn ring_len(&self) -> (r: usize)
        ensures
            r == self@.ring.len(),
    {
        self.ring.len()
    }

    /// How many identifiers have statistics.
    pub fn distinct_ids(&self) -> (r: usize)
        requires
            self.wf(),
        ensures
            r == self@.agg.dom().len(),
    {
        proof {
            table_size(self.agg@);
        }
        self.agg.len()
    }

    /// Tests whether [`AnalyzerState::display_time`] can place this frame.
    pub fn clock_fits(&self, host_us: u64, hw_us: Option<u64>) -> (r: bool)
        ensures
            r == self@.clock_ok(host_us, hw_us),
    {
        match hw_us {
            Some(h) => {
                let hw: i128 = as_signed(h) as i128;
                let offset: i128 = match self.hw_offset {
                    Some(o) => o as i128,
                    None => hw - as_signed(host_us) as i128,
                };
                let rebased: i128 = hw - offset;
                let low: i128 = -0x8000_0000_0000_0000;
                let high: i128 = 0x7FFF_FFFF_FFFF_FFFF;
                low <= offset && offset <= high && low <= rebased && rebased <= high
            },
            None => true,
        }
    }

    /// Copies out what a poll of the trace returns: the frames, the next cursor
    /// and whether there was a gap.
    pub fn collect_trace(&self, after_seq: u64, limit: usize, filter: &FilterSpec) -> (r: (
        Vec<TraceRecord>,
        u64,
        bool,
    ))
        requires
            self.wf(),
        ensures
            copies(r.0@, self@.poll(after_seq as int, limit as int, *filter).frames),
            r.1 == self@.poll(after_seq as int, limit as int, *filter).cursor,
            r.2 == self@.poll(after_seq as int, limit as int, *filter).gap,
    {
        let gap: bool = self.first_seq > after_seq.saturating_add(1);
        let mut out: Vec<TraceRecord> = Vec::new();
        let mut last_seen: u64 = after_seq;
        let n: usize = self.ring.len();
        let ghost ring = self@.ring;
        let ghost after = after_seq as int;
        let mut i: usize = 0;
        proof {
            reveal(Seq::filter);
            assert(ring.take(0) =~= seq![]);
            assert(out@.map_values(|r: TraceRecord| r@) =~= wanted(ring.take(0), after, *filter));
        }
        while i < n && out.len() < limit
            invariant
                self.wf(),
                ring == self@.ring,
                after == after_seq,
                n == ring.len(),
                n == self.ring@.len(),
                0 <= i <= n,
                limit == 0 ==> i == 0,
                out@.len() <= limit,
                out@.map_values(|r: TraceRecord| r@) == wanted(ring.take(i as int), after, *filter),
                last_seen == (if i > 0 && ring[i - 1].seq > after {
                    ring[i - 1].seq
                } else {
                    after
                }),
                limit > 0 && out@.len() == limit ==> last_seen == out@.last()@.seq,
            decreases n - i,
        {
            let rec: TraceRecord = self.ring[i];
            let ghost before = out@;
            proof {
                reveal(Seq::filter);
                assert(ring[i as int] == rec@);
                assert(ring.take(i as int + 1).drop_last() =~= ring.take(i as int));
                assert(ring.take(i as int + 1).last() == rec@);
            }
            if rec.seq > after_seq {
                last_seen = rec.seq;
                if filter.matches(rec.id) {
                    out.push(rec);
                }
            } else if i > 0 {
                assert(ring[i - 1].seq < ring[i as int].seq);
            }
            proof {
                assert(out@.map_values(|r: TraceRecord| r@) =~= wanted(
                    ring.take(i as int + 1),
                    after,
                    *filter,
                ));
            }
            i = i + 1;
        }
        proof {
            let front = ring.take(i as int);
            let back = ring.skip(i as int);
            assert(ring =~= front + back);
            Seq::filter_distributes_over_add(front, back, shown_after(*filter, after));
            let all = wanted(ring, after, *filter);
            let mine = out@.map_values(|r: TraceRecord| r@);
            if i == n {
                assert(front =~= ring);
            }
            if out@.len() == limit && limit > 0 {
                assert(all[limit - 1] == mine[limit - 1]);
                assert(mine[limit - 1] == out@.last()@);
            } else if limit > 0 {
                assert(all.len() < limit) by {
                    assert(all == mine);
                }
                if n > 0 {
                    assert(ring.last() == ring[n - 1]);
                }
            }
            assert(mine =~= at_most(all, limit as int));
            assert(last_seen == next_cursor(ring, after, limit as int, *filter));
        }
        (out, last_seen, gap)
    }

    /// Copies out the statistics of the identifiers that pass the filter.
    pub fn collect_aggregates(&self, filter: &FilterSpec) -> (rows: Vec<(CanId, AggEntry)>)
        requires
            self.wf(),
        ensures
            lists(rows@, self@.agg, *filter),
    {
        let mut rows: Vec<(CanId, AggEntry)> = Vec::new();
        let ghost agg = self.agg@;
        for kv in it: self.agg.iter()
            invariant
                self.wf(),
                agg == self.agg@,
                it.seq().no_duplicates(),
                forall|i: int|
                    #![trigger it.seq()[i]]
                    0 <= i < it.seq().len() ==> agg.contains_key(*it.seq()[i].0)
                        && agg[*it.seq()[i].0] == *it.seq()[i].1,
                forall|i: int|
                    #![trigger rows@[i]]
                    0 <= i < rows@.len() ==> {
                        &&& agg.contains_key(key_of(rows@[i].0))
                        &&& filter.accepts(rows@[i].0)
                        &&& rows@[i].1 == agg[key_of(rows@[i].0)]
                        &&& exists|j: int|
                            0 <= j < it.index() && *(#[trigger] it.seq()[j]).0 == key_of(rows@[i].0)
                    },
                forall|i: int, j: int|
                    #![trigger rows@[i], rows@[j]]
                    0 <= i < j < rows@.len() ==> rows@[i].0 != rows@[j].0,
                forall|j: int|
                    #![trigger it.seq()[j]]
                    0 <= j < it.index() && filter.accepts(id_of(*it.seq()[j].0)) ==> exists|i: int|
                        0 <= i < rows@.len() && (#[trigger] rows@[i]).0 == id_of(*it.seq()[j].0),
        {
            let (k, e): (&u64, &AggEntry) = kv;
            let ghost now = it.index();
            let ghost before = rows@;
            assert(it.seq()[now] == kv);
            assert(agg.contains_key(*k));
            let id: CanId = id_from_key(*k);
            if filter.matches(id) {
                rows.push((id, *e));
            }
            proof {
                assert forall|j: int|
                    #![trigger it.seq()[j]]
                    0 <= j <= now && filter.accepts(id_of(*it.seq()[j].0)) implies exists|i: int|
                    0 <= i < rows@.len() && (#[trigger] rows@[i]).0 == id_of(*it.seq()[j].0) by {
                    if j < now {
                        let i = choose|i: int|
                            0 <= i < before.len() && (#[trigger] before[i]).0 == id_of(
                                *it.seq()[j].0,
                            );
                        assert(rows@[i] == before[i]);
                    } else {
                        assert(rows@[rows@.len() - 1].0 == id);
                    }
                }
            }
        }
        rows
    }
}

/// A clock reading taken as a signed number.
fn as_signed(us: u64) -> (r: i64)
    ensures
        r == signed(us),
{
    if us <= 0x7FFF_FFFF_FFFF_FFFF {
        us as i64
    } else {
        -1 - (0xFFFF_FFFF_FFFF_FFFF - us) as i64
    }
}

} // verus!
