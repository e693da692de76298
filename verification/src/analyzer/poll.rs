//! Cursor-based polling of the trace: what a poll returns, and why a caller that
//! follows the cursor neither loses nor repeats a frame.

use vstd::prelude::*;

use super::model::{AnalyzerView, RING_CAP};
use super::record::{Capture, FrameRecord};
use crate::filter::FilterSpec;

verus! {

/// What one poll of the trace returns.
#[verifier::ext_equal]
pub struct Poll {
    pub frames: Seq<FrameRecord>,
    /// The cursor for the next poll.
    pub cursor: int,
    /// Frames after the old cursor have rolled off.
    pub gap: bool,
}

/// Selects the frames of one identifier filter.
pub open spec fn shown(filter: FilterSpec) -> spec_fn(FrameRecord) -> bool {
    |r: FrameRecord| filter.accepts(r.id)
}

/// Selects the frames of one identifier filter after a cursor.
pub open spec fn shown_after(filter: FilterSpec, after: int) -> spec_fn(FrameRecord) -> bool {
    |r: FrameRecord| r.seq > after && filter.accepts(r.id)
}

/// The frames of `ring` after the cursor that pass the filter, oldest first.
pub open spec fn wanted(ring: Seq<FrameRecord>, after: int, filter: FilterSpec) -> Seq<
    FrameRecord,
> {
    ring.filter(shown_after(filter, after))
}

/// At most `limit` of `frames`, from the front.
pub open spec fn at_most(frames: Seq<FrameRecord>, limit: int) -> Seq<FrameRecord> {
    if frames.len() <= limit {
        frames
    } else {
        frames.take(limit)
    }
}

/// The cursor after a poll: the last returned frame where the limit cut the poll
/// short, else the newest frame in the ring; it never moves back.
pub open spec fn next_cursor(
    ring: Seq<FrameRecord>,
    after: int,
    limit: int,
    filter: FilterSpec,
) -> int {
    let all = wanted(ring, after, filter);
    if limit <= 0 {
        after
    } else if all.len() >= limit {
        all[limit - 1].seq
    } else if ring.len() > 0 && ring.last().seq > after {
        ring.last().seq
    } else {
        after
    }
}

impl AnalyzerView {
    /// Frames between the cursor and the oldest frame kept are gone.
    pub open spec fn gap(self, after: int) -> bool {
        self.first_seq > after + 1
    }

    /// One poll: up to `limit` frames after the cursor that pass the filter.
    pub open spec fn poll(self, after: int, limit: int, filter: FilterSpec) -> Poll {
        Poll {
            frames: at_most(wanted(self.ring, after, filter), limit),
            cursor: next_cursor(self.ring, after, limit, filter),
            gap: self.gap(after),
        }
    }

    /// `history` is everything captured in the session, and the ring is its tail.
    pub open spec fn recalls(self, history: Seq<FrameRecord>) -> bool {
        &&& history.len() == self.next_seq - 1
        &&& forall|i: int|
            #![trigger history[i]]
            0 <= i < history.len() ==> history[i].seq == i + 1
        &&& self.ring == history.skip(self.first_seq - 1)
    }
}

/// Sequence numbers increase.
pub open spec fn increasing(ring: Seq<FrameRecord>) -> bool {
    forall|i: int, j: int|
        #![trigger ring[i], ring[j]]
        0 <= i < j < ring.len() ==> ring[i].seq < ring[j].seq
}

proof fn wanted_step(ring: Seq<FrameRecord>, after: int, filter: FilterSpec)
    requires
        ring.len() > 0,
    ensures
        wanted(ring, after, filter) == (if ring.last().seq > after && filter.accepts(
            ring.last().id,
        ) {
            wanted(ring.drop_last(), after, filter).push(ring.last())
        } else {
            wanted(ring.drop_last(), after, filter)
        }),
{
    reveal(Seq::filter);
}

/// What a poll can return comes from the ring, passes, and lies after the cursor.
proof fn wanted_members(ring: Seq<FrameRecord>, after: int, filter: FilterSpec)
    ensures
        forall|i: int|
            #![trigger wanted(ring, after, filter)[i]]
            0 <= i < wanted(ring, after, filter).len() ==> {
                &&& wanted(ring, after, filter)[i].seq > after
                &&& filter.accepts(wanted(ring, after, filter)[i].id)
                &&& ring.contains(wanted(ring, after, filter)[i])
            },
    decreases ring.len(),
{
    reveal(Seq::filter);
    let all = wanted(ring, after, filter);
    if ring.len() > 0 {
        let init = ring.drop_last();
        wanted_members(init, after, filter);
        wanted_step(ring, after, filter);
        let before = wanted(init, after, filter);
        assert forall|i: int| #![trigger all[i]] 0 <= i < all.len() implies {
            &&& all[i].seq > after
            &&& filter.accepts(all[i].id)
            &&& ring.contains(all[i])
        } by {
            if i < before.len() {
                assert(all[i] == before[i]);
                let j = choose|j: int| 0 <= j < init.len() && init[j] == before[i];
                assert(ring[j] == all[i]);
            } else {
                assert(ring[ring.len() - 1] == all[i]);
            }
        }
    }
}

proof fn wanted_increasing(ring: Seq<FrameRecord>, after: int, filter: FilterSpec)
    requires
        increasing(ring),
    ensures
        increasing(wanted(ring, after, filter)),
    decreases ring.len(),
{
    reveal(Seq::filter);
    if ring.len() > 0 {
        let init = ring.drop_last();
        assert(increasing(init)) by {
            assert forall|i: int, j: int|
                #![trigger init[i], init[j]]
                0 <= i < j < init.len() implies init[i].seq < init[j].seq by {
                assert(init[i] == ring[i] && init[j] == ring[j]);
            }
        }
        wanted_increasing(init, after, filter);
        wanted_step(ring, after, filter);
        wanted_members(init, after, filter);
        let before = wanted(init, after, filter);
        let all = wanted(ring, after, filter);
        assert forall|i: int, j: int|
            #![trigger all[i], all[j]]
            0 <= i < j < all.len() implies all[i].seq < all[j].seq by {
            assert(all[i] == before[i]);
            if j < before.len() {
                assert(all[j] == before[j]);
            } else {
                let k = choose|k: int| 0 <= k < init.len() && init[k] == before[i];
                assert(ring[k] == before[i]);
                assert(all[j] == ring[ring.len() - 1]);
            }
        }
    }
}

proof fn wanted_none(ring: Seq<FrameRecord>, after: int, filter: FilterSpec)
    requires
        forall|i: int| #![trigger ring[i]] 0 <= i < ring.len() ==> ring[i].seq <= after,
    ensures
        wanted(ring, after, filter).len() == 0,
{
    wanted_members(ring, after, filter);
    if wanted(ring, after, filter).len() > 0 {
        let first = wanted(ring, after, filter)[0];
        let j = choose|j: int| 0 <= j < ring.len() && ring[j] == first;
        assert(ring[j].seq <= after);
    }
}

/// Starting again at the `n`-th frame of a poll gives what follows it.
proof fn wanted_resumes(ring: Seq<FrameRecord>, after: int, n: int, filter: FilterSpec)
    requires
        increasing(ring),
        1 <= n <= wanted(ring, after, filter).len(),
    ensures
        wanted(ring, wanted(ring, after, filter)[n - 1].seq, filter) == wanted(
            ring,
            after,
            filter,
        ).skip(n),
    decreases ring.len(),
{
    reveal(Seq::filter);
    let all = wanted(ring, after, filter);
    let cut = all[n - 1].seq;
    let init = ring.drop_last();
    let last = ring.last();
    assert(increasing(init)) by {
        assert forall|i: int, j: int|
            #![trigger init[i], init[j]]
            0 <= i < j < init.len() implies init[i].seq < init[j].seq by {
            assert(init[i] == ring[i] && init[j] == ring[j]);
        }
    }
    wanted_step(ring, after, filter);
    wanted_step(ring, cut, filter);
    wanted_members(ring, after, filter);
    let before = wanted(init, after, filter);
    if n <= before.len() {
        assert(all[n - 1] == before[n - 1]);
        wanted_resumes(init, after, n, filter);
        wanted_members(init, after, filter);
        let k = choose|k: int| 0 <= k < init.len() && init[k] == before[n - 1];
        assert(ring[k] == before[n - 1]);
        assert(last == ring[ring.len() - 1]);
        assert(after < cut < last.seq);
        assert(wanted(ring, cut, filter) =~= all.skip(n));
    } else {
        assert(all[n - 1] == last);
        assert forall|i: int| #![trigger ring[i]] 0 <= i < ring.len() implies ring[i].seq
            <= cut by {
            assert(last == ring[ring.len() - 1]);
        }
        wanted_none(ring, cut, filter);
        assert(wanted(ring, cut, filter) =~= all.skip(n));
    }
}

proof fn ring_increasing(v: AnalyzerView)
    requires
        v.inv(),
    ensures
        increasing(v.ring),
{
}

/// A poll returns at most the limit; every frame it returns was captured after
/// the cursor, passes the filter and is still in the ring; they come in order of
/// capture. The cursor never moves back and is never past the newest frame,
/// unless it already was.
pub proof fn poll_returns_new_frames_in_order(
    v: AnalyzerView,
    after: int,
    limit: int,
    filter: FilterSpec,
)
    requires
        v.inv(),
        0 <= limit,
    ensures
        v.poll(after, limit, filter).frames.len() <= limit,
        increasing(v.poll(after, limit, filter).frames),
        forall|i: int|
            #![trigger v.poll(after, limit, filter).frames[i]]
            0 <= i < v.poll(after, limit, filter).frames.len() ==> {
                let r = v.poll(after, limit, filter).frames[i];
                &&& after < r.seq <= v.poll(after, limit, filter).cursor
                &&& filter.accepts(r.id)
                &&& v.ring.contains(r)
            },
        v.poll(after, limit, filter).cursor >= after,
        after < v.next_seq ==> v.poll(after, limit, filter).cursor < v.next_seq,
{
    ring_increasing(v);
    wanted_members(v.ring, after, filter);
    wanted_increasing(v.ring, after, filter);
    let all = wanted(v.ring, after, filter);
    let p = v.poll(after, limit, filter);
    assert forall|i: int, j: int|
        #![trigger p.frames[i], p.frames[j]]
        0 <= i < j < p.frames.len() implies p.frames[i].seq < p.frames[j].seq by {
        assert(p.frames[i] == all[i] && p.frames[j] == all[j]);
    }
    assert forall|i: int| #![trigger p.frames[i]] 0 <= i < p.frames.len() implies {
        let r = p.frames[i];
        &&& after < r.seq <= p.cursor
        &&& filter.accepts(r.id)
        &&& v.ring.contains(r)
    } by {
        assert(p.frames[i] == all[i]);
        if all.len() >= limit {
            if i < limit - 1 {
                assert(all[i].seq < all[limit - 1].seq);
            }
        } else {
            let k = choose|k: int| 0 <= k < v.ring.len() && v.ring[k] == all[i];
            assert(v.ring[k].seq <= v.ring.last().seq);
        }
    }
    if limit > 0 && all.len() >= limit {
        let k = choose|k: int| 0 <= k < v.ring.len() && v.ring[k] == all[limit - 1];
        assert(v.ring[k].seq < v.next_seq);
    }
}

/// Two polls, the second from the first one's cursor, return together what one
/// poll with the summed limit returns, and end at the same cursor.
pub proof fn polls_resume(
    v: AnalyzerView,
    after: int,
    first: int,
    second: int,
    filter: FilterSpec,
)
    requires
        v.inv(),
        0 <= first,
        0 <= second,
    ensures
        ({
            let p = v.poll(after, first, filter);
            let q = v.poll(p.cursor, second, filter);
            let both = v.poll(after, first + second, filter);
            p.frames + q.frames == both.frames && q.cursor == both.cursor
        }),
{
    ring_increasing(v);
    let p = v.poll(after, first, filter);
    let q = v.poll(p.cursor, second, filter);
    let both = v.poll(after, first + second, filter);
    let all = wanted(v.ring, after, filter);
    let rest = wanted(v.ring, p.cursor, filter);
    wanted_members(v.ring, after, filter);
    wanted_increasing(v.ring, after, filter);
    if first == 0 {
        assert(p.frames =~= seq![]);
    } else if all.len() >= first {
        wanted_resumes(v.ring, after, first, filter);
        assert(rest == all.skip(first));
        assert(p.frames =~= all.take(first));
        let k = choose|k: int| 0 <= k < v.ring.len() && v.ring[k] == all[first - 1];
        assert(v.ring[k].seq <= v.ring.last().seq);
        if second > 0 && rest.len() >= second {
            assert(rest[second - 1] == all[first + second - 1]);
        }
    } else {
        assert forall|i: int| #![trigger v.ring[i]] 0 <= i < v.ring.len() implies v.ring[i].seq
            <= p.cursor by {
            assert(v.ring[i].seq <= v.ring.last().seq);
        }
        wanted_none(v.ring, p.cursor, filter);
        assert(rest =~= seq![]);
    }
    assert(p.frames + q.frames =~= both.frames);
}

/// A poll that returned fewer frames than its limit has seen everything: a poll
/// from its cursor returns nothing until more is captured.
pub proof fn short_poll_is_complete(v: AnalyzerView, after: int, limit: int, filter: FilterSpec)
    requires
        v.inv(),
        v.poll(after, limit, filter).frames.len() < limit,
    ensures
        wanted(v.ring, v.poll(after, limit, filter).cursor, filter).len() == 0,
{
    let cursor = v.poll(after, limit, filter).cursor;
    assert forall|i: int| #![trigger v.ring[i]] 0 <= i < v.ring.len() implies v.ring[i].seq
        <= cursor by {
        assert(v.ring[i].seq <= v.ring.last().seq);
    }
    wanted_none(v.ring, cursor, filter);
}

/// The ring stays the tail of the session's history under every operation.
pub proof fn history_is_kept(v: AnalyzerView, history: Seq<FrameRecord>, c: Capture)
    requires
        v.inv(),
        v.recalls(history),
    ensures
        AnalyzerView::fresh().recalls(seq![]),
        v.push(c).recalls(history.push(c.record(v.next_seq))),
        v.clear().recalls(history),
{
    let w = v.push(c);
    let longer = history.push(c.record(v.next_seq));
    assert(w.ring =~= longer.skip(w.first_seq - 1));
    assert(v.clear().ring =~= history.skip(v.next_seq - 1));
    assert(AnalyzerView::fresh().ring =~= Seq::<FrameRecord>::empty().skip(0));
}

proof fn tail_wanted(history: Seq<FrameRecord>, from: int, after: int, filter: FilterSpec)
    requires
        0 <= from <= history.len(),
        after <= from,
        forall|i: int|
            #![trigger history[i]]
            0 <= i < history.len() ==> history[i].seq == i + 1,
    ensures
        wanted(history.skip(from), after, filter) == history.skip(from).filter(shown(filter)),
{
    let tail = history.skip(from);
    same_filter(tail, after, filter);
}

proof fn same_filter(tail: Seq<FrameRecord>, after: int, filter: FilterSpec)
    requires
        forall|i: int| #![trigger tail[i]] 0 <= i < tail.len() ==> tail[i].seq > after,
    ensures
        wanted(tail, after, filter) == tail.filter(shown(filter)),
    decreases tail.len(),
{
    reveal(Seq::filter);
    if tail.len() > 0 {
        let init = tail.drop_last();
        assert forall|i: int| #![trigger init[i]] 0 <= i < init.len() implies init[i].seq
            > after by {
            assert(init[i] == tail[i]);
        }
        same_filter(init, after, filter);
        wanted_step(tail, after, filter);
        assert(tail.last() == tail[tail.len() - 1]);
    }
}

/// What a poll returns, told by the session's history: all frames that pass,
/// from the cursor (or from the oldest frame kept, where there is a gap) up to
/// the new cursor, and nothing else.
pub proof fn poll_covers_history(
    v: AnalyzerView,
    history: Seq<FrameRecord>,
    after: int,
    limit: int,
    filter: FilterSpec,
)
    requires
        v.inv(),
        v.recalls(history),
        0 <= after < v.next_seq,
        0 <= limit,
    ensures
        ({
            let p = v.poll(after, limit, filter);
            let from = if p.gap {
                v.first_seq - 1
            } else {
                after
            };
            let to = if p.cursor < from {
                from
            } else {
                p.cursor
            };
            p.frames == history.subrange(from, to).filter(shown(filter))
        }),
{
    let p = v.poll(after, limit, filter);
    let from = if p.gap {
        v.first_seq - 1
    } else {
        after
    };
    let to = if p.cursor < from {
        from
    } else {
        p.cursor
    };
    let pred = shown(filter);
    let all = wanted(v.ring, after, filter);
    ring_increasing(v);
    wanted_members(v.ring, after, filter);
    poll_returns_new_frames_in_order(v, after, limit, filter);
    reveal(Seq::filter);
    // Everything that passes after `from`, by the ring and by the history.
    ring_and_history(v, history, after, from, filter);
    if limit == 0 {
        assert(history.subrange(from, to) =~= seq![]);
        assert(p.frames =~= seq![]);
    } else if all.len() >= limit {
        let cut = p.cursor;
        wanted_resumes(v.ring, after, limit, filter);
        let k = choose|k: int| 0 <= k < v.ring.len() && v.ring[k] == all[limit - 1];
        assert(v.ring[k].seq == v.first_seq + k);
        assert(from < cut && to == cut);
        ring_and_history(v, history, cut, cut, filter);
        assert(history.skip(from) =~= history.subrange(from, cut) + history.skip(cut));
        Seq::filter_distributes_over_add(history.subrange(from, cut), history.skip(cut), pred);
        let front = history.subrange(from, cut).filter(pred);
        assert(all == front + all.skip(limit));
        assert(front.len() == limit);
        assert(p.frames =~= front) by {
            assert forall|i: int| 0 <= i < limit implies p.frames[i] == front[i] by {
                assert(all[i] == (front + all.skip(limit))[i]);
            }
        }
    } else {
        if v.ring.len() > 0 && v.ring.last().seq > after {
            assert(v.ring.last().seq == v.next_seq - 1);
            assert(history.subrange(from, to) =~= history.skip(from));
        } else {
            if v.ring.len() > 0 {
                assert(v.ring.last().seq == v.next_seq - 1);
            }
            assert(from == history.len());
            assert(history.subrange(from, to) =~= history.skip(from));
        }
    }
}

proof fn ring_and_history(
    v: AnalyzerView,
    history: Seq<FrameRecord>,
    after: int,
    from: int,
    filter: FilterSpec,
)
    requires
        v.inv(),
        v.recalls(history),
        0 <= after < v.next_seq,
        from == (if v.first_seq > after + 1 {
            v.first_seq - 1
        } else {
            after
        }),
    ensures
        wanted(v.ring, after, filter) == history.skip(from).filter(shown(filter)),
{
    tail_wanted(history, from, after, filter);
    let older = v.ring.take(from - (v.first_seq - 1));
    let newer = history.skip(from);
    assert(v.ring =~= older + newer);
    Seq::filter_distributes_over_add(older, newer, shown_after(filter, after));
    assert forall|i: int| #![trigger older[i]] 0 <= i < older.len() implies older[i].seq
        <= after by {
        assert(older[i] == v.ring[i]);
    }
    wanted_none(older, after, filter);
    assert(wanted(older, after, filter) =~= seq![]);
    assert(seq![] + newer.filter(shown_after(filter, after)) =~= newer.filter(
        shown_after(filter, after),
    ));
}

/// Where a poll reports no gap, every frame captured after the cursor is still in
/// the ring; where it reports one, the frame right after the cursor is not.
pub proof fn gap_is_exact(v: AnalyzerView, history: Seq<FrameRecord>, after: int)
    requires
        v.inv(),
        v.recalls(history),
        0 <= after < v.next_seq,
    ensures
        !v.gap(after) ==> forall|i: int|
            #![trigger history[i]]
            after <= i < history.len() ==> v.ring.contains(history[i]),
        v.gap(after) ==> after < history.len() && !v.ring.contains(history[after]),
{
    if !v.gap(after) {
        assert forall|i: int|
            #![trigger history[i]]
            after <= i < history.len() implies v.ring.contains(history[i]) by {
            assert(v.ring[i - (v.first_seq - 1)] == history[i]);
        }
    } else if v.ring.contains(history[after]) {
        let k = choose|k: int| 0 <= k < v.ring.len() && v.ring[k] == history[after];
        assert(v.ring[k].seq == v.first_seq + k);
        assert(history[after].seq == after + 1);
    }
}

/// Nothing rolls off while the ring has room for what comes in.
pub proof fn room_keeps_the_oldest(v: AnalyzerView, captures: Seq<Capture>)
    requires
        v.inv(),
        forall|i: int| #![trigger captures[i]] 0 <= i < captures.len() ==> captures[i].storable(),
        v.ring.len() + captures.len() <= RING_CAP,
    ensures
        v.push_all(captures).inv(),
        v.push_all(captures).first_seq == v.first_seq,
        v.push_all(captures).ring.len() == v.ring.len() + captures.len(),
    decreases captures.len(),
{
    if captures.len() > 0 {
        let init = captures.drop_last();
        assert forall|i: int|
            #![trigger init[i]]
            0 <= i < init.len() implies init[i].storable() by {
            assert(init[i] == captures[i]);
        }
        room_keeps_the_oldest(v, init);
        assert(captures.last() == captures[captures.len() - 1]);
        super::model::push_inv(v.push_all(init), captures.last());
    }
}

/// After a clear, a caller that adopts the last assigned sequence number as its cursor
/// and asks for at least as many frames as were captured since gets them all, numbered
/// without a hole, and its cursor ends at the newest.
pub proof fn clear_then_poll_returns_all(v: AnalyzerView, captures: Seq<Capture>, limit: int)
    requires
        v.inv(),
        forall|i: int| #![trigger captures[i]] 0 <= i < captures.len() ==> captures[i].storable(),
        captures.len() <= RING_CAP,
        captures.len() <= limit,
        1 <= limit,
    ensures
        ({
            let w = v.clear().push_all(captures);
            let p = w.poll(v.next_seq - 1, limit, FilterSpec::All);
            &&& !p.gap
            &&& p.frames == w.ring
            &&& p.frames.len() == captures.len()
            &&& forall|i: int|
                #![trigger p.frames[i]]
                0 <= i < p.frames.len() ==> p.frames[i].seq == v.next_seq + i
            &&& p.cursor == v.next_seq - 1 + captures.len()
        }),
{
    super::model::clear_inv(v);
    room_keeps_the_oldest(v.clear(), captures);
    let w = v.clear().push_all(captures);
    same_filter(w.ring, v.next_seq - 1, FilterSpec::All);
    keeps_all(w.ring);
}

/// Filtering by nothing keeps everything.
proof fn keeps_all(ring: Seq<FrameRecord>)
    ensures
        ring.filter(shown(FilterSpec::All)) == ring,
    decreases ring.len(),
{
    reveal(Seq::filter);
    if ring.len() > 0 {
        keeps_all(ring.drop_last());
        assert(ring =~= ring.drop_last().push(ring.last()));
    } else {
        assert(ring =~= seq![]);
    }
}

/// A caller that adopts the last assigned sequence number as its cursor when the
/// capture is cleared sees no gap, and gets every frame captured afterwards that
/// passes its filter, as long as the ring has held them all.
pub proof fn clear_leaves_no_gap(v: AnalyzerView, captures: Seq<Capture>, filter: FilterSpec)
    requires
        v.inv(),
        forall|i: int| #![trigger captures[i]] 0 <= i < captures.len() ==> captures[i].storable(),
        captures.len() <= RING_CAP,
    ensures
        ({
            let w = v.clear().push_all(captures);
            let p = w.poll(v.next_seq - 1, captures.len() as int, filter);
            &&& !p.gap
            &&& w.ring.len() == captures.len()
            &&& p.frames == w.ring.filter(shown(filter))
        }),
{
    super::model::clear_inv(v);
    room_keeps_the_oldest(v.clear(), captures);
    let w = v.clear().push_all(captures);
    same_filter(w.ring, v.next_seq - 1, filter);
    w.ring.lemma_filter_len(shown(filter));
}

/// A read gives back what was captured: a caller that had seen everything gets the next
/// frame with its next poll, where it passes the filter, and nothing but that frame; its
/// cursor moves to it, and there is no gap.
pub proof fn next_frame_is_polled(v: AnalyzerView, c: Capture, limit: int, filter: FilterSpec)
    requires
        v.inv(),
        c.storable(),
        limit >= 1,
    ensures
        ({
            let p = v.push(c).poll(v.next_seq - 1, limit, filter);
            &&& p.frames == (if filter.accepts(c.id) {
                seq![c.record(v.next_seq)]
            } else {
                seq![]
            })
            &&& p.cursor == v.next_seq
            &&& !p.gap
        }),
{
    let w = v.push(c);
    super::model::push_inv(v, c);
    let after = v.next_seq - 1;
    let older = w.ring.drop_last();
    assert(w.ring.last() == c.record(v.next_seq));
    assert forall|i: int| #![trigger older[i]] 0 <= i < older.len() implies older[i].seq
        <= after by {
        assert(older[i] == w.ring[i]);
    }
    wanted_none(older, after, filter);
    wanted_step(w.ring, after, filter);
    let none = wanted(older, after, filter);
    assert(none =~= seq![]);
    assert(none.push(c.record(v.next_seq)) =~= seq![c.record(v.next_seq)]);
}

/// The two ends of a poll: a gap is a first frame kept that is not the one after the
/// cursor, and a poll for everything that is not cut short ends at the newest frame.
pub proof fn ends_of_a_poll(v: AnalyzerView, after: int, limit: int, filter: FilterSpec)
    requires
        v.inv(),
        0 <= limit,
    ensures
        v.poll(after, limit, filter).gap <==> v.first_seq > after + 1,
        limit == 0 ==> v.poll(after, limit, filter).frames.len() == 0 && v.poll(
            after,
            limit,
            filter,
        ).cursor == after,
        v.poll(after, limit, filter).frames.len() < limit && after < v.next_seq - 1 && v.ring.len()
            > 0 ==> v.poll(after, limit, filter).cursor == v.next_seq - 1,
        v.poll(after, limit, filter).frames.len() == limit && limit > 0 ==> v.poll(
            after,
            limit,
            filter,
        ).cursor == v.poll(after, limit, filter).frames.last().seq,
{
    if v.ring.len() > 0 {
        assert(v.ring.last() == v.ring[v.ring.len() - 1]);
    }
}

/// A poll returns a frame of the ring exactly where that frame comes after the cursor,
/// not after the new one, and passes the filter.
pub proof fn poll_selects_exactly(
    v: AnalyzerView,
    after: int,
    limit: int,
    filter: FilterSpec,
    i: int,
)
    requires
        v.inv(),
        0 <= limit,
        0 <= i < v.ring.len(),
    ensures
        ({
            let p = v.poll(after, limit, filter);
            p.frames.contains(v.ring[i]) <==> after < v.ring[i].seq <= p.cursor && filter.accepts(
                v.ring[i].id,
            )
        }),
{
    let p = v.poll(after, limit, filter);
    let all = wanted(v.ring, after, filter);
    let r = v.ring[i];
    poll_returns_new_frames_in_order(v, after, limit, filter);
    ring_increasing(v);
    wanted_increasing(v.ring, after, filter);
    if after < r.seq && r.seq <= p.cursor && filter.accepts(r.id) {
        wanted_holds(v.ring, after, filter, i);
        let k = choose|k: int| 0 <= k < all.len() && all[k] == r;
        if all.len() > limit && k >= limit {
            assert(all[limit - 1].seq < all[k].seq);
        }
        assert(p.frames[k] == r);
    }
}

/// What comes after the cursor and passes is among what a poll can return.
proof fn wanted_holds(ring: Seq<FrameRecord>, after: int, filter: FilterSpec, i: int)
    requires
        0 <= i < ring.len(),
        ring[i].seq > after,
        filter.accepts(ring[i].id),
    ensures
        wanted(ring, after, filter).contains(ring[i]),
    decreases ring.len(),
{
    let init = ring.drop_last();
    let all = wanted(ring, after, filter);
    let before = wanted(init, after, filter);
    wanted_step(ring, after, filter);
    if i == ring.len() - 1 {
        assert(all[all.len() - 1] == ring[i]);
    } else {
        assert(init[i] == ring[i]);
        wanted_holds(init, after, filter, i);
        let k = choose|k: int| 0 <= k < before.len() && before[k] == ring[i];
        assert(all[k] == ring[i]);
    }
}

} // verus!
