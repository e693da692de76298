//! What the analyzer is for, told by frames and rows alone: what is captured is what is
//! shown.

use vstd::prelude::*;

use super::model::{counted, signed, AnalyzerView};
use super::poll::{next_frame_is_polled, Poll};
use super::record::{
    fits_row, kind_text, AggEntry, AggRowDto, AggStats, Capture, Dir, FrameRecord, Sample,
    TraceFrameDto, TraceRecord,
};
use super::session::{
    batch, capture_of, recordable, tabulates, AnalyzerStatusDto, RxEvent, SendError, SendSpec,
    SessionView, TraceReplyDto,
};
use crate::can::{CanError, CanFrame, CanId, FrameKind};
use crate::filter::FilterSpec;
use crate::text::{hex_text, hex_text_tells_payloads_apart, upper_text};

verus! {

/// The ring keeps a frame as it was captured: number, time, identifier, kind, declared
/// length and direction, the payload byte for byte, and zeros behind it.
pub proof fn record_keeps_the_frame(c: Capture, seq: int)
    requires
        c.sample.len <= 64 || c.sample.data.len() <= 64,
    ensures
        ({
            let r = c.record(seq);
            &&& r.seq == seq
            &&& r.t_us == c.sample.t_us
            &&& r.id == c.id
            &&& r.kind == c.sample.kind
            &&& r.len == c.sample.len
            &&& r.dir == c.dir
            &&& r.data.len() == 64
            &&& forall|i: int|
                #![trigger r.data[i]]
                0 <= i < c.sample.len && i < c.sample.data.len() ==> r.data[i] == c.sample.data[i]
            &&& forall|i: int|
                #![trigger r.data[i]]
                0 <= i < 64 && (i >= c.sample.len || i >= c.sample.data.len()) ==> r.data[i] == 0
        }),
{
}

/// The trace row of a frame shows that frame: its number, time, identifier, kind, length
/// and direction, and the hex text of its own payload; a remote frame shows no bytes.
pub proof fn row_shows_the_frame(c: Capture, seq: int)
    requires
        c.sample.kind is Remote || c.sample.len == c.sample.data.len(),
        c.sample.kind is Remote || c.sample.data.len() <= 64,
    ensures
        ({
            let row = c.record(seq).row();
            &&& row.seq == seq
            &&& row.t_us == c.sample.t_us
            &&& row.id == c.id
            &&& row.dlc == c.sample.len
            &&& row.kind == (match c.sample.kind {
                FrameKind::Data => "data"@,
                FrameKind::Fd { brs } => if brs {
                    "fd_brs"@
                } else {
                    "fd"@
                },
                FrameKind::Remote => "remote"@,
            })
            &&& row.dir == (if c.dir == Dir::Tx {
                "tx"@
            } else {
                "rx"@
            })
            &&& row.data == (if c.sample.kind is Remote {
                seq![]
            } else {
                hex_text(c.sample.data)
            })
        }),
{
    if !(c.sample.kind is Remote) {
        record_keeps_the_frame(c, seq);
        let kept = c.record(seq).data.take(c.sample.len as int);
        assert(kept =~= c.sample.data);
    }
}

/// Frames with different payloads show different rows.
pub proof fn rows_tell_payloads_apart(a: Capture, b: Capture, seq: int)
    requires
        !(a.sample.kind is Remote),
        !(b.sample.kind is Remote),
        a.sample.len == a.sample.data.len() <= 64,
        b.sample.len == b.sample.data.len() <= 64,
        a.record(seq).row().data == b.record(seq).row().data,
    ensures
        a.sample.data == b.sample.data,
{
    row_shows_the_frame(a, seq);
    row_shows_the_frame(b, seq);
    hex_text_tells_payloads_apart(a.sample.data, b.sample.data);
}

/// A frame fits a row exactly where it is remote or declares at most 64 bytes.
pub proof fn rows_hold_64_bytes(kind: FrameKind, len: u8, c: Capture)
    ensures
        fits_row(kind, len) <==> kind == FrameKind::Remote || len <= 64,
        c.storable() <==> c.sample.len <= 64 || c.sample.data.len() <= 64,
        c.showable() <==> c.sample.kind == FrameKind::Remote || c.sample.len <= 64,
{
}

/// The statistics of an identifier tell its first frame, its last, and their number: one
/// more frame adds one, keeps the time of the first, and shows itself as the last, with
/// its own payload.
pub proof fn statistics_tell_first_and_last(e: AggStats, c: Sample, id: CanId, now_us: int)
    requires
        e.sound(),
        c.kind is Remote || c.len == c.data.len(),
        c.kind is Remote || c.data.len() <= 64,
    ensures
        ({
            let first = AggStats::first(c).row(id, now_us);
            let later = e.next(c).row(id, now_us);
            let text = if c.kind is Remote {
                seq![]
            } else {
                hex_text(c.data)
            };
            &&& first.id == id && later.id == id
            &&& first.count == 1 && later.count == e.count + 1
            &&& first.first_us == c.t_us && later.first_us == e.first_us
            &&& first.last_us == c.t_us && later.last_us == c.t_us
            &&& first.last_dlc == c.len && later.last_dlc == c.len
            &&& first.last_kind == kind_text(c.kind) && later.last_kind == kind_text(c.kind)
            &&& first.last_data == text && later.last_data == text
            &&& first.rate_hz is None
            &&& AggStats::first(c).win_start_us == c.t_us && AggStats::first(c).win_count == 0
        }),
{
    if !(c.kind is Remote) {
        assert(AggStats::first(c).last_data.take(c.len as int) =~= c.data);
        assert(e.next(c).last_data.take(c.len as int) =~= c.data);
    }
}

/// Frames only ever add up, and the last one's time is the last time.
pub proof fn frames_add_up(e: AggStats, samples: Seq<Sample>)
    ensures
        e.run(samples).count == e.count + samples.len(),
        e.run(samples).first_us == e.first_us,
        samples.len() > 0 ==> e.run(samples).last_us == samples.last().t_us,
        samples.len() == 0 ==> e.run(samples) == e,
    decreases samples.len(),
{
    if samples.len() > 0 {
        frames_add_up(e, samples.drop_last());
    }
}

/// While no frame comes two seconds after the window opened, the rate stays, and so does
/// the window.
proof fn rate_stays(e: AggStats, samples: Seq<Sample>)
    requires
        forall|i: int|
            #![trigger samples[i]]
            0 <= i < samples.len() ==> samples[i].t_us - e.win_start_us < 2_000_000,
    ensures
        e.run(samples).rate == e.rate,
        e.run(samples).win_start_us == e.win_start_us,
        e.run(samples).win_count == e.win_count + samples.len(),
    decreases samples.len(),
{
    if samples.len() > 0 {
        let init = samples.drop_last();
        assert forall|i: int| #![trigger init[i]] 0 <= i < init.len() implies init[i].t_us
            - e.win_start_us < 2_000_000 by {
            assert(init[i] == samples[i]);
        }
        rate_stays(e, init);
        assert(samples.last() == samples[samples.len() - 1]);
    }
}

/// The rate shown is that of the last window that closed. A window opens at some time with
/// nothing counted; its frames all come within two seconds of that but for the last, which
/// closes it; the frames since come within two seconds of that one. Then, until five
/// seconds after the latest frame, the row shows the number of the window's frames over
/// the time from its opening to its close, whatever was before; and afterwards no rate.
pub proof fn rate_shown_is_of_the_last_closed_window(
    opened: AggStats,
    window: Seq<Sample>,
    since: Seq<Sample>,
    id: CanId,
    now_us: int,
)
    requires
        opened.win_count == 0,
        window.len() > 0,
        forall|i: int|
            #![trigger window[i]]
            0 <= i < window.len() - 1 ==> window[i].t_us - opened.win_start_us < 2_000_000,
        window.last().t_us - opened.win_start_us >= 2_000_000,
        forall|i: int|
            #![trigger since[i]]
            0 <= i < since.len() ==> since[i].t_us - window.last().t_us < 2_000_000,
    ensures
        ({
            let shown = opened.run(window).run(since).row(id, now_us).rate_hz;
            let latest = if since.len() > 0 {
                since.last().t_us
            } else {
                window.last().t_us
            };
            &&& now_us - latest <= 5_000_000 ==> shown == Some(
                (window.len() as int, window.last().t_us - opened.win_start_us),
            )
            &&& now_us - latest > 5_000_000 ==> shown is None
        }),
        opened.run(window).win_start_us == window.last().t_us,
        opened.run(window).win_count == 0,
{
    let init = window.drop_last();
    assert forall|i: int| #![trigger init[i]] 0 <= i < init.len() implies init[i].t_us
        - opened.win_start_us < 2_000_000 by {
        assert(init[i] == window[i]);
    }
    rate_stays(opened, init);
    let closed = opened.run(window);
    assert(closed == opened.run(init).next(window.last()));
    rate_stays(closed, since);
    frames_add_up(opened, window);
    frames_add_up(closed, since);
}

/// A capture goes to the end of the ring under the next number. The ring keeps what it
/// had, but for the oldest frame where it held 8192. One more frame is counted in total.
pub proof fn capture_goes_to_the_end(v: AnalyzerView, c: Capture)
    requires
        v.inv(),
    ensures
        ({
            let w = v.push(c);
            &&& w.next_seq == v.next_seq + 1
            &&& w.total == v.total + 1
            &&& w.hw_offset == v.hw_offset
            &&& w.ring.last() == c.record(v.next_seq)
            &&& v.ring.len() < 8192 ==> w.ring == v.ring.push(c.record(v.next_seq)) && w.first_seq
                == v.first_seq
            &&& v.ring.len() == 8192 ==> w.ring == v.ring.skip(1).push(c.record(v.next_seq))
                && w.first_seq == v.first_seq + 1
        }),
{
    let w = v.push(c);
    if v.ring.len() == 8192 {
        assert(v.ring.drop_first() =~= v.ring.skip(1));
    }
}

/// A capture updates the statistics of its identifier with its own frame, as the first of
/// it or one more; a new identifier gets statistics while fewer than 4096 have them.
pub proof fn capture_updates_its_statistics(v: AnalyzerView, c: Capture)
    ensures
        v.agg.contains_key(c.id) ==> v.push(c).agg == v.agg.insert(
            c.id,
            v.agg[c.id].next(c.sample),
        ),
        !v.agg.contains_key(c.id) && v.agg.dom().len() < 4096 ==> v.push(c).agg == v.agg.insert(
            c.id,
            AggStats::first(c.sample),
        ),
        !v.agg.contains_key(c.id) && v.agg.dom().len() >= 4096 ==> v.push(c).agg == v.agg
            && v.push(c).refused == v.refused.insert(c.id),
        v.agg.contains_key(c.id) || v.agg.dom().len() < 4096 ==> v.push(c).refused == v.refused,
        v.agg_overflow() == v.refused.len(),
{
}

/// Clearing forgets frames, statistics and counts; numbers and the clock offset go on.
pub proof fn clearing(v: AnalyzerView)
    ensures
        v.clear().ring.len() == 0,
        v.clear().agg == Map::<CanId, AggStats>::empty(),
        v.clear().refused == Set::<CanId>::empty(),
        v.clear().total == 0,
        v.clear().next_seq == v.next_seq,
        v.clear().first_seq == v.next_seq,
        v.clear().hw_offset == v.hw_offset,
        counted(v.clear().agg) == 0,
{
}

/// Where a frame stands on the time axis. A frame without a device stamp stands at its
/// host time. With an offset fixed, a stamped frame stands at its stamp less the offset, or
/// at zero. The first stamp fixes the offset as its distance from the host clock, and
/// nothing else of the state changes.
pub proof fn times_shown(v: AnalyzerView, host_us: u64, hw_us: u64)
    ensures
        v.display(host_us, None) == host_us,
        v.after_display(host_us, None) == v,
        v.hw_offset matches Some(o) ==> {
            let rebased = signed(hw_us) - o;
            &&& rebased >= 0 ==> v.display(host_us, Some(hw_us)) == rebased
            &&& rebased < 0 ==> v.display(host_us, Some(hw_us)) == 0
            &&& v.after_display(host_us, Some(hw_us)) == v
        },
        v.hw_offset is None ==> v.after_display(host_us, Some(hw_us)) == (AnalyzerView {
            hw_offset: Some(signed(hw_us) - signed(host_us)),
            ..v
        }),
        v.clock_ok(host_us, None),
        v.clock_ok(host_us, Some(hw_us)) <==> ({
            let offset = match v.hw_offset {
                Some(o) => o,
                None => signed(hw_us) - signed(host_us),
            };
            &&& i64::MIN <= offset <= i64::MAX
            &&& i64::MIN <= signed(hw_us) - offset <= i64::MAX
        }),
        hw_us < 0x8000_0000_0000_0000 ==> signed(hw_us) == hw_us,
        hw_us >= 0x8000_0000_0000_0000 ==> signed(hw_us) == hw_us - 0x1_0000_0000_0000_0000,
{
}

/// A capture takes a frame as it is: its identifier, kind and payload, the length that
/// goes with it, and the direction; a remote frame has the length it asks for and no bytes.
pub proof fn capture_takes_the_frame(frame: CanFrame, t_us: int, dir: Dir)
    requires
        frame.kind is Remote || frame.data@.len() <= 64,
    ensures
        ({
            let c = capture_of(frame, t_us, dir);
            &&& recordable(frame)
            &&& c.id == frame.id && c.dir == dir
            &&& c.sample.kind == frame.kind && c.sample.t_us == t_us
            &&& !(frame.kind is Remote) ==> c.sample.data == frame.data@ && c.sample.len
                == frame.data@.len()
            &&& frame.kind is Remote ==> c.sample.data.len() == 0 && c.sample.len == frame.dlc
        }),
{
}

/// Received frames come back as they were: a caller that had seen everything and polls for
/// everything gets one row, which shows the frame as received, with its own payload, at its
/// time on the axis.
pub proof fn received_frame_is_shown(
    s: SessionView,
    frame: CanFrame,
    timestamp_us: Option<u64>,
    host_us: u64,
    limit: int,
)
    requires
        s.state.inv(),
        frame.kind is Remote || frame.data@.len() <= 64,
        limit >= 1,
    ensures
        ({
            let after = s.received(frame, timestamp_us, host_us);
            let p = after.state.poll(s.state.next_seq - 1, limit, FilterSpec::All);
            let row = p.frames[0].row();
            &&& p.frames.len() == 1
            &&& row.seq == s.state.next_seq
            &&& row.id == frame.id
            &&& row.dir == "rx"@
            &&& row.t_us == s.state.display(host_us, timestamp_us)
            &&& !(frame.kind is Remote) ==> row.data == hex_text(frame.data@) && row.dlc
                == frame.data@.len()
            &&& frame.kind is Remote ==> row.data.len() == 0 && row.dlc == frame.dlc
            &&& p.cursor == s.state.next_seq && !p.gap
            &&& after.our_dropped == s.our_dropped && after.fd == s.fd && after.max_dlen
                == s.max_dlen && after.hw_ts == s.hw_ts
            &&& after.state.hw_offset == s.state.after_display(host_us, timestamp_us).hw_offset
        }),
{
    let t_us = s.state.display(host_us, timestamp_us);
    let v = s.state.after_display(host_us, timestamp_us);
    let c = capture_of(frame, t_us, Dir::Rx);
    assert(v.inv());
    next_frame_is_polled(v, c, limit, FilterSpec::All);
    row_shows_the_frame(c, v.next_seq);
}

/// Sent frames come back the same way, as sent and on the host clock.
pub proof fn sent_frame_is_shown(s: SessionView, frame: CanFrame, host_us: u64, limit: int)
    requires
        s.state.inv(),
        frame.kind is Remote || frame.data@.len() <= 64,
        limit >= 1,
    ensures
        ({
            let after = s.sent(frame, host_us);
            let p = after.state.poll(s.state.next_seq - 1, limit, FilterSpec::All);
            let row = p.frames[0].row();
            &&& p.frames.len() == 1
            &&& row.seq == s.state.next_seq
            &&& row.id == frame.id
            &&& row.dir == "tx"@
            &&& row.t_us == host_us
            &&& !(frame.kind is Remote) ==> row.data == hex_text(frame.data@) && row.dlc
                == frame.data@.len()
            &&& frame.kind is Remote ==> row.data.len() == 0 && row.dlc == frame.dlc
            &&& p.cursor == s.state.next_seq && !p.gap
            &&& after.our_dropped == s.our_dropped && after.fd == s.fd && after.max_dlen
                == s.max_dlen && after.hw_ts == s.hw_ts
            &&& after.state.hw_offset == s.state.hw_offset
        }),
{
    let c = capture_of(frame, host_us as int, Dir::Tx);
    next_frame_is_polled(s.state, c, limit, FilterSpec::All);
    row_shows_the_frame(c, s.state.next_seq);
}

/// Lost frames are added up and change nothing else; a lost bus and other errors change
/// nothing; clearing a session starts the count of lost frames over and keeps what is known
/// of the bus.
pub proof fn other_events(s: SessionView, dropped: u64, host_us: u64)
    requires
        0 <= s.our_dropped,
    ensures
        s.heard(RxEvent::Disconnected, host_us) == s,
        s.heard(RxEvent::Failed, host_us) == s,
        ({
            let after = s.heard(RxEvent::Lagged { dropped }, host_us);
            &&& after.state == s.state && after.fd == s.fd && after.max_dlen == s.max_dlen
                && after.hw_ts == s.hw_ts
            &&& s.our_dropped + dropped <= u64::MAX ==> after.our_dropped == s.our_dropped
                + dropped
            &&& s.our_dropped <= u64::MAX && s.our_dropped + dropped > u64::MAX
                ==> after.our_dropped == s.our_dropped + dropped - 0x1_0000_0000_0000_0000
        }),
        s.cleared().our_dropped == 0,
        s.cleared().state == s.state.clear(),
        s.cleared().fd == s.fd && s.cleared().max_dlen == s.max_dlen && s.cleared().hw_ts
            == s.hw_ts,
{
}

/// A frame that arrives is a frame received.
pub proof fn arriving_frames_are_received(
    s: SessionView,
    frame: CanFrame,
    timestamp_us: Option<u64>,
    host_us: u64,
)
    ensures
        s.heard(RxEvent::Frame { frame, timestamp_us }, host_us) == s.received(
            frame,
            timestamp_us,
            host_us,
        ),
        s.can_record(frame, timestamp_us, host_us) ==> recordable(frame) && s.state.next_seq
            < u64::MAX,
        timestamp_us is None && recordable(frame) && s.state.next_seq < u64::MAX ==> s.can_record(
            frame,
            timestamp_us,
            host_us,
        ),
{
}

/// A status tells the session: its counts, its sizes and what the bus can do.
pub proof fn status_tells_the_session(s: SessionView, status: AnalyzerStatusDto)
    requires
        s.reports(status),
    ensures
        status.capturing,
        status.total == s.state.total,
        status.our_dropped == s.our_dropped,
        status.distinct_ids == s.state.agg.dom().len(),
        status.agg_overflow == s.state.refused.len(),
        status.ring_len == s.state.ring.len(),
        status.next_seq == s.state.next_seq,
        status.fd == s.fd,
        s.max_dlen <= u32::MAX ==> status.max_dlen == s.max_dlen,
        status.hw_ts == s.hw_ts,
{
}

/// A row on the wire says what the row says.
pub proof fn wire_rows_are_the_rows(f: TraceFrameDto, r: FrameRecord)
    requires
        f.shows(r.row()),
    ensures
        f.seq == r.seq,
        f.t_us == r.t_us,
        f.dlc == r.len,
        match r.id {
            CanId::Standard(raw) => f.id == raw && !f.extended,
            CanId::Extended(raw) => f.id == raw && f.extended,
        },
        f.kind@ == (match r.kind {
            FrameKind::Data => "data"@,
            FrameKind::Fd { brs } => if brs {
                "fd_brs"@
            } else {
                "fd"@
            },
            FrameKind::Remote => "remote"@,
        }),
        f.dir@ == (if r.dir == Dir::Tx {
            "tx"@
        } else {
            "rx"@
        }),
        r.kind is Remote ==> f.data@.len() == 0,
        !(r.kind is Remote) ==> f.data@ == hex_text(r.data.take(r.len as int)),
{
}

/// A reply holds the polled frames, in order, and the poll's cursor and gap.
pub proof fn reply_is_the_poll(r: TraceReplyDto, p: Poll, i: int)
    requires
        r.answers(p),
    ensures
        r.frames@.len() == p.frames.len(),
        0 <= i < p.frames.len() ==> r.frames@[i].seq == p.frames[i].seq && r.frames@[i].shows(
            p.frames[i].row(),
        ),
        r.next_seq == p.cursor,
        r.gap == p.gap,
{
}

/// No poll is for more than 5000 frames, and each up to that is for as many as asked.
pub proof fn batches(max: u32)
    ensures
        max <= 5000 ==> batch(max) == max,
        max > 5000 ==> batch(max) == 5000,
{
}

/// The table has one row for each tracked identifier that passes, with that identifier's
/// own numbers, and no other row.
pub proof fn table_rows_are_the_statistics(
    rows: Seq<AggRowDto>,
    agg: Map<CanId, AggStats>,
    filter: FilterSpec,
    now_us: int,
    id: CanId,
)
    requires
        tabulates(rows, agg, filter, now_us),
    ensures
        (agg.contains_key(id) && filter.accepts(id)) <==> exists|i: int|
            0 <= i < rows.len() && is_row_of(#[trigger] rows[i], id),
        forall|i: int, j: int|
            #![trigger rows[i], rows[j]]
            0 <= i < rows.len() && 0 <= j < rows.len() && is_row_of(rows[i], id) && is_row_of(
                rows[j],
                id,
            ) ==> i == j,
        forall|i: int|
            #![trigger rows[i]]
            0 <= i < rows.len() && is_row_of(rows[i], id) ==> {
                &&& rows[i].count == agg[id].count
                &&& rows[i].first_us == agg[id].first_us
                &&& rows[i].last_us == agg[id].last_us
                &&& rows[i].last_dlc == agg[id].last_len
                &&& rows[i].last_kind@ == kind_text(agg[id].last_kind)
                &&& agg[id].last_kind is Remote ==> rows[i].last_data@.len() == 0
                &&& !(agg[id].last_kind is Remote) ==> rows[i].last_data@ == hex_text(
                    agg[id].last_data.take(agg[id].last_len as int),
                )
                &&& now_us - agg[id].last_us > 5_000_000 ==> rows[i].rate_hz is None
                &&& now_us - agg[id].last_us <= 5_000_000 ==> match rows[i].rate_hz {
                    Some(r) => agg[id].rate == Some((r.frames as int, r.span_us as int)),
                    None => agg[id].rate is None,
                }
            },
{
    assert forall|i: int| #![trigger rows[i]] 0 <= i < rows.len() implies (is_row_of(rows[i], id)
        <==> rows[i].can_id() == id) by {
        assert(rows[i].shows(agg[rows[i].can_id()].row(rows[i].can_id(), now_us)));
    }
}

/// The row is about this identifier: its number and its width.
pub open spec fn is_row_of(row: AggRowDto, id: CanId) -> bool {
    match id {
        CanId::Standard(raw) => !row.extended && row.id == raw,
        CanId::Extended(raw) => row.extended && row.id == raw,
    }
}

/// What a request to send stands for: an identifier of its number and width, good within
/// that width; a remote request asks for at most eight bytes.
pub proof fn requests_to_send(s: SendSpec)
    ensures
        s.extended ==> (s.id_ok() <==> s.id < 0x2000_0000),
        !s.extended ==> (s.id_ok() <==> s.id < 0x800),
        s.id_ok() ==> (match s.can_id() {
            CanId::Standard(raw) => !s.extended && raw == s.id,
            CanId::Extended(raw) => s.extended && raw == s.id,
        }),
        s.dlc <= 8 ==> s.remote_dlc() == s.dlc,
        s.dlc > 8 ==> s.remote_dlc() == 8,
{
}

/// A refused request names its reason.
pub proof fn refusals_are_named(id: u32, e: CanError)
    ensures
        (SendError::StandardIdTooLarge { id }).message_text() == "standard id 0x"@ + upper_text(
            id as nat,
        ) + " exceeds 0x7FF"@,
        SendError::BadExtendedId(e).message_text() == "bad extended id: "@ + e.message_text(),
        SendError::BadStandardId(e).message_text() == "bad standard id: "@ + e.message_text(),
        SendError::Remote(e).message_text() == "build RTR frame: "@ + e.message_text(),
        SendError::Fd(e).message_text() == "build FD frame: "@ + e.message_text(),
        SendError::Data(e).message_text() == "build data frame: "@ + e.message_text(),
{
}

/// A session starts empty, with number 1 for its first frame and no clock offset.
pub proof fn sessions_start_empty()
    ensures
        ({
            let v = AnalyzerView::fresh();
            &&& v.ring.len() == 0 && v.first_seq == 1 && v.next_seq == 1
            &&& v.agg == Map::<CanId, AggStats>::empty()
            &&& v.refused == Set::<CanId>::empty()
            &&& v.total == 0 && v.hw_offset is None
        }),
{
}

/// The views of a record and of statistics hold what these hold; a rate is its frames over
/// its microseconds.
pub proof fn views_are_the_values(r: TraceRecord, e: AggEntry)
    ensures
        r@.seq == r.seq && r@.t_us == r.t_us && r@.id == r.id && r@.kind == r.kind,
        r@.len == r.len && r@.dir == r.dir && r@.data == r.data@,
        e@.count == e.count && e@.first_us == e.first_us && e@.last_us == e.last_us,
        e@.last_len == e.last_len && e@.last_kind == e.last_kind && e@.last_data == e.last_data@,
        e@.win_start_us == e.win_start_us && e@.win_count == e.win_count,
        e@.rate is Some <==> e.rate is Some,
        e.rate matches Some(q) ==> e@.rate == Some((q.frames as int, q.span_us as int)),
{
}

} // verus!
