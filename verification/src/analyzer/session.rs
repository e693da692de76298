//! The analyzer session: capture, queries and manual sending, apart from the bus
//! it listens on.

use vstd::prelude::*;

use super::model::{push_showable, AnalyzerView, MAX_BATCH};
use super::poll::{poll_returns_new_frames_in_order, Poll};
use super::record::{
    agg_dto, trace_dto, AggEntry, AggRowDto, AggStats, Capture, Dir, Sample, TraceFrameDto,
    TraceRecord,
};
use super::state::{copies, lists, AnalyzerState};
use crate::can::{
    data_frame, extended_id, fd_frame, mask_passes, pass_all_extended, pass_all_standard,
    remote_frame, standard_id, CanError, CanFilter, CanFrame, CanId, FrameKind, CLASSIC_MAX_DLEN,
    EXTENDED_MAX, MAX_DLEN, STANDARD_MAX,
};
use crate::filter::FilterSpec;
use crate::text::{push_upper, upper_text};

verus! {

/// Health and size of a session.
#[derive(Debug, Clone, Copy, PartialEq, Eq, Structural)]
pub struct AnalyzerStatusDto {
    pub capturing: bool,
    pub total: u64,
    pub our_dropped: u64,
    pub distinct_ids: u32,
    /// Distinct identifiers that could not be tracked.
    pub agg_overflow: u64,
    pub ring_len: u32,
    pub next_seq: u64,
    /// The bus supports CAN-FD.
    pub fd: bool,
    pub max_dlen: u32,
    /// Trace times come from the device's hardware clock.
    pub hw_ts: bool,
}

impl AnalyzerStatusDto {
    /// No session: every count zero, every flag off.
    pub open spec fn nothing() -> Self {
        AnalyzerStatusDto {
            capturing: false,
            total: 0,
            our_dropped: 0,
            distinct_ids: 0,
            agg_overflow: 0,
            ring_len: 0,
            next_seq: 0,
            fd: false,
            max_dlen: 0,
            hw_ts: false,
        }
    }

    /// The snapshot returned when no session is running.
    pub fn idle() -> (r: Self)
        ensures
            r == AnalyzerStatusDto::nothing(),
    {
        AnalyzerStatusDto {
            capturing: false,
            total: 0,
            our_dropped: 0,
            distinct_ids: 0,
            agg_overflow: 0,
            ring_len: 0,
            next_seq: 0,
            fd: false,
            max_dlen: 0,
            hw_ts: false,
        }
    }
}

/// Answer to one poll of the trace.
#[derive(Debug, Clone)]
pub struct TraceReplyDto {
    pub frames: Vec<TraceFrameDto>,
    /// Cursor to pass as `after_seq` on the next poll.
    pub next_seq: u64,
    /// `true` when frames between the caller's cursor and our oldest were evicted.
    pub gap: bool,
    pub status: AnalyzerStatusDto,
}

impl TraceReplyDto {
    /// The reply says exactly what `poll` says.
    pub open spec fn answers(self, poll: Poll) -> bool {
        &&& self.frames@.len() == poll.frames.len()
        &&& forall|i: int|
            #![trigger self.frames@[i]]
            0 <= i < self.frames@.len() ==> self.frames@[i].shows(poll.frames[i].row())
        &&& self.next_seq == poll.cursor
        &&& self.gap == poll.gap
    }

    /// The reply when no session is running.
    pub fn idle() -> (r: Self)
        ensures
            r.frames@.len() == 0,
            r.next_seq == 0,
            !r.gap,
            r.status == AnalyzerStatusDto::nothing(),
    {
        TraceReplyDto {
            frames: Vec::new(),
            next_seq: 0,
            gap: false,
            status: AnalyzerStatusDto::idle(),
        }
    }
}

/// Answer to one poll of the per-identifier table.
#[derive(Debug, Clone)]
pub struct AggReplyDto {
    pub rows: Vec<AggRowDto>,
    pub status: AnalyzerStatusDto,
}

impl AggReplyDto {
    /// The reply when no session is running.
    pub fn idle() -> (r: Self)
        ensures
            r.rows@.len() == 0,
            r.status == AnalyzerStatusDto::nothing(),
    {
        AggReplyDto { rows: Vec::new(), status: AnalyzerStatusDto::idle() }
    }
}

/// A frame the user asked to transmit.
#[derive(Debug, Clone)]
pub struct SendSpec {
    pub id: u32,
    pub extended: bool,
    pub fd: bool,
    pub brs: bool,
    pub rtr: bool,
    /// Requested length of a remote frame (ignored for data frames).
    pub dlc: u8,
    pub data: Vec<u8>,
}

/// Why a frame could not be built.
#[derive(Debug, Clone, Copy, PartialEq, Eq, Structural)]
pub enum SendError {
    BadExtendedId(CanError),
    StandardIdTooLarge { id: u32 },
    BadStandardId(CanError),
    Remote(CanError),
    Fd(CanError),
    Data(CanError),
}

impl SendError {
    /// The message's characters.
    pub open spec fn message_text(self) -> Seq<char> {
        match self {
            SendError::BadExtendedId(e) => "bad extended id: "@ + e.message_text(),
            SendError::StandardIdTooLarge { id } => "standard id 0x"@ + upper_text(id as nat)
                + " exceeds 0x7FF"@,
            SendError::BadStandardId(e) => "bad standard id: "@ + e.message_text(),
            SendError::Remote(e) => "build RTR frame: "@ + e.message_text(),
            SendError::Fd(e) => "build FD frame: "@ + e.message_text(),
            SendError::Data(e) => "build data frame: "@ + e.message_text(),
        }
    }

    /// The message shown to the user.
    pub fn message(&self) -> (s: String)
        ensures
            s@ == self.message_text(),
    {
        match *self {
            SendError::StandardIdTooLarge { id } => {
                let mut s: String = "standard id 0x".to_string();
                push_upper(&mut s, id);
                s.append(" exceeds 0x7FF");
                s
            },
            SendError::BadExtendedId(e) => prefixed("bad extended id: ", &e),
            SendError::BadStandardId(e) => prefixed("bad standard id: ", &e),
            SendError::Remote(e) => prefixed("build RTR frame: ", &e),
            SendError::Fd(e) => prefixed("build FD frame: ", &e),
            SendError::Data(e) => prefixed("build data frame: ", &e),
        }
    }
}

fn prefixed(what: &str, e: &CanError) -> (s: String)
    ensures
        s@ == what@ + e.message_text(),
{
    let mut s: String = what.to_string();
    let cause: String = e.message();
    s.append(cause.as_str());
    s
}

impl SendSpec {
    /// The number fits the chosen width.
    pub open spec fn id_ok(self) -> bool {
        if self.extended {
            self.id <= EXTENDED_MAX
        } else {
            self.id <= STANDARD_MAX
        }
    }

    /// The identifier asked for.
    pub open spec fn can_id(self) -> CanId {
        if self.extended {
            CanId::Extended(self.id)
        } else {
            CanId::Standard(self.id as u16)
        }
    }

    /// Requested remote length, capped at what a classic frame carries.
    pub open spec fn remote_dlc(self) -> u8 {
        if self.dlc < 8 {
            self.dlc
        } else {
            8
        }
    }
}

/// What a receive subscription delivered.
pub enum RxEvent {
    /// A frame, with its device clock reading where the bus stamps frames.
    Frame { frame: CanFrame, timestamp_us: Option<u64> },
    /// Our queue overflowed and this many frames were lost.
    Lagged { dropped: u64 },
    /// The bus is gone.
    Disconnected,
    /// Any other receive error.
    Failed,
}

/// What the capture makes of a frame: a remote frame has its requested length and
/// no bytes, any other its payload.
pub open spec fn capture_of(frame: CanFrame, t_us: int, dir: Dir) -> Capture {
    Capture {
        id: frame.id,
        dir,
        sample: Sample {
            kind: frame.kind,
            data: if frame.kind is Remote {
                seq![]
            } else {
                frame.data@
            },
            len: if frame.kind is Remote {
                frame.dlc
            } else {
                frame.data@.len() as u8
            },
            t_us,
        },
    }
}

/// A frame the ring has room for.
pub open spec fn recordable(frame: CanFrame) -> bool {
    frame.kind is Remote || frame.data@.len() <= MAX_DLEN
}

/// A session as a mathematical value.
#[verifier::ext_equal]
pub struct SessionView {
    pub state: AnalyzerView,
    pub our_dropped: int,
    pub fd: bool,
    pub max_dlen: usize,
    pub hw_ts: bool,
}

impl SessionView {
    /// The session after a received frame.
    pub open spec fn received(
        self,
        frame: CanFrame,
        timestamp_us: Option<u64>,
        host_us: u64,
    ) -> Self {
        let t_us = self.state.display(host_us, timestamp_us);
        SessionView {
            state: self.state.after_display(host_us, timestamp_us).push(
                capture_of(frame, t_us, Dir::Rx),
            ),
            ..self
        }
    }

    /// The session after a sent frame, which is always on the host clock.
    pub open spec fn sent(self, frame: CanFrame, host_us: u64) -> Self {
        SessionView {
            state: self.state.push(capture_of(frame, host_us as int, Dir::Tx)),
            ..self
        }
    }

    /// The session after any receive event.
    pub open spec fn heard(self, event: RxEvent, host_us: u64) -> Self {
        match event {
            RxEvent::Frame { frame, timestamp_us } => self.received(frame, timestamp_us, host_us),
            RxEvent::Lagged { dropped } => SessionView {
                our_dropped: (self.our_dropped + dropped) % 0x1_0000_0000_0000_0000,
                ..self
            },
            RxEvent::Disconnected => self,
            RxEvent::Failed => self,
        }
    }

    /// What has to hold before a frame can be captured.
    pub open spec fn can_record(
        self,
        frame: CanFrame,
        timestamp_us: Option<u64>,
        host_us: u64,
    ) -> bool {
        &&& recordable(frame)
        &&& self.state.next_seq < u64::MAX
        &&& self.state.clock_ok(host_us, timestamp_us)
    }

    /// The session after a clear.
    pub open spec fn cleared(self) -> Self {
        SessionView { state: self.state.clear(), our_dropped: 0, ..self }
    }

    /// The status `s` is that of this session.
    pub open spec fn reports(self, s: AnalyzerStatusDto) -> bool {
        &&& s.capturing
        &&& s.total == self.state.total
        &&& s.our_dropped == self.our_dropped
        &&& s.distinct_ids == self.state.agg.dom().len()
        &&& s.agg_overflow == self.state.agg_overflow()
        &&& s.ring_len == self.state.ring.len()
        &&& s.next_seq == self.state.next_seq
        &&& s.fd == self.fd
        &&& s.max_dlen == self.max_dlen as u32
        &&& s.hw_ts == self.hw_ts
    }
}

/// The limit a poll really works with.
pub open spec fn batch(max: u32) -> int {
    if max < MAX_BATCH {
        max as int
    } else {
        MAX_BATCH as int
    }
}

impl AggRowDto {
    /// The identifier the row is about.
    pub open spec fn can_id(self) -> CanId {
        if self.extended {
            CanId::Extended(self.id)
        } else {
            CanId::Standard(self.id as u16)
        }
    }
}

/// `rows` is the per-identifier table at time `now_us`: each identifier that
/// passes the filter has one row, with its statistics, and there is no other row.
/// The order is open.
pub open spec fn tabulates(
    rows: Seq<AggRowDto>,
    agg: Map<CanId, AggStats>,
    filter: FilterSpec,
    now_us: int,
) -> bool {
    &&& forall|i: int|
        #![trigger rows[i]]
        0 <= i < rows.len() ==> {
            &&& agg.contains_key(rows[i].can_id())
            &&& filter.accepts(rows[i].can_id())
            &&& rows[i].shows(agg[rows[i].can_id()].row(rows[i].can_id(), now_us))
        }
    &&& forall|i: int, j: int|
        #![trigger rows[i], rows[j]]
        0 <= i < j < rows.len() ==> rows[i].can_id() != rows[j].can_id()
    &&& forall|id: CanId| #[trigger]
        agg.contains_key(id) && filter.accepts(id) ==> exists|i: int|
            0 <= i < rows.len() && (#[trigger] rows[i]).can_id() == id
}

/// Raw frames of a poll, copied out so that they can be formatted without
/// holding up the capture.
pub struct TraceSnapshot {
    pub records: Vec<TraceRecord>,
    pub next_seq: u64,
    pub gap: bool,
    pub status: AnalyzerStatusDto,
}

impl TraceSnapshot {
    /// The snapshot holds exactly what `poll` says.
    pub open spec fn holds(self, poll: Poll) -> bool {
        &&& copies(self.records@, poll.frames)
        &&& self.next_seq == poll.cursor
        &&& self.gap == poll.gap
    }

    /// Every copied frame can be shown.
    pub open spec fn showable(self) -> bool {
        forall|i: int|
            #![trigger self.records@[i]]
            0 <= i < self.records@.len() ==> self.records@[i]@.showable()
    }

    /// Formats the frames.
    pub fn into_reply(self) -> (r: TraceReplyDto)
        requires
            self.showable(),
        ensures
            forall|poll: Poll| #[trigger] self.holds(poll) ==> r.answers(poll),
            r.frames@.len() == self.records@.len(),
            forall|i: int|
                #![trigger r.frames@[i]]
                0 <= i < r.frames@.len() ==> r.frames@[i].shows(self.records@[i]@.row()),
            r.next_seq == self.next_seq,
            r.gap == self.gap,
            r.status == self.status,
    {
        let mut frames: Vec<TraceFrameDto> = Vec::new();
        let n: usize = self.records.len();
        for i in 0..n
            invariant
                n == self.records@.len(),
                self.showable(),
                frames@.len() == i,
                forall|j: int|
                    #![trigger frames@[j]]
                    0 <= j < i ==> frames@[j].shows(self.records@[j]@.row()),
        {
            frames.push(trace_dto(&self.records[i]));
        }
        let r: TraceReplyDto = TraceReplyDto {
            frames,
            next_seq: self.next_seq,
            gap: self.gap,
            status: self.status,
        };
        proof {
            assert forall|poll: Poll| #[trigger] self.holds(poll) implies r.answers(poll) by {
                assert forall|i: int|
                    #![trigger r.frames@[i]]
                    0 <= i < r.frames@.len() implies r.frames@[i].shows(poll.frames[i].row()) by {
                    assert(self.records@.map_values(|x: TraceRecord| x@)[i] == self.records@[i]@);
                }
            }
        }
        r
    }
}

/// Statistics copied out of the table, to be formatted outside the capture.
pub struct AggSnapshot {
    pub entries: Vec<(CanId, AggEntry)>,
    pub now_us: u64,
    pub status: AnalyzerStatusDto,
}

impl AggSnapshot {
    /// Every copied entry can be shown.
    pub open spec fn showable(self) -> bool {
        forall|i: int|
            #![trigger self.entries@[i]]
            0 <= i < self.entries@.len() ==> self.entries@[i].1@.showable()
    }

    /// Formats the rows.
    pub fn into_reply(self) -> (r: AggReplyDto)
        requires
            self.showable(),
        ensures
            r.rows@.len() == self.entries@.len(),
            forall|i: int|
                #![trigger r.rows@[i]]
                0 <= i < r.rows@.len() ==> r.rows@[i].shows(
                    self.entries@[i].1@.row(self.entries@[i].0, self.now_us as int),
                ),
            forall|agg: Map<CanId, AggStats>, filter: FilterSpec| #[trigger]
                lists(self.entries@, agg, filter) ==> tabulates(
                    r.rows@,
                    agg,
                    filter,
                    self.now_us as int,
                ),
            r.status == self.status,
    {
        let mut rows: Vec<AggRowDto> = Vec::new();
        let n: usize = self.entries.len();
        for i in 0..n
            invariant
                n == self.entries@.len(),
                self.showable(),
                rows@.len() == i,
                forall|j: int|
                    #![trigger rows@[j]]
                    0 <= j < i ==> rows@[j].shows(
                        self.entries@[j].1@.row(self.entries@[j].0, self.now_us as int),
                    ),
        {
            let entry: &(CanId, AggEntry) = &self.entries[i];
            rows.push(agg_dto(entry.0, &entry.1, self.now_us));
        }
        proof {
            assert forall|agg: Map<CanId, AggStats>, filter: FilterSpec| #[trigger]
                lists(self.entries@, agg, filter) implies tabulates(
                rows@,
                agg,
                filter,
                self.now_us as int,
            ) by {
                let e = self.entries@;
                assert forall|i: int| #![trigger rows@[i]] 0 <= i < rows@.len() implies
                    rows@[i].can_id() == e[i].0 by {
                    let _ = e[i];
                }
                assert forall|i: int, j: int|
                    #![trigger rows@[i], rows@[j]]
                    0 <= i < j < rows@.len() implies rows@[i].can_id() != rows@[j].can_id() by {
                    assert(e[i].0 != e[j].0);
                }
                assert forall|id: CanId| #[trigger]
                    agg.contains_key(id) && filter.accepts(id) implies exists|i: int|
                    0 <= i < rows@.len() && (#[trigger] rows@[i]).can_id() == id by {
                    let i = choose|i: int| 0 <= i < e.len() && (#[trigger] e[i]).0 == id;
                    assert(rows@[i].can_id() == id);
                }
            }
        }
        AggReplyDto { rows, status: self.status }
    }
}

/// A running capture session.
pub struct CanAnalyzer {
    state: AnalyzerState,
    our_dropped: u64,
    fd: bool,
    max_dlen: usize,
    hw_ts: bool,
}

impl View for CanAnalyzer {
    type V = SessionView;

    closed spec fn view(&self) -> SessionView {
        SessionView {
            state: self.state@,
            our_dropped: self.our_dropped as int,
            fd: self.fd,
            max_dlen: self.max_dlen,
            hw_ts: self.hw_ts,
        }
    }
}

impl CanAnalyzer {
    /// The session is one that its operations lead to.
    pub open spec fn wf(&self) -> bool {
        &&& self@.state.inv()
        &&& self@.state.showable()
        &&& self@.state.allows_storage(self.refused_chunks())
        &&& self.table_ok()
    }

    /// The chunks of 512 bytes that hold the refused identifiers.
    pub closed spec fn refused_chunks(&self) -> nat {
        self.state.refused_chunks()
    }

    /// The table's keys stand for identifiers.
    pub closed spec fn table_ok(&self) -> bool {
        self.state.table_ok()
    }

    /// The two subscriptions that together hear all traffic: a receive filter
    /// passes one identifier width only.
    pub fn capture_filters() -> (r: (CanFilter, CanFilter))
        ensures
            r.0 == (CanFilter { id: 0, mask: 0, extended: false }),
            r.1 == (CanFilter { id: 0, mask: 0, extended: true }),
    {
        (pass_all_standard(), pass_all_extended())
    }

    /// Starts a session on a bus with these capabilities. `hw_ts` says that the
    /// bus stamps frames with the device clock.
    pub fn start(fd: bool, max_dlen: usize, hw_ts: bool) -> (r: Self)
        ensures
            r.wf(),
            r@ == (SessionView {
                state: AnalyzerView::fresh(),
                our_dropped: 0,
                fd,
                max_dlen,
                hw_ts,
            }),
    {
        CanAnalyzer { state: AnalyzerState::new(), our_dropped: 0, fd, max_dlen, hw_ts }
    }

    /// Tests whether [`CanAnalyzer::on_rx`] and [`CanAnalyzer::record_tx`] may
    /// capture this frame now.
    pub fn can_record(&self, frame: &CanFrame, timestamp_us: Option<u64>, host_us: u64) -> (r: bool)
        requires
            self.wf(),
        ensures
            r == self@.can_record(*frame, timestamp_us, host_us),
    {
        let fits: bool = match frame.kind {
            FrameKind::Remote => true,
            _ => frame.data.len() <= MAX_DLEN,
        };
        fits && self.state.next_seq() < u64::MAX && self.state.clock_fits(host_us, timestamp_us)
    }

    /// Handles what a receive subscription delivered at host time `host_us`.
    /// Returns whether to go on listening: only a lost bus ends the capture.
    pub fn on_rx(&mut self, event: &RxEvent, host_us: u64) -> (go_on: bool)
        requires
            old(self).wf(),
            *event matches RxEvent::Frame { frame, timestamp_us } ==> old(self)@.can_record(
                frame,
                timestamp_us,
                host_us,
            ),
        ensures
            final(self).wf(),
            final(self)@ == old(self)@.heard(*event, host_us),
            go_on == !(event is Disconnected),
    {
        match event {
            RxEvent::Frame { frame, timestamp_us } => {
                let t_us: u64 = self.state.display_time(host_us, *timestamp_us);
                proof {
                    push_showable(self.state@, capture_of(*frame, t_us as int, Dir::Rx));
                }
                capture(&mut self.state, frame, t_us, Dir::Rx);
                true
            },
            RxEvent::Lagged { dropped } => {
                self.our_dropped = self.our_dropped.wrapping_add(*dropped);
                true
            },
            RxEvent::Disconnected => false,
            RxEvent::Failed => true,
        }
    }

    /// Records a frame that the bus accepted for sending.
    pub fn record_tx(&mut self, frame: &CanFrame, host_us: u64)
        requires
            old(self).wf(),
            old(self)@.can_record(*frame, None, host_us),
        ensures
            final(self).wf(),
            final(self)@ == old(self)@.sent(*frame, host_us),
    {
        let t_us: u64 = self.state.display_time(host_us, None);
        proof {
            push_showable(self.state@, capture_of(*frame, t_us as int, Dir::Tx));
        }
        capture(&mut self.state, frame, t_us, Dir::Tx);
    }

    /// Copies out one poll of the trace: frames with `seq > after_seq`, up to
    /// `max`, that pass `filter`.
    pub fn trace_snapshot(&self, after_seq: u64, max: u32, filter: &FilterSpec) -> (r:
        TraceSnapshot)
        requires
            self.wf(),
        ensures
            r.holds(self@.state.poll(after_seq as int, batch(max), *filter)),
            r.showable(),
            self@.reports(r.status),
    {
        let limit: u32 = if max < MAX_BATCH {
            max
        } else {
            MAX_BATCH
        };
        let (records, next_seq, gap) = self.state.collect_trace(after_seq, limit as usize, filter);
        proof {
            let (after, n) = (after_seq as int, limit as int);
            poll_returns_new_frames_in_order(self@.state, after, n, *filter);
            let frames = self@.state.poll(after, n, *filter).frames;
            assert forall|i: int| #![trigger records@[i]] 0 <= i < records@.len() implies
                records@[i]@.showable() by {
                assert(records@.map_values(|r: TraceRecord| r@)[i] == records@[i]@);
                assert(self@.state.ring.contains(frames[i]));
            }
        }
        TraceSnapshot { records, next_seq, gap, status: self.get_status() }
    }

    /// Cursor-based trace slice: frames with `seq > after_seq`, up to `max`, that
    /// pass `filter`.
    pub fn get_trace(&self, after_seq: u64, max: u32, filter: &FilterSpec) -> (r: TraceReplyDto)
        requires
            self.wf(),
        ensures
            r.answers(self@.state.poll(after_seq as int, batch(max), *filter)),
            self@.reports(r.status),
    {
        self.trace_snapshot(after_seq, max, filter).into_reply()
    }

    /// Copies out the statistics of the identifiers that pass `filter`.
    pub fn aggregate_snapshot(&self, filter: &FilterSpec, now_us: u64) -> (r: AggSnapshot)
        requires
            self.wf(),
        ensures
            lists(r.entries@, self@.state.agg, *filter),
            r.showable(),
            r.now_us == now_us,
            self@.reports(r.status),
    {
        let entries: Vec<(CanId, AggEntry)> = self.state.collect_aggregates(filter);
        AggSnapshot { entries, now_us, status: self.get_status() }
    }

    /// The per-identifier table that passes `filter`, at time `now_us`.
    pub fn get_aggregates(&self, filter: &FilterSpec, now_us: u64) -> (r: AggReplyDto)
        requires
            self.wf(),
        ensures
            tabulates(r.rows@, self@.state.agg, *filter, now_us as int),
            self@.reports(r.status),
    {
        self.aggregate_snapshot(filter, now_us).into_reply()
    }

    /// Health and size of the session.
    pub fn get_status(&self) -> (r: AnalyzerStatusDto)
        requires
            self.wf(),
        ensures
            self@.reports(r),
    {
        AnalyzerStatusDto {
            capturing: true,
            total: self.state.total(),
            our_dropped: self.our_dropped,
            distinct_ids: self.state.distinct_ids() as u32,
            agg_overflow: self.state.agg_overflow(),
            ring_len: self.state.ring_len() as u32,
            next_seq: self.state.next_seq(),
            fd: self.fd,
            max_dlen: #[verifier::truncate] (self.max_dlen as u32),
            hw_ts: self.hw_ts,
        }
    }

    /// Empties the capture. Returns the cursor to adopt, so that later frames are
    /// delivered and not taken for a gap.
    pub fn clear(&mut self) -> (cursor: u64)
        requires
            old(self).wf(),
        ensures
            final(self).wf(),
            final(self)@ == old(self)@.cleared(),
            cursor == old(self)@.state.next_seq - 1,
    {
        self.state.clear();
        self.our_dropped = 0;
        self.state.next_seq().saturating_sub(1)
    }

    /// Builds the frame a user asked to transmit. A remote request wins over the
    /// FD flag.
    pub fn send(spec: &SendSpec) -> (r: Result<CanFrame, SendError>)
        ensures
            spec.extended && !spec.id_ok() ==> r == Err::<CanFrame, SendError>(
                SendError::BadExtendedId(CanError::InvalidId),
            ),
            !spec.extended && !spec.id_ok() ==> r == Err::<CanFrame, SendError>(
                (SendError::StandardIdTooLarge { id: spec.id }),
            ),
            spec.id_ok() && spec.rtr ==> {
                &&& r matches Ok(f)
                &&& f.well_formed()
                &&& f.id == spec.can_id()
                &&& f.kind == FrameKind::Remote
                &&& f.dlc == spec.remote_dlc()
            },
            spec.id_ok() && !spec.rtr && spec.fd ==> if spec.data@.len() <= MAX_DLEN {
                &&& r matches Ok(f)
                &&& f.well_formed()
                &&& f.id == spec.can_id()
                &&& f.kind == (FrameKind::Fd { brs: spec.brs })
                &&& f.data@ == spec.data@
            } else {
                r == Err::<CanFrame, SendError>(
                    SendError::Fd(
                        (CanError::DataTooLong { got: spec.data@.len() as usize, max: MAX_DLEN }),
                    ),
                )
            },
            spec.id_ok() && !spec.rtr && !spec.fd ==> if spec.data@.len() <= CLASSIC_MAX_DLEN {
                &&& r matches Ok(f)
                &&& f.well_formed()
                &&& f.id == spec.can_id()
                &&& f.kind == FrameKind::Data
                &&& f.data@ == spec.data@
            } else {
                r == Err::<CanFrame, SendError>(
                    SendError::Data(
                        (CanError::DataTooLong {
                            got: spec.data@.len() as usize,
                            max: CLASSIC_MAX_DLEN,
                        }),
                    ),
                )
            },
    {
        let id: CanId = if spec.extended {
            match extended_id(spec.id) {
                Ok(id) => id,
                Err(e) => return Err(SendError::BadExtendedId(e)),
            }
        } else {
            if spec.id > STANDARD_MAX as u32 {
                return Err(SendError::StandardIdTooLarge { id: spec.id });
            }
            match standard_id(spec.id as u16) {
                Ok(id) => id,
                Err(e) => return Err(SendError::BadStandardId(e)),
            }
        };
        if spec.rtr {
            let dlc: u8 = if spec.dlc < 8 {
                spec.dlc
            } else {
                8
            };
            match remote_frame(id, dlc) {
                Ok(f) => Ok(f),
                Err(e) => Err(SendError::Remote(e)),
            }
        } else if spec.fd {
            match fd_frame(id, spec.data.as_slice(), spec.brs) {
                Ok(f) => Ok(f),
                Err(e) => Err(SendError::Fd(e)),
            }
        } else {
            match data_frame(id, spec.data.as_slice()) {
                Ok(f) => Ok(f),
                Err(e) => Err(SendError::Data(e)),
            }
        }
    }
}

fn capture(state: &mut AnalyzerState, frame: &CanFrame, t_us: u64, dir: Dir)
    requires
        old(state).wf(),
        old(state)@.next_seq < u64::MAX,
        recordable(*frame),
    ensures
        final(state).wf(),
        final(state)@ == old(state)@.push(capture_of(*frame, t_us as int, dir)),
{
    match frame.kind {
        FrameKind::Remote => {
            let none: Vec<u8> = Vec::new();
            assert(none@ =~= seq![]);
            state.push(frame.id, frame.kind, none.as_slice(), frame.dlc, t_us, dir);
        },
        _ => {
            let len: u8 = frame.data.len() as u8;
            state.push(frame.id, frame.kind, frame.data.as_slice(), len, t_us, dir);
        },
    }
}

/// Every identifier passes exactly one of the two capture filters.
pub proof fn capture_filters_partition(id: CanId)
    ensures
        mask_passes((CanFilter { id: 0, mask: 0, extended: false }), id) != mask_passes(
            (CanFilter { id: 0, mask: 0, extended: true }),
            id,
        ),
{
    let raw = id.raw_value();
    assert(raw & 0 == 0) by (bit_vector);
    assert(0u32 & 0 == 0) by (bit_vector);
}

} // verus!
