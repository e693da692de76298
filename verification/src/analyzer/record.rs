//! One captured frame, and the statistics of one identifier.

use vstd::prelude::*;
use vstd::slice::slice_subrange;

use crate::can::{CanId, FrameKind, MAX_DLEN};
use crate::text::{hex, hex_text};

verus! {

/// A rate window closes on the first frame this long after it opened, so slow
/// identifiers measure over their real spacing.
pub const RATE_WINDOW_US: u64 = 2_000_000;

/// An identifier silent for longer than this shows no rate.
pub const RATE_STALE_US: u64 = 5_000_000;

/// Direction of a captured frame.
#[derive(Debug, Clone, Copy, PartialEq, Eq, Structural)]
pub enum Dir {
    Rx,
    Tx,
}

impl Dir {
    pub open spec fn text(self) -> Seq<char> {
        match self {
            Dir::Rx => "rx"@,
            Dir::Tx => "tx"@,
        }
    }

    pub fn as_str(self) -> (s: &'static str)
        ensures
            s@ == self.text(),
    {
        match self {
            Dir::Rx => "rx",
            Dir::Tx => "tx",
        }
    }
}

/// How a frame kind is written in a row.
pub open spec fn kind_text(kind: FrameKind) -> Seq<char> {
    match kind {
        FrameKind::Data => "data"@,
        FrameKind::Fd { brs: true } => "fd_brs"@,
        FrameKind::Fd { brs: false } => "fd"@,
        FrameKind::Remote => "remote"@,
    }
}

pub fn kind_str(kind: FrameKind) -> (s: &'static str)
    ensures
        s@ == kind_text(kind),
{
    match kind {
        FrameKind::Data => "data",
        FrameKind::Fd { brs: true } => "fd_brs",
        FrameKind::Fd { brs: false } => "fd",
        FrameKind::Remote => "remote",
    }
}

/// The payload as a row shows it: `len` bytes in hex, and nothing for a remote
/// frame, which has only a requested length.
pub open spec fn payload_text(kind: FrameKind, buffer: Seq<u8>, len: u8) -> Seq<char> {
    if kind is Remote {
        seq![]
    } else {
        hex_text(buffer.take(len as int))
    }
}

fn payload_string(kind: FrameKind, buffer: &[u8; 64], len: u8) -> (s: String)
    requires
        fits_row(kind, len),
    ensures
        s@ == payload_text(kind, buffer@, len),
{
    match kind {
        FrameKind::Remote => {
            let s: String = String::new();
            assert(s@ =~= seq![]);
            s
        },
        _ => hex(slice_subrange(buffer.as_slice(), 0, len as usize)),
    }
}

/// How many bytes a frame of declared length `len` really brings: a remote frame
/// declares a length and brings none.
pub open spec fn present(data: Seq<u8>, len: u8) -> int {
    if len <= data.len() {
        len as int
    } else {
        data.len() as int
    }
}

/// A 64-byte buffer after a payload was written over its start.
pub open spec fn overwritten(buffer: Seq<u8>, data: Seq<u8>, len: u8) -> Seq<u8> {
    data.take(present(data, len)) + buffer.skip(present(data, len))
}

/// The empty 64-byte buffer.
pub open spec fn zeroed() -> Seq<u8> {
    Seq::new(MAX_DLEN as nat, |i: int| 0u8)
}

/// What a capture needs of a payload: the bytes it brings fit the buffer.
pub open spec fn storable(data: Seq<u8>, len: u8) -> bool {
    present(data, len) <= MAX_DLEN
}

/// What a row needs of a frame: where its payload is shown, it declares no more
/// bytes than the buffer holds.
pub open spec fn fits_row(kind: FrameKind, len: u8) -> bool {
    kind is Remote || len <= MAX_DLEN
}

fn overwrite(buffer: &[u8; 64], data: &[u8], len: u8) -> (r: [u8; 64])
    requires
        present(data@, len) <= MAX_DLEN,
    ensures
        r@ == overwritten(buffer@, data@, len),
{
    let n: usize = if (len as usize) <= data.len() {
        len as usize
    } else {
        data.len()
    };
    let mut r: [u8; 64] = *buffer;
    for i in 0..n
        invariant
            n == present(data@, len),
            n <= 64,
            r@ == data@.take(i as int) + buffer@.skip(i as int),
    {
        r[i] = data[i];
        proof {
            assert(r@ =~= data@.take(i as int + 1) + buffer@.skip(i as int + 1));
        }
    }
    r
}

/// A captured frame in the ring.
#[derive(Debug, Clone, Copy)]
pub struct TraceRecord {
    pub seq: u64,
    pub t_us: u64,
    pub id: CanId,
    pub kind: FrameKind,
    pub len: u8,
    pub dir: Dir,
    pub data: [u8; 64],
}

/// A captured frame as a mathematical value.
#[verifier::ext_equal]
pub struct FrameRecord {
    pub seq: int,
    pub t_us: int,
    pub id: CanId,
    pub kind: FrameKind,
    pub len: u8,
    pub dir: Dir,
    pub data: Seq<u8>,
}

impl View for TraceRecord {
    type V = FrameRecord;

    open spec fn view(&self) -> FrameRecord {
        FrameRecord {
            seq: self.seq as int,
            t_us: self.t_us as int,
            id: self.id,
            kind: self.kind,
            len: self.len,
            dir: self.dir,
            data: self.data@,
        }
    }
}

/// What the statistics of an identifier take from one frame.
pub struct Sample {
    pub kind: FrameKind,
    pub data: Seq<u8>,
    pub len: u8,
    pub t_us: int,
}

/// What a capture brings in: a frame, its declared length, its display time and
/// its direction.
pub struct Capture {
    pub id: CanId,
    pub dir: Dir,
    pub sample: Sample,
}

impl Capture {
    /// The payload can be kept.
    pub open spec fn storable(self) -> bool {
        storable(self.sample.data, self.sample.len)
    }

    /// The frame can be shown.
    pub open spec fn showable(self) -> bool {
        fits_row(self.sample.kind, self.sample.len)
    }

    /// The ring's record of the capture, under sequence number `seq`.
    pub open spec fn record(self, seq: int) -> FrameRecord {
        FrameRecord {
            seq,
            t_us: self.sample.t_us,
            id: self.id,
            kind: self.sample.kind,
            len: self.sample.len,
            dir: self.dir,
            data: overwritten(zeroed(), self.sample.data, self.sample.len),
        }
    }
}

impl FrameRecord {
    /// The frame can be shown.
    pub open spec fn showable(self) -> bool {
        fits_row(self.kind, self.len)
    }

    /// The row that shows this frame.
    pub open spec fn row(self) -> TraceRow {
        TraceRow {
            seq: self.seq,
            t_us: self.t_us,
            id: self.id,
            kind: kind_text(self.kind),
            dlc: self.len,
            data: payload_text(self.kind, self.data, self.len),
            dir: self.dir.text(),
        }
    }
}

impl TraceRecord {
    /// The record of one capture.
    pub fn new(
        seq: u64,
        t_us: u64,
        id: CanId,
        kind: FrameKind,
        data: &[u8],
        len: u8,
        dir: Dir,
    ) -> (r: Self)
        requires
            storable(data@, len),
        ensures
            r@ == (Capture {
                id,
                dir,
                sample: Sample { kind, data: data@, len, t_us: t_us as int },
            }).record(seq as int),
    {
        let empty: [u8; 64] = [0u8;64];
        assert(empty@ =~= zeroed());
        TraceRecord { seq, t_us, id, kind, len, dir, data: overwrite(&empty, data, len) }
    }
}

/// One row of the trace.
#[derive(Debug, Clone)]
pub struct TraceFrameDto {
    pub seq: u64,
    /// Time in microseconds since capture start, on one shared session axis: the
    /// device hardware clock (rebased) when it stamps frames, host arrival time
    /// otherwise (and always for sent frames).
    pub t_us: u64,
    pub id: u32,
    pub extended: bool,
    /// "data" | "fd" | "fd_brs" | "remote".
    pub kind: String,
    pub dlc: u8,
    /// Lower-case space-separated hex of the payload bytes ("11 22 aa").
    pub data: String,
    /// "rx" | "tx".
    pub dir: String,
}

/// A trace row as a mathematical value.
#[verifier::ext_equal]
pub struct TraceRow {
    pub seq: int,
    pub t_us: int,
    pub id: CanId,
    pub kind: Seq<char>,
    pub dlc: u8,
    pub data: Seq<char>,
    pub dir: Seq<char>,
}

impl TraceFrameDto {
    /// The DTO says exactly what `row` says.
    pub open spec fn shows(self, row: TraceRow) -> bool {
        &&& self.seq == row.seq
        &&& self.t_us == row.t_us
        &&& self.id == row.id.raw_value()
        &&& self.extended == (row.id is Extended)
        &&& self.kind@ == row.kind
        &&& self.dlc == row.dlc
        &&& self.data@ == row.data
        &&& self.dir@ == row.dir
    }
}

/// The row of a captured frame.
pub fn trace_dto(rec: &TraceRecord) -> (dto: TraceFrameDto)
    requires
        rec@.showable(),
    ensures
        dto.shows(rec@.row()),
{
    TraceFrameDto {
        seq: rec.seq,
        t_us: rec.t_us,
        id: rec.id.raw(),
        extended: rec.id.is_extended(),
        kind: kind_str(rec.kind).to_string(),
        dlc: rec.len,
        data: payload_string(rec.kind, &rec.data, rec.len),
        dir: rec.dir.as_str().to_string(),
    }
}

/// A measured rate: `frames` frames in `span_us` microseconds.
#[derive(Debug, Clone, Copy, PartialEq, Eq, Structural)]
pub struct FrameRate {
    pub frames: u64,
    pub span_us: u64,
}

/// Cumulative statistics of one identifier. They outlive the ring.
#[derive(Debug, Clone, Copy)]
pub struct AggEntry {
    pub count: u64,
    pub first_us: u64,
    pub last_us: u64,
    pub last_len: u8,
    pub last_kind: FrameKind,
    pub last_data: [u8; 64],
    /// Rate over the last completed window (`None` until one closes).
    pub rate: Option<FrameRate>,
    /// Start of the open window, and the frames counted since.
    pub win_start_us: u64,
    pub win_count: u64,
}

/// A rate as frames and microseconds.
pub open spec fn rate_value(rate: Option<FrameRate>) -> Option<(int, int)> {
    match rate {
        Some(r) => Some((r.frames as int, r.span_us as int)),
        None => None,
    }
}

/// The statistics of one identifier as a mathematical value.
#[verifier::ext_equal]
pub struct AggStats {
    pub count: int,
    pub first_us: int,
    pub last_us: int,
    pub last_len: u8,
    pub last_kind: FrameKind,
    pub last_data: Seq<u8>,
    pub rate: Option<(int, int)>,
    pub win_start_us: int,
    pub win_count: int,
}

impl View for AggEntry {
    type V = AggStats;

    open spec fn view(&self) -> AggStats {
        AggStats {
            count: self.count as int,
            first_us: self.first_us as int,
            last_us: self.last_us as int,
            last_len: self.last_len,
            last_kind: self.last_kind,
            last_data: self.last_data@,
            rate: rate_value(self.rate),
            win_start_us: self.win_start_us as int,
            win_count: self.win_count as int,
        }
    }
}

impl AggStats {
    /// Statistics after the first frame, which opens the window but is not
    /// counted in it.
    pub open spec fn first(c: Sample) -> AggStats {
        AggStats {
            count: 1,
            first_us: c.t_us,
            last_us: c.t_us,
            last_len: c.len,
            last_kind: c.kind,
            last_data: overwritten(zeroed(), c.data, c.len),
            rate: None,
            win_start_us: c.t_us,
            win_count: 0,
        }
    }

    /// Time since the window opened (none when the clock ran backwards).
    pub open spec fn elapsed(self, t_us: int) -> int {
        if t_us >= self.win_start_us {
            t_us - self.win_start_us
        } else {
            0
        }
    }

    /// Whether a frame at `t_us` closes the window.
    pub open spec fn closes_window(self, t_us: int) -> bool {
        self.elapsed(t_us) >= RATE_WINDOW_US
    }

    /// Statistics after one more frame.
    pub open spec fn next(self, c: Sample) -> AggStats {
        AggStats {
            count: self.count + 1,
            first_us: self.first_us,
            last_us: c.t_us,
            last_len: c.len,
            last_kind: c.kind,
            last_data: overwritten(self.last_data, c.data, c.len),
            rate: if self.closes_window(c.t_us) {
                Some((self.win_count + 1, self.elapsed(c.t_us)))
            } else {
                self.rate
            },
            win_start_us: if self.closes_window(c.t_us) {
                c.t_us
            } else {
                self.win_start_us
            },
            win_count: if self.closes_window(c.t_us) {
                0
            } else {
                self.win_count + 1
            },
        }
    }

    /// The last frame can be shown.
    pub open spec fn showable(self) -> bool {
        fits_row(self.last_kind, self.last_len)
    }

    /// Counters agree with each other, and a measured rate with the window.
    pub open spec fn sound(self) -> bool {
        &&& 0 <= self.win_count < self.count
        &&& self.last_data.len() == MAX_DLEN
        &&& self.rate matches Some((frames, span_us)) ==> frames >= 1 && span_us >= RATE_WINDOW_US
    }

    /// The rate shown at time `now_us`.
    pub open spec fn shown_rate(self, now_us: int) -> Option<(int, int)> {
        if now_us - self.last_us > RATE_STALE_US {
            None
        } else {
            self.rate
        }
    }

    /// The row of identifier `id` at time `now_us`.
    pub open spec fn row(self, id: CanId, now_us: int) -> AggRow {
        AggRow {
            id,
            count: self.count,
            rate_hz: self.shown_rate(now_us),
            last_dlc: self.last_len,
            last_kind: kind_text(self.last_kind),
            last_data: payload_text(self.last_kind, self.last_data, self.last_len),
            first_us: self.first_us,
            last_us: self.last_us,
        }
    }
}

impl AggEntry {
    /// Statistics after the first frame of an identifier.
    pub fn new(t_us: u64, kind: FrameKind, data: &[u8], len: u8) -> (r: Self)
        requires
            storable(data@, len),
        ensures
            r@ == AggStats::first((Sample { kind, data: data@, len, t_us: t_us as int })),
            r@.sound(),
    {
        let empty: [u8; 64] = [0u8;64];
        assert(empty@ =~= zeroed());
        AggEntry {
            count: 1,
            first_us: t_us,
            last_us: t_us,
            last_len: len,
            last_kind: kind,
            last_data: overwrite(&empty, data, len),
            rate: None,
            win_start_us: t_us,
            win_count: 0,
        }
    }

    /// Counts one more frame.
    pub fn update(&mut self, t_us: u64, kind: FrameKind, data: &[u8], len: u8)
        requires
            old(self)@.sound(),
            old(self).count < u64::MAX,
            storable(data@, len),
        ensures
            final(self)@ == old(self)@.next((Sample { kind, data: data@, len, t_us: t_us as int })),
            final(self)@.sound(),
    {
        self.count = self.count + 1;
        self.win_count = self.win_count + 1;
        let elapsed: u64 = t_us.saturating_sub(self.win_start_us);
        if elapsed >= RATE_WINDOW_US {
            self.rate = Some(FrameRate { frames: self.win_count, span_us: elapsed });
            self.win_start_us = t_us;
            self.win_count = 0;
        }
        self.last_us = t_us;
        self.last_kind = kind;
        self.last_len = len;
        self.last_data = overwrite(&self.last_data, data, len);
    }
}

/// One row of the per-identifier table.
#[derive(Debug, Clone)]
pub struct AggRowDto {
    pub id: u32,
    pub extended: bool,
    pub count: u64,
    /// `None` shows as 0 Hz.
    pub rate_hz: Option<FrameRate>,
    pub last_dlc: u8,
    pub last_kind: String,
    pub last_data: String,
    pub first_us: u64,
    pub last_us: u64,
}

/// A per-identifier row as a mathematical value.
#[verifier::ext_equal]
pub struct AggRow {
    pub id: CanId,
    pub count: int,
    /// Frames and microseconds.
    pub rate_hz: Option<(int, int)>,
    pub last_dlc: u8,
    pub last_kind: Seq<char>,
    pub last_data: Seq<char>,
    pub first_us: int,
    pub last_us: int,
}

impl AggRowDto {
    /// The DTO says exactly what `row` says.
    pub open spec fn shows(self, row: AggRow) -> bool {
        &&& self.id == row.id.raw_value()
        &&& self.extended == (row.id is Extended)
        &&& self.count == row.count
        &&& rate_value(self.rate_hz) == row.rate_hz
        &&& self.last_dlc == row.last_dlc
        &&& self.last_kind@ == row.last_kind
        &&& self.last_data@ == row.last_data
        &&& self.first_us == row.first_us
        &&& self.last_us == row.last_us
    }
}

/// The row of an identifier at time `now_us`.
pub fn agg_dto(id: CanId, e: &AggEntry, now_us: u64) -> (dto: AggRowDto)
    requires
        e@.showable(),
    ensures
        dto.shows(e@.row(id, now_us as int)),
{
    // An identifier that went silent shows 0 Hz instead of its last rate.
    let rate_hz: Option<FrameRate> = if now_us.saturating_sub(e.last_us) > RATE_STALE_US {
        None
    } else {
        e.rate
    };
    AggRowDto {
        id: id.raw(),
        extended: id.is_extended(),
        count: e.count,
        rate_hz,
        last_dlc: e.last_len,
        last_kind: kind_str(e.last_kind).to_string(),
        last_data: payload_string(e.last_kind, &e.last_data, e.last_len),
        first_us: e.first_us,
        last_us: e.last_us,
    }
}

impl AggStats {
    /// Statistics after several more frames, first to last.
    pub open spec fn run(self, samples: Seq<Sample>) -> AggStats
        decreases samples.len(),
    {
        if samples.len() == 0 {
            self
        } else {
            self.run(samples.drop_last()).next(samples.last())
        }
    }
}

/// While no frame closes the window, frames only add up and the shown rate stays.
proof fn open_window(start: AggStats, samples: Seq<Sample>)
    requires
        forall|i: int|
            #![trigger samples[i]]
            0 <= i < samples.len() ==> !start.closes_window(samples[i].t_us),
    ensures
        start.run(samples).win_count == start.win_count + samples.len(),
        start.run(samples).win_start_us == start.win_start_us,
        start.run(samples).rate == start.rate,
        start.run(samples).count == start.count + samples.len(),
    decreases samples.len(),
{
    if samples.len() > 0 {
        let init = samples.drop_last();
        assert forall|i: int| #![trigger init[i]] 0 <= i < init.len() implies !start.closes_window(
            init[i].t_us,
        ) by {
            assert(init[i] == samples[i]);
        }
        open_window(start, init);
        assert(samples.last() == samples[samples.len() - 1]);
    }
}

/// A window that closes measures its own frames over its own length: nothing from
/// before it opened has a part in the rate, and the next window starts empty.
pub proof fn rate_is_of_the_closed_window(start: AggStats, samples: Seq<Sample>)
    requires
        start.win_count == 0,
        samples.len() > 0,
        forall|i: int|
            #![trigger samples[i]]
            0 <= i < samples.len() - 1 ==> !start.closes_window(samples[i].t_us),
        start.closes_window(samples.last().t_us),
    ensures
        start.run(samples).rate == Some(
            (samples.len() as int, samples.last().t_us - start.win_start_us),
        ),
        start.run(samples).win_start_us == samples.last().t_us,
        start.run(samples).win_count == 0,
{
    let init = samples.drop_last();
    assert forall|i: int| #![trigger init[i]] 0 <= i < init.len() implies !start.closes_window(
        init[i].t_us,
    ) by {
        assert(init[i] == samples[i]);
    }
    open_window(start, init);
}

/// The first frame opens the first window, and an identifier shows no rate until
/// that window closes.
pub proof fn no_rate_before_the_first_window(first: Sample, samples: Seq<Sample>, now_us: int)
    requires
        forall|i: int|
            #![trigger samples[i]]
            0 <= i < samples.len() ==> samples[i].t_us - first.t_us < RATE_WINDOW_US,
    ensures
        AggStats::first(first).run(samples).shown_rate(now_us) is None,
{
    let start = AggStats::first(first);
    assert forall|i: int|
        #![trigger samples[i]]
        0 <= i < samples.len() implies !start.closes_window(samples[i].t_us) by {}
    open_window(start, samples);
}

/// An identifier that went silent shows no rate.
pub proof fn silence_shows_no_rate(stats: AggStats, now_us: int)
    requires
        now_us > stats.last_us + RATE_STALE_US,
    ensures
        stats.shown_rate(now_us) is None,
{
}

} // verus!
