//! The IMU: a telemetry device that streams orientation, acceleration, angular rate
//! and temperature in its first transmit PDO.
//!
//! A session subscribes to that PDO, puts the device into Operational so that it
//! streams, and keeps the last sample for the panel. Bias trim and yaw reset are
//! object writes.

use vstd::prelude::*;

use crate::can::{
    data_frame, exact_standard, mask_passes, CanError, CanFilter, CanFrame, CanId, FrameKind,
    STANDARD_MAX,
};
use crate::canopen::{ObjectWrite, SdoWrite};

verus! {

/// Command object.
pub const CMD_INDEX: u16 = 0x3200;

/// Still gyro-bias trim.
pub const CMD_SUB_BIAS_TRIM: u8 = 0x01;

/// Yaw reset.
pub const CMD_SUB_YAW_RESET: u8 = 0x02;

/// Without a sample for this long the device is shown offline.
pub const RX_TIMEOUT_MS: u64 = 300;

/// Bytes of a sample.
pub const SAMPLE_LEN: usize = 26;

/// NMT command: enter Operational.
pub const NMT_START: u8 = 0x01;

/// NMT command: enter Pre-Operational.
pub const NMT_PRE_OPERATIONAL: u8 = 0x80;

/// Identifier of node `nid`'s first transmit PDO.
pub fn tpdo1_cob_id(nid: u8) -> (id: u16)
    ensures
        id == 0x180 + nid,
{
    0x180 + nid as u16
}

/// What the panel shows of an IMU, in the device's own units.
#[derive(Debug, Clone, Copy, PartialEq, Eq)]
pub struct ImuState {
    pub node_id: u8,
    pub online: bool,
    /// Orientation `[w, x, y, z]` (unit quaternion), in 1/10000.
    pub quaternion: [i16; 4],
    /// Acceleration `[x, y, z]` in mg.
    pub accel: [i16; 3],
    /// Angular rate `[x, y, z]` in 0.1 deg/s.
    pub gyro: [i16; 3],
    /// Die temperature in 0.01 degrees Celsius.
    pub temp_c: i16,
    /// Device sample counter.
    pub counter: u32,
}

/// The signed number in two little-endian bytes at offset `o`.
pub open spec fn i16_at(d: Seq<u8>, o: int) -> int {
    let v = d[o] + 0x100 * d[o + 1];
    if v < 0x8000 {
        v
    } else {
        v - 0x1_0000
    }
}

/// The number in four little-endian bytes at offset `o`.
pub open spec fn u32_at(d: Seq<u8>, o: int) -> int {
    d[o] + 0x100 * d[o + 1] + 0x1_0000 * d[o + 2] + 0x100_0000 * d[o + 3]
}

/// An IMU's state as a mathematical value.
#[verifier::ext_equal]
pub struct ImuView {
    pub node_id: u8,
    pub online: bool,
    pub quaternion: Seq<int>,
    pub accel: Seq<int>,
    pub gyro: Seq<int>,
    pub temp_c: int,
    pub counter: int,
}

impl View for ImuState {
    type V = ImuView;

    open spec fn view(&self) -> ImuView {
        ImuView {
            node_id: self.node_id,
            online: self.online,
            quaternion: self.quaternion@.map_values(|v: i16| v as int),
            accel: self.accel@.map_values(|v: i16| v as int),
            gyro: self.gyro@.map_values(|v: i16| v as int),
            temp_c: self.temp_c as int,
            counter: self.counter as int,
        }
    }
}

impl ImuView {
    /// Nothing received yet.
    pub open spec fn blank(nid: u8) -> Self {
        ImuView {
            node_id: nid,
            online: false,
            quaternion: seq![0, 0, 0, 0],
            accel: seq![0, 0, 0],
            gyro: seq![0, 0, 0],
            temp_c: 0,
            counter: 0,
        }
    }

    /// The sample in `d`, just received.
    pub open spec fn decoded(nid: u8, d: Seq<u8>) -> Self {
        ImuView {
            node_id: nid,
            online: true,
            quaternion: seq![i16_at(d, 0), i16_at(d, 2), i16_at(d, 4), i16_at(d, 6)],
            accel: seq![i16_at(d, 8), i16_at(d, 10), i16_at(d, 12)],
            gyro: seq![i16_at(d, 14), i16_at(d, 16), i16_at(d, 18)],
            temp_c: i16_at(d, 20),
            counter: u32_at(d, 22),
        }
    }
}

impl Default for ImuState {
    fn default() -> (s: Self)
        ensures
            s@ == ImuView::blank(0),
    {
        let s: ImuState = ImuState {
            node_id: 0,
            online: false,
            quaternion: [0i16;4],
            accel: [0i16;3],
            gyro: [0i16;3],
            temp_c: 0,
            counter: 0,
        };
        proof {
            assert(s@ =~= ImuView::blank(0));
        }
        s
    }
}

/// The signed number in two little-endian bytes.
fn read_i16(d: &[u8], o: usize) -> (r: i16)
    requires
        o + 1 < d@.len(),
    ensures
        r == i16_at(d@, o as int),
{
    let v: i32 = d[o] as i32 + 0x100 * d[o + 1] as i32;
    if v < 0x8000 {
        v as i16
    } else {
        (v - 0x1_0000) as i16
    }
}

/// The number in four little-endian bytes.
fn read_u32(d: &[u8], o: usize) -> (r: u32)
    requires
        o + 3 < d@.len(),
    ensures
        r == u32_at(d@, o as int),
{
    d[o] as u32 + 0x100 * d[o + 1] as u32 + 0x1_0000 * d[o + 2] as u32 + 0x100_0000 * d[o
        + 3] as u32
}

/// Decodes a sample; none if the frame is too short. Bytes beyond the sample are
/// ignored.
pub fn parse_tpdo1(nid: u8, d: &[u8]) -> (r: Option<ImuState>)
    ensures
        r is Some <==> d@.len() >= SAMPLE_LEN,
        r matches Some(s) ==> s@ == ImuView::decoded(nid, d@),
{
    if d.len() < SAMPLE_LEN {
        return None;
    }
    let s: ImuState = ImuState {
        node_id: nid,
        online: true,
        quaternion: [read_i16(d, 0), read_i16(d, 2), read_i16(d, 4), read_i16(d, 6)],
        accel: [read_i16(d, 8), read_i16(d, 10), read_i16(d, 12)],
        gyro: [read_i16(d, 14), read_i16(d, 16), read_i16(d, 18)],
        temp_c: read_i16(d, 20),
        counter: read_u32(d, 22),
    };
    proof {
        assert(s@ =~= ImuView::decoded(nid, d@));
    }
    Some(s)
}

/// The NMT frame with command `cs` for node `nid`: identifier 0, two bytes. It can
/// always be built.
pub fn nmt_frame(cs: u8, nid: u8) -> (r: Result<CanFrame, CanError>)
    ensures
        r matches Ok(f) && {
            &&& f.well_formed()
            &&& f.id == CanId::Standard(0)
            &&& f.kind == FrameKind::Data
            &&& f.data@ == seq![cs, nid]
        },
{
    let data: Vec<u8> = vec![cs, nid];
    proof {
        assert(data@ =~= seq![cs, nid]);
    }
    data_frame(CanId::Standard(0), data.as_slice())
}

/// What the receive loop hears.
#[derive(Debug)]
pub enum ImuEvent {
    /// A frame of the subscription.
    Frame(CanFrame),
    /// Nothing within [`RX_TIMEOUT_MS`].
    Silence,
    /// The subscription ended.
    Closed,
}

/// An IMU session.
pub struct ImuManager {
    node_id: u8,
    state: ImuState,
    running: bool,
}

/// An IMU session as a mathematical value.
#[verifier::ext_equal]
pub struct ImuSession {
    pub node_id: u8,
    pub state: ImuView,
    /// The receive loop is to go on.
    pub running: bool,
}

impl ImuSession {
    /// The state names the session's node.
    pub open spec fn inv(self) -> bool {
        self.state.node_id == self.node_id
    }

    /// Offline, with the last sample kept.
    pub open spec fn offline(self) -> Self {
        ImuSession { state: ImuView { online: false, ..self.state }, ..self }
    }

    /// After an event: a sample is taken over, a frame too short for one ignored,
    /// silence shows as offline, and the end of the subscription ends the session
    /// offline.
    pub open spec fn heard(self, event: ImuEvent) -> Self {
        match event {
            ImuEvent::Frame(f) => if f.data@.len() >= SAMPLE_LEN {
                ImuSession { state: ImuView::decoded(self.node_id, f.data@), ..self }
            } else {
                self
            },
            ImuEvent::Silence => self.offline(),
            ImuEvent::Closed => ImuSession { running: false, ..self.offline() },
        }
    }
}

impl View for ImuManager {
    type V = ImuSession;

    closed spec fn view(&self) -> ImuSession {
        ImuSession { node_id: self.node_id, state: self.state@, running: self.running }
    }
}

/// What starting a session sends and listens to, in this order.
#[derive(Debug)]
pub struct ImuStart {
    /// Subscribed before the device streams, so that no sample is missed.
    pub subscribe: CanFilter,
    /// Puts the device into Operational.
    pub send: CanFrame,
}

impl ImuManager {
    /// The subscription and the command that start node `nid`.
    pub fn start_plan(nid: u8) -> (r: Result<ImuStart, CanError>)
        ensures
            r matches Ok(p) && {
                &&& forall|id: CanId|
                    (id matches CanId::Standard(raw) ==> raw <= STANDARD_MAX) ==> (
                    #[trigger] mask_passes(p.subscribe, id) <==> id == CanId::Standard(
                        (0x180 + nid) as u16,
                    ))
                &&& p.subscribe == (CanFilter {
                    id: (0x180 + nid) as u32,
                    mask: STANDARD_MAX as u32,
                    extended: false,
                })
                &&& p.send.well_formed()
                &&& p.send.id == CanId::Standard(0)
                &&& p.send.kind == FrameKind::Data
                &&& p.send.data@ == seq![NMT_START, nid]
            },
    {
        let subscribe: CanFilter = exact_standard(tpdo1_cob_id(nid));
        proof {
            let want = (0x180 + nid) as u32;
            assert forall|id: CanId|
                (id matches CanId::Standard(raw) ==> raw <= STANDARD_MAX) implies (
            #[trigger] mask_passes(subscribe, id) <==> id == CanId::Standard(want as u16)) by {
                if let CanId::Standard(raw) = id {
                    let raw = raw as u32;
                    assert(raw & 0x7FF == want & 0x7FF <==> raw == want) by (bit_vector)
                        requires
                            raw <= 0x7FF,
                            want <= 0x7FF,
                    ;
                }
            }
        }
        match nmt_frame(NMT_START, nid) {
            Ok(send) => Ok(ImuStart { subscribe, send }),
            Err(e) => Err(e),
        }
    }

    /// A session with node `nid`, subscribed and started.
    pub fn start(nid: u8) -> (m: Self)
        ensures
            m@ == (ImuSession { node_id: nid, state: ImuView::blank(nid), running: true }),
            m@.inv(),
    {
        let mut state: ImuState = ImuState::default();
        state.node_id = nid;
        proof {
            assert(state@ =~= ImuView::blank(nid));
        }
        ImuManager { node_id: nid, state, running: true }
    }

    /// The last sample.
    pub fn state(&self) -> (s: ImuState)
        ensures
            s@ == self@.state,
    {
        self.state
    }

    pub fn node_id(&self) -> (n: u8)
        ensures
            n == self@.node_id,
    {
        self.node_id
    }

    /// Whether the receive loop is to go on.
    pub fn is_running(&self) -> (r: bool)
        ensures
            r == self@.running,
    {
        self.running
    }

    /// Takes what the receive loop heard.
    pub fn on_event(&mut self, event: &ImuEvent)
        requires
            old(self)@.inv(),
        ensures
            final(self)@ == old(self)@.heard(*event),
            final(self)@.inv(),
    {
        match event {
            ImuEvent::Frame(f) => {
                if let Some(parsed) = parse_tpdo1(self.node_id, f.data.as_slice()) {
                    self.state = parsed;
                }
            },
            ImuEvent::Silence => {
                self.state.online = false;
            },
            ImuEvent::Closed => {
                self.state.online = false;
                self.running = false;
            },
        }
    }

    /// The write that starts a still gyro-bias calibration.
    pub fn bias_trim(&self) -> (w: SdoWrite)
        ensures
            w@ == (ObjectWrite {
                index: CMD_INDEX,
                subindex: CMD_SUB_BIAS_TRIM,
                data: seq![1u8],
            }),
    {
        let w: SdoWrite = SdoWrite {
            index: CMD_INDEX,
            subindex: CMD_SUB_BIAS_TRIM,
            data: vec![1u8],
        };
        assert(w.data@ =~= seq![1u8]);
        w
    }

    /// The write that zeroes the yaw.
    pub fn yaw_reset(&self) -> (w: SdoWrite)
        ensures
            w@ == (ObjectWrite {
                index: CMD_INDEX,
                subindex: CMD_SUB_YAW_RESET,
                data: seq![1u8],
            }),
    {
        let w: SdoWrite = SdoWrite {
            index: CMD_INDEX,
            subindex: CMD_SUB_YAW_RESET,
            data: vec![1u8],
        };
        assert(w.data@ =~= seq![1u8]);
        w
    }

    /// Ends the session: offline, the last sample kept. Returns the command that puts
    /// the device back into Pre-Operational, which stops its stream.
    pub fn stop(&mut self) -> (r: Result<CanFrame, CanError>)
        requires
            old(self)@.inv(),
        ensures
            final(self)@ == (ImuSession { running: false, ..old(self)@.offline() }),
            final(self)@.inv(),
            r matches Ok(f) && {
                &&& f.well_formed()
                &&& f.id == CanId::Standard(0)
                &&& f.kind == FrameKind::Data
                &&& f.data@ == seq![NMT_PRE_OPERATIONAL, old(self)@.node_id]
            },
    {
        self.running = false;
        self.state.online = false;
        nmt_frame(NMT_PRE_OPERATIONAL, self.node_id)
    }
}

/// Losing the stream never loses the last sample: silence and the end of the
/// subscription change nothing of the state but that it is offline.
pub proof fn last_sample_is_kept(s: ImuSession)
    ensures
        s.heard(ImuEvent::Silence).state == (ImuView { online: false, ..s.state }),
        s.heard(ImuEvent::Closed).state == (ImuView { online: false, ..s.state }),
        s.heard(ImuEvent::Silence).running == s.running,
{
}

/// A device is shown online exactly from a sample until the next silence: after a
/// full sample it is online, whatever was before.
pub proof fn sample_brings_online(s: ImuSession, f: CanFrame)
    ensures
        f.data@.len() >= SAMPLE_LEN ==> s.heard(ImuEvent::Frame(f)).state.online,
        f.data@.len() < SAMPLE_LEN ==> s.heard(ImuEvent::Frame(f)) == s,
{
}

/// A sample is decoded from its 26 bytes alone.
pub proof fn sample_ignores_the_rest(nid: u8, a: Seq<u8>, b: Seq<u8>)
    requires
        a.len() >= SAMPLE_LEN,
        b.len() >= SAMPLE_LEN,
        a.take(SAMPLE_LEN as int) == b.take(SAMPLE_LEN as int),
    ensures
        ImuView::decoded(nid, a) == ImuView::decoded(nid, b),
{
    assert forall|i: int| 0 <= i < SAMPLE_LEN implies a[i] == b[i] by {
        assert(a.take(SAMPLE_LEN as int)[i] == a[i]);
        assert(b.take(SAMPLE_LEN as int)[i] == b[i]);
    }
}

/// Different samples show as different states: nothing of the 26 bytes is lost.
pub proof fn sample_loses_nothing(nid: u8, a: Seq<u8>, b: Seq<u8>)
    requires
        a.len() >= SAMPLE_LEN,
        b.len() >= SAMPLE_LEN,
        ImuView::decoded(nid, a) == ImuView::decoded(nid, b),
    ensures
        a.take(SAMPLE_LEN as int) == b.take(SAMPLE_LEN as int),
{
    let x = ImuView::decoded(nid, a);
    let y = ImuView::decoded(nid, b);
    assert forall|o: int| 0 <= o < 22 && o % 2 == 0 implies #[trigger] i16_at(a, o) == i16_at(b, o)
        by {
        if o < 8 {
            assert(x.quaternion[o / 2] == y.quaternion[o / 2]);
        } else if o < 14 {
            assert(x.accel[(o - 8) / 2] == y.accel[(o - 8) / 2]);
        } else if o < 20 {
            assert(x.gyro[(o - 14) / 2] == y.gyro[(o - 14) / 2]);
        }
    }
    assert forall|i: int| 0 <= i < SAMPLE_LEN implies a[i] == b[i] by {
        if i < 22 {
            let o = i - i % 2;
            assert(i16_at(a, o) == i16_at(b, o));
            i16_bytes(a, b, o);
        } else {
            u32_bytes(a, b, 22);
        }
    }
    assert(a.take(SAMPLE_LEN as int) =~= b.take(SAMPLE_LEN as int));
}

proof fn i16_bytes(a: Seq<u8>, b: Seq<u8>, o: int)
    requires
        i16_at(a, o) == i16_at(b, o),
    ensures
        a[o] == b[o],
        a[o + 1] == b[o + 1],
{
}

proof fn u32_bytes(a: Seq<u8>, b: Seq<u8>, o: int)
    requires
        u32_at(a, o) == u32_at(b, o),
    ensures
        a[o] == b[o],
        a[o + 1] == b[o + 1],
        a[o + 2] == b[o + 2],
        a[o + 3] == b[o + 3],
{
}

/// A signed sample value is the one 16-bit number that its two bytes stand for, low byte
/// first.
pub proof fn sample_values_are_signed(d: Seq<u8>, o: int)
    ensures
        -0x8000 <= i16_at(d, o) <= 0x7FFF,
        (i16_at(d, o) - d[o] - 0x100 * d[o + 1]) % 0x1_0000 == 0,
{
}

/// Where each value of a sample stands: orientation from byte 0, acceleration from byte 8,
/// angular rate from byte 14, temperature at byte 20, counter at byte 22, each value of
/// two bytes, the counter of four.
pub proof fn sample_layout(nid: u8, d: Seq<u8>, i: int)
    requires
        d.len() >= 26,
    ensures
        ({
            let s = ImuView::decoded(nid, d);
            &&& s.node_id == nid
            &&& s.online
            &&& s.quaternion.len() == 4 && s.accel.len() == 3 && s.gyro.len() == 3
            &&& 0 <= i < 4 ==> stands_for(s.quaternion[i], d[2 * i], d[2 * i + 1])
            &&& 0 <= i < 3 ==> stands_for(s.accel[i], d[8 + 2 * i], d[9 + 2 * i])
            &&& 0 <= i < 3 ==> stands_for(s.gyro[i], d[14 + 2 * i], d[15 + 2 * i])
            &&& stands_for(s.temp_c, d[20], d[21])
            &&& s.counter == d[22] + 0x100 * d[23] + 0x1_0000 * d[24] + 0x100_0000 * d[25]
        }),
{
    let s = ImuView::decoded(nid, d);
    if 0 <= i < 4 {
        assert(s.quaternion[i] == i16_at(d, 2 * i));
    }
    if 0 <= i < 3 {
        assert(s.accel[i] == i16_at(d, 8 + 2 * i));
        assert(s.gyro[i] == i16_at(d, 14 + 2 * i));
    }
}

/// The number is the signed 16-bit number with these two bytes.
pub open spec fn stands_for(v: int, low: u8, high: u8) -> bool {
    -0x8000 <= v <= 0x7FFF && (v - low - 0x100 * high) % 0x1_0000 == 0
}

/// What an event does to a session: a full sample replaces the state and nothing else, a
/// short frame changes nothing, silence and the end of the subscription take the device
/// offline, and the end ends the session.
pub proof fn events_of_a_session(s: ImuSession, f: CanFrame)
    requires
        s.inv(),
    ensures
        f.data@.len() < 26 ==> s.heard(ImuEvent::Frame(f)) == s,
        f.data@.len() >= 26 ==> s.heard(ImuEvent::Frame(f)).state == ImuView::decoded(
            s.node_id,
            f.data@,
        ),
        s.heard(ImuEvent::Frame(f)).running == s.running,
        s.heard(ImuEvent::Frame(f)).node_id == s.node_id,
        ({
            let (quiet, closed) = (s.heard(ImuEvent::Silence), s.heard(ImuEvent::Closed));
            &&& !quiet.state.online && !closed.state.online && !s.offline().state.online
            &&& quiet.state.counter == s.state.counter && closed.state.counter == s.state.counter
            &&& quiet.state.quaternion == s.state.quaternion
            &&& closed.state.quaternion == s.state.quaternion
            &&& quiet.state.accel == s.state.accel && closed.state.accel == s.state.accel
            &&& quiet.state.gyro == s.state.gyro && closed.state.gyro == s.state.gyro
            &&& quiet.state.temp_c == s.state.temp_c && closed.state.temp_c == s.state.temp_c
            &&& quiet.state.node_id == s.node_id && closed.state.node_id == s.node_id
            &&& quiet.node_id == s.node_id && closed.node_id == s.node_id
            &&& quiet.running == s.running && !closed.running
            &&& s.offline() == quiet
        }),
{
}

/// Before the first sample everything is zero and the device offline.
pub proof fn nothing_received_yet(nid: u8)
    ensures
        ({
            let b = ImuView::blank(nid);
            &&& b.node_id == nid && !b.online && b.temp_c == 0 && b.counter == 0
            &&& b.quaternion == seq![0int, 0, 0, 0]
            &&& b.accel == seq![0int, 0, 0]
            &&& b.gyro == seq![0int, 0, 0]
        }),
{
}

/// The view holds what the state holds.
pub proof fn view_is_the_state(s: ImuState, i: int)
    ensures
        s@.node_id == s.node_id,
        s@.online == s.online,
        s@.quaternion.len() == 4,
        s@.accel.len() == 3,
        s@.gyro.len() == 3,
        0 <= i < 4 ==> s@.quaternion[i] == s.quaternion@[i],
        0 <= i < 3 ==> s@.accel[i] == s.accel@[i],
        0 <= i < 3 ==> s@.gyro[i] == s.gyro@[i],
        s@.temp_c == s.temp_c,
        s@.counter == s.counter,
{
}

} // verus!
