//! What the haptic loop decides at each tick.
//!
//! The loop computes angles and torques in floating point. Every decision it
//! takes on them is made here, on the bit patterns of those numbers.

use vstd::prelude::*;

use super::bringup::{rpdo_cob_id, FRAME_LEN};
use super::presets::{preset_configs, presets, select, selected, KnobConfig, KnobFeel, PRESETS};
use crate::bits::{F32Bits, F64Bits};
use crate::can::{fd_frame, CanError, CanFrame, CanId, FrameKind};
use crate::canopen::le32;
use crate::motor::{motor_error_kind_name, Logic};
use crate::text::{push_upper4, upper4_text};

verus! {

/// Half a revolution: a larger step between two readings is a wrap.
pub const HALF_REV: u64 = 0x3FE0_0000_0000_0000;

/// Minus half a revolution.
pub const MINUS_HALF_REV: u64 = 0xBFE0_0000_0000_0000;

/// Smoothed speed (rad/s) above which the knob is not idle: 0.05.
pub const IDLE_VELOCITY_RAD_PER_SEC: u64 = 0x3FA9_9999_9999_999A;

/// How long the knob must be idle before its detent drifts to it: 500 ms.
pub const IDLE_CORRECTION_DELAY_NS: u64 = 500_000_000;

/// Largest offset (rad) that the drift corrects: five degrees.
pub const IDLE_CORRECTION_MAX_ANGLE_RAD: u64 = 0x3FB6_5718_4AE7_4487;

/// Shaft speed (rad/s) above which no torque is commanded: 60.
pub const MAX_VEL_RAD_S: u64 = 0x404E_0000_0000_0000;

/// Limit of the controller's output: 10.
pub const PID_LIMIT: u64 = 0x4024_0000_0000_0000;

/// What to add to a step between two wrapped readings.
#[derive(Debug, Clone, Copy, PartialEq, Eq, Structural)]
pub enum Turn {
    /// No wrap.
    Same,
    /// The reading wrapped downwards: one revolution less.
    MinusOne,
    /// The reading wrapped upwards: one revolution more.
    PlusOne,
}

/// The correction for a step of `delta` revolutions.
pub open spec fn turn_of(delta: F64Bits) -> Turn {
    if F64Bits::of(HALF_REV).lt(delta) {
        Turn::MinusOne
    } else if delta.lt(F64Bits::of(MINUS_HALF_REV)) {
        Turn::PlusOne
    } else {
        Turn::Same
    }
}

/// The correction for a step of `delta` revolutions between two readings that
/// wrap at one.
pub fn unwrap_turn(delta: F64Bits) -> (t: Turn)
    ensures
        t == turn_of(delta),
{
    if F64Bits::of(HALF_REV).less(delta) {
        Turn::MinusOne
    } else if delta.less(F64Bits::of(MINUS_HALF_REV)) {
        Turn::PlusOne
    } else {
        Turn::Same
    }
}

/// An angle to pass before the knob snaps, in thousandths of the width: the snap
/// point, moved by the bias.
#[derive(Debug, Clone, Copy, PartialEq, Eq, Structural)]
pub struct SnapPoint {
    pub point_milli: i32,
    pub bias_milli: i32,
}

impl SnapPoint {
    pub open spec fn total(self) -> int {
        self.point_milli + self.bias_milli
    }
}

impl KnobFeel {
    /// The offset above which the knob snaps to the position below.
    pub open spec fn snap_down(self, position: int) -> SnapPoint {
        SnapPoint {
            point_milli: self.snap_point_milli,
            bias_milli: if position <= 0 {
                self.snap_point_bias_milli
            } else {
                (-self.snap_point_bias_milli) as i32
            },
        }
    }

    /// The offset below which the knob snaps to the position above.
    pub open spec fn snap_up(self, position: int) -> SnapPoint {
        SnapPoint {
            point_milli: (-self.snap_point_milli) as i32,
            bias_milli: if position >= 0 {
                (-self.snap_point_bias_milli) as i32
            } else {
                self.snap_point_bias_milli
            },
        }
    }

    /// The snap settings can be negated.
    pub open spec fn negatable(self) -> bool {
        self.snap_point_milli > i32::MIN && self.snap_point_bias_milli > i32::MIN
    }

    /// The knob may go one position down.
    pub open spec fn may_go_down(self, position: int) -> bool {
        !self.bounded() || position > self.min_position
    }

    /// The knob may go one position up.
    pub open spec fn may_go_up(self, position: int) -> bool {
        !self.bounded() || position < self.max_position
    }

    /// Where a knob at `position`, turned by `angle` from its detent, snaps.
    pub open spec fn snap_of(
        self,
        position: int,
        angle: F64Bits,
        down: F64Bits,
        up: F64Bits,
    ) -> Snap {
        if down.lt(angle) && self.may_go_down(position) {
            Snap::Down
        } else if angle.lt(up) && self.may_go_up(position) {
            Snap::Up
        } else {
            Snap::Stay
        }
    }

    /// The knob is pushed past one of its ends.
    pub open spec fn past_end(self, position: int, angle: F64Bits) -> bool {
        self.bounded() && ((F64Bits::zero().lt(angle) && position == self.min_position) || (
        angle.lt(F64Bits::zero()) && position == self.max_position))
    }

    /// The proportional gain in thousandths: four times the strength that acts.
    pub open spec fn p_gain(self, past_end: bool) -> int {
        4 * (if past_end {
            self.endstop_strength_milli
        } else {
            self.detent_strength_milli
        })
    }

    /// The spring acts: always past an end, and elsewhere unless detents are
    /// magnetic and none is here.
    pub open spec fn spring_acts(self, position: int, past_end: bool) -> bool {
        past_end || !self.magnetic() || exists|i: int|
            0 <= i < self.detent_positions.len() && self.detent_positions[i] == position
    }

    /// Damping per unit of strength, in units of 10^-12: 0.08 up to a width of
    /// three degrees, 0.02 from eight degrees on, and linear between.
    pub open spec fn damping(self) -> int {
        if self.position_width_nanodeg <= 3_000_000_000 {
            80_000_000_000
        } else if self.position_width_nanodeg >= 8_000_000_000 {
            20_000_000_000
        } else {
            80_000_000_000 - 12 * (self.position_width_nanodeg - 3_000_000_000)
        }
    }
}

/// What a tick does to the position.
#[derive(Debug, Clone, Copy, PartialEq, Eq, Structural)]
pub enum Snap {
    Stay,
    /// One position down; the detent center moves one width up.
    Down,
    /// One position up; the detent center moves one width down.
    Up,
}

impl Snap {
    pub open spec fn step(self) -> int {
        match self {
            Snap::Stay => 0,
            Snap::Down => -1,
            Snap::Up => 1,
        }
    }
}

/// The derivative gain, in units of 10^-15: wide detents are damped less, and
/// magnetic ones not at all.
pub fn derivative_gain(config: &KnobConfig) -> (g: i128)
    ensures
        g == if config@.magnetic() {
            0
        } else {
            config.detent_strength_milli * config@.damping()
        },
{
    if config.detent_positions.len() > 0 {
        return 0;
    }
    let width: u64 = config.position_width_nanodeg;
    let factor: i64 = if width <= 3_000_000_000 {
        80_000_000_000
    } else if width >= 8_000_000_000 {
        20_000_000_000
    } else {
        80_000_000_000 - 12 * (width as i64 - 3_000_000_000)
    };
    let strength: i128 = config.detent_strength_milli as i128;
    proof {
        let s = strength as int;
        let f = factor as int;
        assert(-0x8000_0000 * 80_000_000_000 <= s * f <= 0x8000_0000 * 80_000_000_000)
            by (nonlinear_arith)
            requires
                -0x8000_0000 <= s <= 0x8000_0000,
                0 <= f <= 80_000_000_000,
        ;
    }
    strength * factor as i128
}

/// The loop's discrete state.
pub struct Haptic {
    config: KnobConfig,
    active: Option<usize>,
    position: i32,
    idle_since_ns: Option<u64>,
}

/// The loop's discrete state as a mathematical value.
#[verifier::ext_equal]
pub struct HapticView {
    /// The mode in play.
    pub feel: KnobFeel,
    /// Its index; none before the first tick.
    pub active: Option<usize>,
    pub position: int,
    /// When the knob came to rest.
    pub idle_since_ns: Option<u64>,
}

impl HapticView {
    /// Before the first tick.
    pub open spec fn fresh() -> Self {
        HapticView { feel: presets()[0], active: None, position: 0, idle_since_ns: None }
    }

    /// The mode in play is the one of its index, and the position is within it.
    pub open spec fn sound(self) -> bool {
        &&& self.feel == match self.active {
            Some(i) => presets()[i as int],
            None => presets()[0],
        }
        &&& self.active matches Some(i) ==> i < PRESETS
        &&& self.feel.allows(self.position)
    }

    /// What holds of every state: it is sound, and the position fits its counter.
    pub open spec fn inv(self) -> bool {
        self.sound() && i32::MIN <= self.position <= i32::MAX
    }

    /// After a request for mode `index`: a mode that is not yet in play is
    /// entered at its own position, and the idle clock starts over.
    pub open spec fn requested(self, index: usize) -> Self {
        let wanted = selected(index);
        if self.active == Some(wanted) {
            self
        } else {
            HapticView {
                feel: presets()[wanted as int],
                active: Some(wanted),
                position: presets()[wanted as int].entry(),
                idle_since_ns: None,
            }
        }
    }

    /// After the smoothed speed was read: fast motion ends the rest, and slow
    /// motion starts one.
    pub open spec fn rested(self, speed: F64Bits, now_ns: u64) -> Self {
        HapticView {
            idle_since_ns: if F64Bits::of(IDLE_VELOCITY_RAD_PER_SEC).lt(speed) {
                None
            } else if self.idle_since_ns is None {
                Some(now_ns)
            } else {
                self.idle_since_ns
            },
            ..self
        }
    }

    /// The detent drifts to the knob: it has rested for longer than the delay,
    /// less than five degrees away.
    pub open spec fn drifts(self, offset: F64Bits, now_ns: u64) -> bool {
        &&& self.idle_since_ns matches Some(start)
        &&& now_ns - start > IDLE_CORRECTION_DELAY_NS
        &&& offset.magnitude().lt(F64Bits::of(IDLE_CORRECTION_MAX_ANGLE_RAD))
    }

    /// After a snap.
    pub open spec fn snapped(self, snap: Snap) -> Self {
        HapticView { position: self.position + snap.step(), ..self }
    }
}

/// What a tick brings to the discrete state.
pub enum TickEvent {
    /// The mode asked for.
    Requested { index: usize },
    /// The smoothed speed, and the time.
    Speed { speed: F64Bits, now_ns: u64 },
    /// The offset from the detent center, and the two snap points.
    Turned { angle: F64Bits, down: F64Bits, up: F64Bits },
}

impl HapticView {
    /// After one event.
    pub open spec fn next(self, event: TickEvent) -> Self {
        match event {
            TickEvent::Requested { index } => self.requested(index),
            TickEvent::Speed { speed, now_ns } => self.rested(speed, now_ns),
            TickEvent::Turned { angle, down, up } => self.snapped(
                self.feel.snap_of(self.position, angle, down, up),
            ),
        }
    }

    /// After events, first to last.
    pub open spec fn after(self, events: Seq<TickEvent>) -> Self
        decreases events.len(),
    {
        if events.len() == 0 {
            self
        } else {
            self.after(events.drop_last()).next(events.last())
        }
    }
}

impl View for Haptic {
    type V = HapticView;

    closed spec fn view(&self) -> HapticView {
        HapticView {
            feel: self.config@,
            active: self.active,
            position: self.position as int,
            idle_since_ns: self.idle_since_ns,
        }
    }
}

impl Haptic {
    /// The state before the first tick, which enters the requested mode.
    pub fn new() -> (h: Self)
        ensures
            h@ == HapticView::fresh(),
            h@.inv(),
    {
        let configs: Vec<KnobConfig> = preset_configs();
        let config: KnobConfig = configs[0].clone();
        proof {
            assert(configs@.map_values(|c: KnobConfig| c@)[0] == presets()[0]);
        }
        Haptic { config, active: None, position: 0, idle_since_ns: None }
    }

    /// The mode in play.
    pub fn config(&self) -> (c: &KnobConfig)
        ensures
            c@ == self@.feel,
    {
        &self.config
    }

    /// The index of the mode in play.
    pub fn active(&self) -> (r: Option<usize>)
        ensures
            r == self@.active,
    {
        self.active
    }

    /// The logical position.
    pub fn position(&self) -> (p: i32)
        ensures
            p == self@.position,
    {
        self.position
    }

    /// Takes up a request for a mode. Returns whether it was entered just now, so
    /// that the detent center is to be put at the shaft angle.
    pub fn apply(&mut self, requested: usize) -> (entered: bool)
        requires
            old(self)@.inv(),
        ensures
            final(self)@ == old(self)@.requested(requested),
            final(self)@.inv(),
            final(self)@.active == Some(selected(requested)),
            entered == (old(self)@.active != Some(selected(requested))),
    {
        let wanted: usize = select(requested);
        if let Some(i) = self.active {
            if i == wanted {
                return false;
            }
        }
        let configs: Vec<KnobConfig> = preset_configs();
        let config: KnobConfig = configs[wanted].clone();
        proof {
            assert(configs@.map_values(|c: KnobConfig| c@)[wanted as int]
                == presets()[wanted as int]);
        }
        let mut position: i32 = config.position;
        if config.min_position <= config.max_position {
            if position < config.min_position {
                position = config.min_position;
            } else if position > config.max_position {
                position = config.max_position;
            }
        }
        self.config = config;
        self.active = Some(wanted);
        self.position = position;
        self.idle_since_ns = None;
        true
    }

    /// Watches for rest. `speed` is the smoothed speed (rad/s), `offset` the shaft
    /// angle from the detent center (rad). Returns whether the center drifts.
    pub fn idle(&mut self, speed: F64Bits, offset: F64Bits, now_ns: u64) -> (drift: bool)
        requires
            old(self)@.inv(),
        ensures
            final(self)@ == old(self)@.rested(speed, now_ns),
            final(self)@.inv(),
            drift == final(self)@.drifts(offset, now_ns),
    {
        if F64Bits::of(IDLE_VELOCITY_RAD_PER_SEC).less(speed) {
            self.idle_since_ns = None;
        } else if self.idle_since_ns.is_none() {
            self.idle_since_ns = Some(now_ns);
        }
        match self.idle_since_ns {
            Some(start) => now_ns > start && now_ns - start > IDLE_CORRECTION_DELAY_NS
                && offset.abs().less(F64Bits::of(IDLE_CORRECTION_MAX_ANGLE_RAD)),
            None => false,
        }
    }

    /// The offset above which the knob snaps down.
    pub fn snap_down_point(&self) -> (p: SnapPoint)
        requires
            self@.inv(),
        ensures
            p == self@.feel.snap_down(self@.position),
    {
        let bias: i32 = self.config.snap_point_bias_milli;
        SnapPoint {
            point_milli: self.config.snap_point_milli,
            bias_milli: if self.position <= 0 {
                bias
            } else {
                -bias
            },
        }
    }

    /// The offset below which the knob snaps up.
    pub fn snap_up_point(&self) -> (p: SnapPoint)
        requires
            self@.inv(),
        ensures
            p == self@.feel.snap_up(self@.position),
    {
        let bias: i32 = self.config.snap_point_bias_milli;
        SnapPoint {
            point_milli: -self.config.snap_point_milli,
            bias_milli: if self.position >= 0 {
                -bias
            } else {
                bias
            },
        }
    }

    /// Tests whether [`Haptic::snap`] keeps the position within its counter.
    pub fn snap_fits(&self, angle: F64Bits, down: F64Bits, up: F64Bits) -> (r: bool)
        requires
            self@.inv(),
        ensures
            r == (i32::MIN <= self@.position + self@.feel.snap_of(
                self@.position,
                angle,
                down,
                up,
            ).step() <= i32::MAX),
    {
        let bounded: bool = self.config.min_position <= self.config.max_position;
        if down.less(angle) && (!bounded || self.position > self.config.min_position) {
            self.position > i32::MIN
        } else if angle.less(up) && (!bounded || self.position < self.config.max_position) {
            self.position < i32::MAX
        } else {
            true
        }
    }

    /// Snaps to a neighbouring position where the knob was turned far enough from
    /// its detent. `angle`, `down` and `up` are in radians: the offset from the
    /// detent center and the two snap points.
    pub fn snap(&mut self, angle: F64Bits, down: F64Bits, up: F64Bits) -> (s: Snap)
        requires
            old(self)@.inv(),
            i32::MIN <= old(self)@.position + old(self)@.feel.snap_of(
                old(self)@.position,
                angle,
                down,
                up,
            ).step() <= i32::MAX,
        ensures
            s == old(self)@.feel.snap_of(old(self)@.position, angle, down, up),
            final(self)@ == old(self)@.snapped(s),
            final(self)@.inv(),
    {
        let bounded: bool = self.config.min_position <= self.config.max_position;
        if down.less(angle) && (!bounded || self.position > self.config.min_position) {
            self.position = self.position - 1;
            Snap::Down
        } else if angle.less(up) && (!bounded || self.position < self.config.max_position) {
            self.position = self.position + 1;
            Snap::Up
        } else {
            Snap::Stay
        }
    }

    /// Whether the knob is pushed past an end.
    pub fn at_endstop(&self, angle: F64Bits) -> (r: bool)
        ensures
            r == self@.feel.past_end(self@.position, angle),
    {
        let zero: F64Bits = F64Bits { bits: 0 };
        self.config.min_position <= self.config.max_position && ((zero.less(angle) && self.position
            == self.config.min_position) || (angle.less(zero) && self.position
            == self.config.max_position))
    }

    /// The proportional gain in thousandths.
    pub fn p_gain_milli(&self, past_end: bool) -> (g: i64)
        ensures
            g == self@.feel.p_gain(past_end),
    {
        let strength: i32 = if past_end {
            self.config.endstop_strength_milli
        } else {
            self.config.detent_strength_milli
        };
        4 * strength as i64
    }

    /// Whether the spring acts here.
    pub fn has_spring(&self, past_end: bool) -> (r: bool)
        ensures
            r == self@.feel.spring_acts(self@.position, past_end),
    {
        let n: usize = self.config.detent_positions.len();
        if past_end || n == 0 {
            return true;
        }
        for i in 0..n
            invariant
                n == self.config.detent_positions@.len(),
                !past_end,
                n > 0,
                forall|j: int|
                    0 <= j < i ==> self.config.detent_positions@[j] != self.position,
        {
            if self.config.detent_positions[i] == self.position {
                assert(self@.feel.detent_positions[i as int] == self@.position);
                return true;
            }
        }
        false
    }

    /// How many positions the mode has; 0 stands for unbounded.
    pub fn num_positions(&self) -> (n: i32)
        requires
            self@.inv(),
        ensures
            n == self@.feel.count(),
    {
        if self.config.min_position <= self.config.max_position {
            self.config.max_position - self.config.min_position + 1
        } else {
            0
        }
    }
}

/// Whether a motor is enabled, and its fault in words.
pub open spec fn health_of(logic: Option<Logic>) -> (bool, Option<Seq<char>>) {
    match logic {
        Some(Logic::Enabled(_)) => (true, None),
        Some(Logic::Error { kind, raw_code }) => (
            false,
            Some(kind.text() + " (0x"@ + upper4_text(raw_code) + ")"@),
        ),
        _ => (false, None),
    }
}

/// A motor is enabled.
pub fn is_enabled(logic: Option<Logic>) -> (r: bool)
    ensures
        r == health_of(logic).0,
{
    match logic {
        Some(Logic::Enabled(_)) => true,
        _ => false,
    }
}

/// A motor's fault in words: category and raw code.
pub fn fault_text(logic: Option<Logic>) -> (r: Option<String>)
    ensures
        r is Some == health_of(logic).1 is Some,
        r matches Some(s) ==> Some(s@) == health_of(logic).1,
{
    match logic {
        Some(Logic::Error { kind, raw_code }) => {
            let mut s: String = motor_error_kind_name(kind).to_string();
            s.append(" (0x");
            push_upper4(&mut s, raw_code);
            s.append(")");
            Some(s)
        },
        _ => None,
    }
}

/// The controller's output held within its limit. A NaN stays one.
pub fn limit_pid(output: F64Bits) -> (r: F64Bits)
    ensures
        !output.is_nan() ==> -F64Bits::of(PID_LIMIT).rank() <= r.rank() <= F64Bits::of(
            PID_LIMIT,
        ).rank(),
        r == output.clamped(F64Bits::of(PID_LIMIT).negated(), F64Bits::of(PID_LIMIT)),
{
    output.clamp(F64Bits::of(PID_LIMIT).neg(), F64Bits::of(PID_LIMIT))
}

/// The torque to command (Nm): none above the speed limit, and otherwise `torque`
/// held within `limit`.
pub open spec fn torque_of(velocity: F64Bits, torque: F64Bits, limit: F64Bits) -> F64Bits {
    if F64Bits::of(MAX_VEL_RAD_S).lt(velocity.magnitude()) {
        F64Bits::zero()
    } else {
        torque.clamped(limit.negated(), limit)
    }
}

/// The torque to command (Nm), given the shaft speed (rad/s).
pub fn command_torque(velocity: F64Bits, torque: F64Bits, limit: F64Bits) -> (r: F64Bits)
    requires
        !limit.is_nan(),
        !limit.is_signed(),
    ensures
        r == torque_of(velocity, torque, limit),
{
    if F64Bits::of(MAX_VEL_RAD_S).less(velocity.abs()) {
        F64Bits { bits: 0 }
    } else {
        let low: F64Bits = limit.neg();
        torque.clamp(low, limit)
    }
}

/// The streamed bytes: torque, a velocity gain of zero, and the torque limit, all
/// little-endian.
pub open spec fn stream_payload(torque: F32Bits, max_torque_permille: u16) -> Seq<u8> {
    le32(torque.bits as int) + seq![
        0u8,
        0u8,
        (max_torque_permille % 0x100) as u8,
        (max_torque_permille / 0x100) as u8,
    ]
}

/// The frame that commands a torque to node `nid`: a CAN-FD frame with bit-rate
/// switch on the node's first receive PDO. It can always be built.
pub fn torque_frame(nid: u8, torque: F32Bits, max_torque_permille: u16) -> (r: Result<
    CanFrame,
    CanError,
>)
    ensures
        r matches Ok(f) && {
            &&& f.well_formed()
            &&& f.id == CanId::Standard((0x200 + nid) as u16)
            &&& f.kind == (FrameKind::Fd { brs: true })
            &&& f.data@ == stream_payload(torque, max_torque_permille)
            &&& f.data@.len() == FRAME_LEN
        },
{
    let t: u32 = torque.bits;
    let data: Vec<u8> = vec![
        (t % 0x100) as u8,
        (t / 0x100 % 0x100) as u8,
        (t / 0x1_0000 % 0x100) as u8,
        (t / 0x100_0000 % 0x100) as u8,
        0u8,
        0u8,
        (max_torque_permille % 0x100) as u8,
        (max_torque_permille / 0x100) as u8,
    ];
    proof {
        assert(data@ =~= stream_payload(torque, max_torque_permille));
    }
    fd_frame(CanId::Standard(rpdo_cob_id(nid)), data.as_slice(), true)
}

/// A snap never leaves the bounds, and moves by one position at most.
pub proof fn snap_keeps_bounds(
    feel: KnobFeel,
    position: int,
    angle: F64Bits,
    down: F64Bits,
    up: F64Bits,
)
    requires
        feel.allows(position),
    ensures
        feel.allows(position + feel.snap_of(position, angle, down, up).step()),
        -1 <= feel.snap_of(position, angle, down, up).step() <= 1,
{
}

/// Whatever happens, the knob stays within the bounds of the mode in play.
pub proof fn always_within_bounds(events: Seq<TickEvent>)
    ensures
        HapticView::fresh().after(events).sound(),
    decreases events.len(),
{
    if events.len() > 0 {
        always_within_bounds(events.drop_last());
        let before = HapticView::fresh().after(events.drop_last());
        if let TickEvent::Requested { index } = events.last() {
            super::presets::presets_are_sound(selected(index) as int);
        }
    }
}

/// Hysteresis: the way back from a detent just snapped to is twice the snap point
/// wide, whatever the bias.
pub proof fn snap_back_is_two_snap_points_away(feel: KnobFeel, position: int)
    requires
        feel.negatable(),
    ensures
        feel.snap_down(position).total() - feel.snap_up(position - 1).total() == 2
            * feel.snap_point_milli,
{
}

/// No mode chatters: a knob that just snapped, and thereby moved one width closer to
/// the other snap point, is not beyond that one.
pub proof fn presets_do_not_chatter(i: int, position: int)
    requires
        0 <= i < PRESETS,
    ensures
        presets()[i].snap_down(position).total() - 1000 >= presets()[i].snap_up(
            position - 1,
        ).total(),
        presets()[i].snap_up(position).total() + 1000 <= presets()[i].snap_down(
            position + 1,
        ).total(),
{
    super::presets::presets_are_sound(i);
}

/// The knob feels the same in both directions about position zero.
pub proof fn snap_points_mirror(feel: KnobFeel, position: int)
    requires
        feel.negatable(),
    ensures
        feel.snap_up(-position).total() == -feel.snap_down(position).total(),
{
}

/// With a bias, turning away from position zero takes at least as much as turning
/// back to it.
pub proof fn bias_favours_the_center(feel: KnobFeel, position: int)
    requires
        feel.negatable(),
        feel.snap_point_bias_milli >= 0,
        position > 0,
    ensures
        feel.snap_down(position).total() <= -feel.snap_up(position).total(),
{
}

/// An unbounded mode has no endstop and its position count is 0; a bounded one
/// counts at least one position.
pub proof fn unbounded_has_no_endstop(feel: KnobFeel, position: int, angle: F64Bits)
    ensures
        !feel.bounded() ==> !feel.past_end(position, angle) && feel.count() == 0,
        feel.bounded() ==> feel.count() > 0,
{
}

/// Only an end position can be past an end, and the spring acts there in every
/// mode.
pub proof fn endstops_are_at_the_ends(feel: KnobFeel, position: int, angle: F64Bits)
    ensures
        feel.past_end(position, angle) ==> position == feel.min_position || position
            == feel.max_position,
        feel.past_end(position, angle) ==> feel.spring_acts(position, true),
{
}

/// Asking again for the mode in play changes nothing.
pub proof fn same_request_is_ignored(h: HapticView, index: usize)
    ensures
        h.requested(index).requested(index) == h.requested(index),
{
}

/// A knob in motion does not drift, nor one that came to rest within the delay.
pub proof fn drift_needs_rest(h: HapticView, speed: F64Bits, offset: F64Bits, now_ns: u64)
    ensures
        F64Bits::of(IDLE_VELOCITY_RAD_PER_SEC).lt(speed) ==> !h.rested(speed, now_ns).drifts(
            offset,
            now_ns,
        ),
        h.idle_since_ns is None ==> !h.rested(speed, now_ns).drifts(offset, now_ns),
{
}

/// The commanded torque never exceeds the limit, and is none at runaway speed.
pub proof fn torque_is_limited(velocity: F64Bits, torque: F64Bits, limit: F64Bits)
    requires
        !torque.is_nan(),
        !limit.is_nan(),
        !limit.is_signed(),
    ensures
        !torque_of(velocity, torque, limit).is_nan(),
        -limit.rank() <= torque_of(velocity, torque, limit).rank() <= limit.rank(),
        F64Bits::of(MAX_VEL_RAD_S).lt(velocity.magnitude()) ==> torque_of(velocity, torque, limit)
            == F64Bits::zero(),
{
}

/// The limits only ever lower a torque: what is commanded is no stronger than what was
/// computed.
pub proof fn limits_never_raise_torque(velocity: F64Bits, torque: F64Bits, limit: F64Bits)
    requires
        !torque.is_nan(),
        !limit.is_nan(),
        !limit.is_signed(),
    ensures
        torque_of(velocity, torque, limit).magnitude().rank() <= torque.magnitude().rank(),
{
}

/// A bound on the computed torque, such as ten times the strength scale, is a bound on
/// the commanded one.
pub proof fn computed_bound_holds_for_the_command(
    velocity: F64Bits,
    scaled: F64Bits,
    limit: F64Bits,
    bound: F64Bits,
)
    requires
        !scaled.is_nan(),
        !limit.is_nan(),
        !limit.is_signed(),
        scaled.magnitude().rank() <= bound.rank(),
    ensures
        torque_of(velocity, scaled, limit).magnitude().rank() <= bound.rank(),
{
    limits_never_raise_torque(velocity, scaled, limit);
}

/// The streamed bytes tell torques and limits apart.
pub proof fn payload_is_injective(t1: F32Bits, p1: u16, t2: F32Bits, p2: u16)
    requires
        stream_payload(t1, p1) == stream_payload(t2, p2),
    ensures
        t1 == t2,
        p1 == p2,
{
    let a = stream_payload(t1, p1);
    let b = stream_payload(t2, p2);
    payload_bytes(t1, p1);
    payload_bytes(t2, p2);
    assert(a[0] == b[0] && a[1] == b[1] && a[2] == b[2] && a[3] == b[3]);
    assert(a[6] == b[6] && a[7] == b[7]);
}

/// Torque and limit put together again from the streamed bytes.
proof fn payload_bytes(t: F32Bits, p: u16)
    ensures
        ({
            let d = stream_payload(t, p);
            &&& t.bits == d[0] + 0x100 * d[1] + 0x1_0000 * d[2] + 0x100_0000 * d[3]
            &&& p == d[6] + 0x100 * d[7]
        }),
{
    let v = t.bits as int;
    let d = stream_payload(t, p);
    assert(d[0] == v % 0x100);
    assert(d[1] == v / 0x100 % 0x100);
    assert(d[2] == v / 0x1_0000 % 0x100);
    assert(d[3] == v / 0x100_0000 % 0x100);
    assert(d[6] == p % 0x100);
    assert(d[7] == p / 0x100);
}

/// The derivative gain per strength lies between its two ends, and a wider detent is
/// damped no more than a narrower one.
pub proof fn damping_falls_with_width(a: KnobFeel, b: KnobFeel)
    requires
        a.position_width_nanodeg <= b.position_width_nanodeg,
    ensures
        20_000_000_000 <= b.damping() <= a.damping() <= 80_000_000_000,
{
}

} // verus!
