//! A running knob: what the panel asks of it and what it reports.

use vstd::prelude::*;

use super::haptic::{
    fault_text, health_of, is_enabled, stream_payload, torque_frame, Haptic, HapticView, Snap,
};
use super::presets::{select, selected, KnobConfig, KnobFeel, PRESETS};
use crate::bits::{F32Bits, F64Bits};
use crate::can::{CanError, CanFrame, CanId, FrameKind};
use crate::motor::LiveState;

verus! {

/// Default torque per unit of controller output (Nm): 0.15.
pub const DEFAULT_STRENGTH_SCALE: u64 = 0x3FC3_3333_3333_3333;

/// Default host-side torque limit (Nm): 2.
pub const DEFAULT_TORQUE_LIMIT_NM: u64 = 0x4000_0000_0000_0000;

/// Default motor-side torque limit, per mille of peak.
pub const DEFAULT_MAX_TORQUE_PERMILLE: u16 = 700;

/// The full scale of the motor-side limit.
pub const FULL_TORQUE_PERMILLE: u16 = 1000;

/// Parameters that can be changed while the knob runs, in every mode.
#[derive(Debug, Clone, Copy, PartialEq, Eq, Structural)]
pub struct Tuning {
    /// Torque per unit of controller output (Nm): the overall strength.
    pub strength_scale: F64Bits,
    /// Host-side torque limit (Nm).
    pub torque_limit_nm: F64Bits,
    /// Motor-side torque limit, per mille of peak.
    pub max_torque_permille: u16,
}

impl Tuning {
    /// The parameters a knob starts with.
    pub open spec fn initial() -> Self {
        Tuning {
            strength_scale: F64Bits { bits: DEFAULT_STRENGTH_SCALE },
            torque_limit_nm: F64Bits { bits: DEFAULT_TORQUE_LIMIT_NM },
            max_torque_permille: DEFAULT_MAX_TORQUE_PERMILLE,
        }
    }

    /// Strength and limit are numbers and not negative, and the motor-side limit is
    /// at most full scale.
    pub open spec fn sound(self) -> bool {
        &&& !self.strength_scale.is_nan() && !self.strength_scale.is_signed()
        &&& !self.torque_limit_nm.is_nan() && !self.torque_limit_nm.is_signed()
        &&& self.max_torque_permille <= FULL_TORQUE_PERMILLE
    }
}

impl Default for Tuning {
    fn default() -> (t: Self)
        ensures
            t == Tuning::initial(),
            t.sound(),
    {
        Tuning {
            strength_scale: F64Bits { bits: DEFAULT_STRENGTH_SCALE },
            torque_limit_nm: F64Bits { bits: DEFAULT_TORQUE_LIMIT_NM },
            max_torque_permille: DEFAULT_MAX_TORQUE_PERMILLE,
        }
    }
}

/// What the panel shows of a knob.
#[derive(Debug)]
pub struct SmartKnobState {
    pub running: bool,
    /// Index of the mode in play.
    pub config_index: usize,
    /// The mode in play, so that the dial can draw its detents and bounds.
    pub config: Option<KnobConfig>,
    /// Logical position.
    pub current_position: i32,
    pub min_position: i32,
    pub max_position: i32,
    /// 0: unbounded.
    pub num_positions: i32,
    /// Pointer between detents: minus the offset from the detent center, per width.
    pub sub_position_unit: F64Bits,
    /// Continuous shaft angle (rad).
    pub shaft_angle_rad: F64Bits,
    pub shaft_velocity_rev_per_s: F64Bits,
    /// The commanded torque, and what the motor reports.
    pub applied_torque_nm: F64Bits,
    pub measured_torque_nm: Option<F32Bits>,
    pub at_endstop: bool,
    pub node_id: u8,
    pub online: bool,
    pub enabled: bool,
    pub driver_temp_c: Option<F32Bits>,
    pub motor_temp_c: Option<F32Bits>,
    pub error: Option<String>,
    pub strength_scale: F64Bits,
    pub torque_limit_nm: F64Bits,
    pub max_torque_permille: u16,
}

/// A knob's report as a mathematical value.
#[verifier::ext_equal]
pub struct Report {
    pub running: bool,
    pub config_index: usize,
    pub config: Option<KnobFeel>,
    pub current_position: int,
    pub min_position: int,
    pub max_position: int,
    pub num_positions: int,
    pub sub_position_unit: F64Bits,
    pub shaft_angle_rad: F64Bits,
    pub shaft_velocity_rev_per_s: F64Bits,
    pub applied_torque_nm: F64Bits,
    pub measured_torque_nm: Option<F32Bits>,
    pub at_endstop: bool,
    pub node_id: u8,
    pub online: bool,
    pub enabled: bool,
    pub driver_temp_c: Option<F32Bits>,
    pub motor_temp_c: Option<F32Bits>,
    pub error: Option<Seq<char>>,
    pub strength_scale: F64Bits,
    pub torque_limit_nm: F64Bits,
    pub max_torque_permille: u16,
}

impl View for SmartKnobState {
    type V = Report;

    open spec fn view(&self) -> Report {
        Report {
            running: self.running,
            config_index: self.config_index,
            config: match self.config {
                Some(c) => Some(c@),
                None => None,
            },
            current_position: self.current_position as int,
            min_position: self.min_position as int,
            max_position: self.max_position as int,
            num_positions: self.num_positions as int,
            sub_position_unit: self.sub_position_unit,
            shaft_angle_rad: self.shaft_angle_rad,
            shaft_velocity_rev_per_s: self.shaft_velocity_rev_per_s,
            applied_torque_nm: self.applied_torque_nm,
            measured_torque_nm: self.measured_torque_nm,
            at_endstop: self.at_endstop,
            node_id: self.node_id,
            online: self.online,
            enabled: self.enabled,
            driver_temp_c: self.driver_temp_c,
            motor_temp_c: self.motor_temp_c,
            error: match self.error {
                Some(e) => Some(e@),
                None => None,
            },
            strength_scale: self.strength_scale,
            torque_limit_nm: self.torque_limit_nm,
            max_torque_permille: self.max_torque_permille,
        }
    }
}

impl Clone for SmartKnobState {
    fn clone(&self) -> (r: Self)
        ensures
            r@ == self@,
    {
        SmartKnobState {
            running: self.running,
            config_index: self.config_index,
            config: match &self.config {
                Some(c) => Some(c.clone()),
                None => None,
            },
            current_position: self.current_position,
            min_position: self.min_position,
            max_position: self.max_position,
            num_positions: self.num_positions,
            sub_position_unit: self.sub_position_unit,
            shaft_angle_rad: self.shaft_angle_rad,
            shaft_velocity_rev_per_s: self.shaft_velocity_rev_per_s,
            applied_torque_nm: self.applied_torque_nm,
            measured_torque_nm: self.measured_torque_nm,
            at_endstop: self.at_endstop,
            node_id: self.node_id,
            online: self.online,
            enabled: self.enabled,
            driver_temp_c: self.driver_temp_c,
            motor_temp_c: self.motor_temp_c,
            error: match &self.error {
                Some(e) => Some(e.clone()),
                None => None,
            },
            strength_scale: self.strength_scale,
            torque_limit_nm: self.torque_limit_nm,
            max_torque_permille: self.max_torque_permille,
        }
    }
}

impl Report {
    /// Nothing known, nothing running.
    pub open spec fn blank() -> Self {
        Report {
            running: false,
            config_index: 0,
            config: None,
            current_position: 0,
            min_position: 0,
            max_position: 0,
            num_positions: 0,
            sub_position_unit: F64Bits::zero(),
            shaft_angle_rad: F64Bits::zero(),
            shaft_velocity_rev_per_s: F64Bits::zero(),
            applied_torque_nm: F64Bits::zero(),
            measured_torque_nm: None,
            at_endstop: false,
            node_id: 0,
            online: false,
            enabled: false,
            driver_temp_c: None,
            motor_temp_c: None,
            error: None,
            strength_scale: F64Bits::zero(),
            torque_limit_nm: F64Bits::zero(),
            max_torque_permille: 0,
        }
    }
}

impl Default for SmartKnobState {
    fn default() -> (s: Self)
        ensures
            s@ == Report::blank(),
    {
        let zero: F64Bits = F64Bits { bits: 0 };
        SmartKnobState {
            running: false,
            config_index: 0,
            config: None,
            current_position: 0,
            min_position: 0,
            max_position: 0,
            num_positions: 0,
            sub_position_unit: zero,
            shaft_angle_rad: zero,
            shaft_velocity_rev_per_s: zero,
            applied_torque_nm: zero,
            measured_torque_nm: None,
            at_endstop: false,
            node_id: 0,
            online: false,
            enabled: false,
            driver_temp_c: None,
            motor_temp_c: None,
            error: None,
            strength_scale: zero,
            torque_limit_nm: zero,
            max_torque_permille: 0,
        }
    }
}

/// What one tick computed and read.
#[derive(Debug, Clone, Copy, PartialEq, Eq, Structural)]
pub struct Tick {
    pub sub_position_unit: F64Bits,
    pub shaft_angle_rad: F64Bits,
    pub shaft_velocity_rev_per_s: F64Bits,
    pub applied_torque_nm: F64Bits,
    /// Offset from the detent center after the snap (rad).
    pub angle_to_detent_center: F64Bits,
    /// The motor's state that the tick started from.
    pub live: LiveState,
    /// The parameters that the tick started from.
    pub tuning: Tuning,
}

/// The report of a tick.
pub open spec fn report_of(node_id: u8, h: HapticView, tick: Tick) -> Report {
    let feel = h.feel;
    Report {
        running: true,
        config_index: h.active->Some_0,
        config: Some(feel),
        current_position: h.position,
        min_position: feel.min_position as int,
        max_position: feel.max_position as int,
        num_positions: feel.count(),
        sub_position_unit: tick.sub_position_unit,
        shaft_angle_rad: tick.shaft_angle_rad,
        shaft_velocity_rev_per_s: tick.shaft_velocity_rev_per_s,
        applied_torque_nm: tick.applied_torque_nm,
        measured_torque_nm: tick.live.measurements.torque_nm,
        at_endstop: feel.past_end(h.position, tick.angle_to_detent_center),
        node_id,
        online: tick.live.connection.online,
        enabled: health_of(tick.live.logic).0,
        driver_temp_c: tick.live.measurements.driver_temp_c,
        motor_temp_c: tick.live.measurements.motor_temp_c,
        error: health_of(tick.live.logic).1,
        strength_scale: tick.tuning.strength_scale,
        torque_limit_nm: tick.tuning.torque_limit_nm,
        max_torque_permille: tick.tuning.max_torque_permille,
    }
}

/// What stopping a knob takes.
#[derive(Debug)]
pub enum StopStep {
    /// Wait until the loop has ended and reported so.
    AwaitLoop,
    /// Zero the torque.
    Send(CanFrame),
    /// Disable the motor. A failure is not reported to the caller of the stop.
    Disable { node_id: u8 },
}

/// `steps` end the loop, then zero the torque, then disable the motor.
pub open spec fn stops(steps: Seq<StopStep>, node_id: u8, max_torque_permille: u16) -> bool {
    &&& steps.len() == 3
    &&& steps[0] == StopStep::AwaitLoop
    &&& steps[1] matches StopStep::Send(f) && commands_zero(f, node_id, max_torque_permille)
    &&& steps[2] == (StopStep::Disable { node_id })
}

/// The frame commands a torque of zero to the node.
pub open spec fn commands_zero(f: CanFrame, node_id: u8, max_torque_permille: u16) -> bool {
    &&& f.well_formed()
    &&& f.id == CanId::Standard((0x200 + node_id) as u16)
    &&& f.kind == (FrameKind::Fd { brs: true })
    &&& f.data@ == stream_payload(F32Bits { bits: 0 }, max_torque_permille)
}

/// A running knob on one motor.
pub struct SmartKnob {
    node_id: u8,
    requested: usize,
    tuning: Tuning,
    state: SmartKnobState,
    running: bool,
}

/// A knob as a mathematical value.
#[verifier::ext_equal]
pub struct KnobView {
    pub node_id: u8,
    /// The mode asked for.
    pub requested: usize,
    pub tuning: Tuning,
    pub report: Report,
    /// The loop is to go on.
    pub running: bool,
}

impl KnobView {
    /// A knob that was just started.
    pub open spec fn started(node_id: u8, config_index: usize) -> Self {
        KnobView {
            node_id,
            requested: selected(config_index),
            tuning: Tuning::initial(),
            report: Report { node_id, config_index: selected(config_index), ..Report::blank() },
            running: true,
        }
    }

    /// The mode exists, the parameters are sound, and the report names the node.
    pub open spec fn inv(self) -> bool {
        &&& self.requested < PRESETS
        &&& self.tuning.sound()
        &&& self.report.node_id == self.node_id
    }
}

impl View for SmartKnob {
    type V = KnobView;

    closed spec fn view(&self) -> KnobView {
        KnobView {
            node_id: self.node_id,
            requested: self.requested,
            tuning: self.tuning,
            report: self.state@,
            running: self.running,
        }
    }
}

impl SmartKnob {
    /// A knob on node `nid`, whose motor was brought up. An index beyond the modes
    /// stands for the last one.
    pub fn start(nid: u8, config_index: usize) -> (k: Self)
        ensures
            k@ == KnobView::started(nid, config_index),
            k@.inv(),
    {
        let requested: usize = select(config_index);
        let mut state: SmartKnobState = SmartKnobState::default();
        state.node_id = nid;
        state.config_index = requested;
        SmartKnob { node_id: nid, requested, tuning: Tuning::default(), state, running: true }
    }

    /// Asks for another mode; an index beyond the modes stands for the last one.
    pub fn set_config(&mut self, index: usize)
        requires
            old(self)@.inv(),
        ensures
            final(self)@ == (KnobView { requested: selected(index), ..old(self)@ }),
            final(self)@.inv(),
    {
        self.requested = select(index);
    }

    /// Sets the live parameters: strength and limit at least zero, and the
    /// motor-side limit at most full scale.
    pub fn set_tuning(
        &mut self,
        strength_scale: F64Bits,
        torque_limit_nm: F64Bits,
        max_torque_permille: u16,
    )
        requires
            old(self)@.inv(),
        ensures
            final(self)@ == (KnobView { tuning: final(self)@.tuning, ..old(self)@ }),
            final(self)@.tuning.strength_scale == strength_scale.at_least_zero(),
            final(self)@.tuning.torque_limit_nm == torque_limit_nm.at_least_zero(),
            final(self)@.tuning.max_torque_permille == (if max_torque_permille
                <= FULL_TORQUE_PERMILLE {
                max_torque_permille
            } else {
                FULL_TORQUE_PERMILLE
            }),
            final(self)@.inv(),
    {
        self.tuning = Tuning {
            strength_scale: strength_scale.max_zero(),
            torque_limit_nm: torque_limit_nm.max_zero(),
            max_torque_permille: if max_torque_permille <= FULL_TORQUE_PERMILLE {
                max_torque_permille
            } else {
                FULL_TORQUE_PERMILLE
            },
        };
    }

    /// The last report.
    pub fn state(&self) -> (s: SmartKnobState)
        ensures
            s@ == self@.report,
    {
        self.state.clone()
    }

    pub fn node_id(&self) -> (n: u8)
        ensures
            n == self@.node_id,
    {
        self.node_id
    }

    /// The mode asked for.
    pub fn requested(&self) -> (i: usize)
        ensures
            i == self@.requested,
    {
        self.requested
    }

    /// The live parameters.
    pub fn tuning(&self) -> (t: Tuning)
        ensures
            t == self@.tuning,
    {
        self.tuning
    }

    /// Whether the loop is to go on.
    pub fn is_running(&self) -> (r: bool)
        ensures
            r == self@.running,
    {
        self.running
    }

    /// Reports a tick. The mode in play was entered before.
    pub fn publish(&mut self, h: &Haptic, tick: &Tick)
        requires
            old(self)@.inv(),
            h@.inv(),
            h@.active is Some,
        ensures
            final(self)@ == (KnobView {
                report: report_of(old(self)@.node_id, h@, *tick),
                ..old(self)@
            }),
            final(self)@.inv(),
    {
        let config: KnobConfig = h.config().clone();
        let config_index: usize = match h.active() {
            Some(i) => i,
            None => 0,
        };
        let (min_position, max_position): (i32, i32) = (config.min_position, config.max_position);
        self.state = SmartKnobState {
            running: true,
            config_index,
            config: Some(config),
            current_position: h.position(),
            min_position,
            max_position,
            num_positions: h.num_positions(),
            sub_position_unit: tick.sub_position_unit,
            shaft_angle_rad: tick.shaft_angle_rad,
            shaft_velocity_rev_per_s: tick.shaft_velocity_rev_per_s,
            applied_torque_nm: tick.applied_torque_nm,
            measured_torque_nm: tick.live.measurements.torque_nm,
            at_endstop: h.at_endstop(tick.angle_to_detent_center),
            node_id: self.node_id,
            online: tick.live.connection.online,
            enabled: is_enabled(tick.live.logic),
            driver_temp_c: tick.live.measurements.driver_temp_c,
            motor_temp_c: tick.live.measurements.motor_temp_c,
            error: fault_text(tick.live.logic),
            strength_scale: tick.tuning.strength_scale,
            torque_limit_nm: tick.tuning.torque_limit_nm,
            max_torque_permille: tick.tuning.max_torque_permille,
        };
    }

    /// The frame that zeroes the torque. It can always be built.
    pub fn stop_frame(&self) -> (r: Result<CanFrame, CanError>)
        ensures
            r matches Ok(f) && commands_zero(
                f,
                self@.node_id,
                self@.tuning.max_torque_permille,
            ),
    {
        torque_frame(self.node_id, F32Bits { bits: 0 }, self.tuning.max_torque_permille)
    }

    /// Asks the loop to end. Returns what is to be done then, in order: wait for the
    /// end of the loop, zero the torque, disable the motor.
    pub fn stop(&mut self) -> (steps: Vec<StopStep>)
        requires
            old(self)@.inv(),
        ensures
            final(self)@ == (KnobView { running: false, ..old(self)@ }),
            final(self)@.inv(),
            stops(steps@, old(self)@.node_id, old(self)@.tuning.max_torque_permille),
    {
        self.running = false;
        let mut steps: Vec<StopStep> = Vec::new();
        steps.push(StopStep::AwaitLoop);
        if let Ok(frame) = self.stop_frame() {
            steps.push(StopStep::Send(frame));
        }
        steps.push(StopStep::Disable { node_id: self.node_id });
        steps
    }

    /// The loop has ended: the last report stays, no longer as a running knob.
    pub fn ended(&mut self)
        requires
            old(self)@.inv(),
        ensures
            final(self)@ == (KnobView {
                report: Report { running: false, ..old(self)@.report },
                ..old(self)@
            }),
            final(self)@.inv(),
    {
        self.state.running = false;
    }
}

/// A motor reports a fault or being enabled, never both.
pub proof fn fault_excludes_enabled(node_id: u8, h: HapticView, tick: Tick)
    ensures
        report_of(node_id, h, tick).enabled ==> report_of(node_id, h, tick).error is None,
{
}

/// A report shows the mode of its index, and a position within its bounds.
pub proof fn report_is_consistent(node_id: u8, h: HapticView, tick: Tick)
    requires
        h.inv(),
        h.active is Some,
    ensures
        ({
            let r = report_of(node_id, h, tick);
            &&& r.config_index < PRESETS
            &&& r.config == Some(super::presets::presets()[r.config_index as int])
            &&& r.num_positions > 0 ==> r.min_position <= r.current_position <= r.max_position
            &&& r.num_positions > 0 ==> r.num_positions == r.max_position - r.min_position + 1
            &&& r.num_positions == 0 ==> !r.at_endstop
        }),
{
}

/// A tick that takes up a request reports the mode that was asked for.
pub proof fn report_follows_the_request(
    node_id: u8,
    h: HapticView,
    index: usize,
    speed: F64Bits,
    now_ns: u64,
    snap: Snap,
    tick: Tick,
)
    ensures
        ({
            let r = report_of(
                node_id,
                h.requested(index).rested(speed, now_ns).snapped(snap),
                tick,
            );
            r.config_index == selected(index)
        }),
{
}

} // verus!
