//! What the knob is for, told by positions, angles and bytes alone.

use vstd::prelude::*;

use super::bringup::{
    bringup, paced, stream_entries, stream_mapping, InitStep, Startup, Step,
};
use super::haptic::{
    health_of, stream_payload, torque_of, turn_of, HapticView, Snap, Turn,
};
use super::knob::{
    commands_zero, report_of, stops, KnobView, Report, SmartKnobState, StopStep, Tick, Tuning,
};
use super::presets::{presets, selected, KnobConfig, KnobFeel};
use crate::bits::{F32Bits, F64Bits};
use crate::can::{CanFrame, CanId, FrameKind};
use crate::canopen::{Mapping, ObjectWrite, PdoEntry};
use crate::motor::{Logic, MotorErrorKind, MotorMode};
use crate::text::{decimal_text, upper4_text};

verus! {

/// The number with this pattern.
pub open spec fn f64_of(bits: u64) -> F64Bits {
    F64Bits { bits }
}

/// Turned far enough, the knob snaps by exactly one position: above the lower snap point
/// down, below the upper one up. Without bounds (the largest position below the smallest)
/// that is so at every position; with bounds, at every position but the end in that
/// direction, where it stays. Between the snap points it stays.
pub proof fn turning_far_enough_snaps(
    h: HapticView,
    angle: F64Bits,
    down: F64Bits,
    up: F64Bits,
)
    ensures
        ({
            let free = h.feel.max_position < h.feel.min_position;
            let after = h.snapped(h.feel.snap_of(h.position, angle, down, up));
            let turned_down = down.lt(angle);
            let turned_up = angle.lt(up);
            &&& free && turned_down ==> after.position == h.position - 1
            &&& free && turned_up && !turned_down ==> after.position == h.position + 1
            &&& !free && turned_down && h.position > h.feel.min_position ==> after.position
                == h.position - 1
            &&& !free && turned_up && !turned_down && h.position < h.feel.max_position
                ==> after.position == h.position + 1
            &&& !free && turned_down && !turned_up && h.position <= h.feel.min_position
                ==> after.position == h.position
            &&& !free && turned_up && !turned_down && h.position >= h.feel.max_position
                ==> after.position == h.position
            &&& !turned_down && !turned_up ==> after.position == h.position
            &&& after.feel == h.feel
            &&& after.active == h.active
            &&& after.idle_since_ns == h.idle_since_ns
        }),
{
}

/// A snap and the position say the same: down is one less, up is one more, and staying is
/// the same position.
pub proof fn snaps_and_positions(h: HapticView, snap: Snap)
    ensures
        h.snapped(Snap::Down).position == h.position - 1,
        h.snapped(Snap::Up).position == h.position + 1,
        h.snapped(Snap::Stay) == h,
        h.snapped(snap).position == h.position ==> snap == Snap::Stay,
{
}

/// A free knob turned down and then up as far is where it was, and the other way round.
pub proof fn free_spin_undoes_itself(
    h: HapticView,
    down_angle: F64Bits,
    up_angle: F64Bits,
    down: F64Bits,
    up: F64Bits,
)
    requires
        h.feel.max_position < h.feel.min_position,
        down.lt(down_angle),
        up_angle.lt(up),
        !down.lt(up_angle),
    ensures
        ({
            let lower = h.snapped(h.feel.snap_of(h.position, down_angle, down, up));
            let back = lower.snapped(lower.feel.snap_of(lower.position, up_angle, down, up));
            &&& lower.position == h.position - 1
            &&& back == h
        }),
{
}

/// Snap points: one snap point out either way, moved outward by the bias on the way from
/// position zero and inward on the way to it.
pub proof fn snap_points(feel: KnobFeel, position: int)
    requires
        feel.snap_point_milli > i32::MIN,
        feel.snap_point_bias_milli > i32::MIN,
    ensures
        feel.snap_down(position).point_milli == feel.snap_point_milli,
        feel.snap_up(position).point_milli == -feel.snap_point_milli,
        position <= 0 ==> feel.snap_down(position).bias_milli == feel.snap_point_bias_milli,
        position > 0 ==> feel.snap_down(position).bias_milli == -feel.snap_point_bias_milli,
        position >= 0 ==> feel.snap_up(position).bias_milli == -feel.snap_point_bias_milli,
        position < 0 ==> feel.snap_up(position).bias_milli == feel.snap_point_bias_milli,
        feel.negatable(),
{
}

/// In every bounded mode, one with a single position included, the knob is past an end
/// where it is turned up from the smallest position or down from the largest, however
/// little; and nowhere else. A free knob never is.
pub proof fn ends_push_back(feel: KnobFeel, position: int, angle: F64Bits)
    ensures
        ({
            let positive = 0 < angle.bits <= 0x7FF0_0000_0000_0000;
            let negative = 0x8000_0000_0000_0000 < angle.bits <= 0xFFF0_0000_0000_0000;
            let bounded = feel.min_position <= feel.max_position;
            &&& bounded && position == feel.min_position && positive ==> feel.past_end(
                position,
                angle,
            )
            &&& bounded && position == feel.max_position && negative ==> feel.past_end(
                position,
                angle,
            )
            &&& feel.past_end(position, angle) ==> bounded && (positive && position
                == feel.min_position || negative && position == feel.max_position)
        }),
{
}

/// What pushes: past an end four times the endstop strength, elsewhere four times the
/// detent strength; and elsewhere, in a mode with listed detents, only at those.
pub proof fn springs(feel: KnobFeel, position: int, i: int)
    ensures
        feel.p_gain(true) == 4 * feel.endstop_strength_milli,
        feel.p_gain(false) == 4 * feel.detent_strength_milli,
        feel.spring_acts(position, true),
        feel.detent_positions.len() == 0 ==> feel.spring_acts(position, false),
        0 <= i < feel.detent_positions.len() && feel.detent_positions[i] == position
            ==> feel.spring_acts(position, false),
        feel.detent_positions.len() > 0 && !feel.detent_positions.map_values(
            |p: i32| p as int,
        ).contains(position) ==> !feel.spring_acts(position, false),
        feel.magnetic() <==> feel.detent_positions.len() > 0,
{
    let listed = feel.detent_positions.map_values(|p: i32| p as int);
    if feel.detent_positions.len() > 0 && feel.spring_acts(position, false) {
        let j = choose|j: int|
            0 <= j < feel.detent_positions.len() && feel.detent_positions[j] == position;
        assert(listed[j] == position);
    }
}

/// Damping is 0.08 at three degrees and less, 0.02 at eight and more, and between them on
/// the straight line through these two.
pub proof fn damping_is_interpolated(feel: KnobFeel)
    ensures
        ({
            let w = feel.position_width_nanodeg as int;
            &&& w <= 3_000_000_000 ==> feel.damping() == 80_000_000_000
            &&& w >= 8_000_000_000 ==> feel.damping() == 20_000_000_000
            &&& 3_000_000_000 <= w <= 8_000_000_000 ==> (feel.damping() - 20_000_000_000) * 5
                == (8_000_000_000 - w) * 60
        }),
{
}

/// Readings that wrap at one revolution are unwrapped by the shorter way: a step of more
/// than half a revolution is one less, of less than minus half one more, and any other is
/// taken as it is.
pub proof fn unwrapping(delta: F64Bits)
    ensures
        f64_of(0x3FE0_0000_0000_0000).lt(delta) <==> turn_of(delta) == Turn::MinusOne,
        delta.lt(f64_of(0xBFE0_0000_0000_0000)) <==> turn_of(delta) == Turn::PlusOne,
        turn_of(delta) == Turn::MinusOne <==> turn_of(delta.negated()) == Turn::PlusOne,
{
}

/// Up to 60 rad/s a torque within the limit is commanded as it was computed, one above the
/// limit as the limit, one below minus the limit as minus the limit. Beyond that speed,
/// either way round, none is.
pub proof fn computed_torque_is_commanded(velocity: F64Bits, torque: F64Bits, limit: F64Bits)
    requires
        !limit.is_nan(),
        !limit.is_signed(),
    ensures
        ({
            let runaway = f64_of(0x404E_0000_0000_0000).lt(velocity) || velocity.lt(
                f64_of(0xC04E_0000_0000_0000),
            );
            let commanded = torque_of(velocity, torque, limit);
            &&& !runaway && !torque.lt(limit.negated()) && !limit.lt(torque) ==> commanded
                == torque
            &&& !runaway && limit.lt(torque) ==> commanded == limit
            &&& !runaway && torque.lt(limit.negated()) ==> commanded == limit.negated()
            &&& runaway ==> commanded.bits == 0
        }),
{
}

/// Command and controller act the same way round: turning motion and torque about turns
/// the command about, unless it is cut.
pub proof fn torque_is_symmetric(velocity: F64Bits, torque: F64Bits, limit: F64Bits)
    requires
        !limit.is_nan(),
        !limit.is_signed(),
        limit.bits > 0,
    ensures
        !f64_of(0x404E_0000_0000_0000).lt(velocity.magnitude()) ==> torque_of(
            velocity.negated(),
            torque.negated(),
            limit,
        ) == torque_of(velocity, torque, limit).negated(),
{
}

/// The streamed frame: the torque's pattern in the first four bytes, low byte first, two
/// zero bytes, and the limit in the last two, low byte first.
pub proof fn streamed_bytes(torque: F32Bits, permille: u16)
    ensures
        ({
            let d = stream_payload(torque, permille);
            &&& d.len() == 8
            &&& d[0] + 0x100 * d[1] + 0x1_0000 * d[2] + 0x100_0000 * d[3] == torque.bits
            &&& d[4] == 0 && d[5] == 0
            &&& d[6] + 0x100 * d[7] == permille
        }),
{
    crate::canopen::le32_reads_back(torque.bits as int);
    let d = stream_payload(torque, permille);
    let b = crate::canopen::le32(torque.bits as int);
    assert(d[0] == b[0] && d[1] == b[1] && d[2] == b[2] && d[3] == b[3]);
}

/// Bounds of a mode: free where the largest position lies below the smallest, with 0
/// positions; else as many as from one end to the other, the ends included. A mode is
/// entered at its own position where its bounds allow that, else at the nearer end.
pub proof fn bounds_of_a_mode(feel: KnobFeel, position: int)
    ensures
        feel.bounded() <==> feel.min_position <= feel.max_position,
        feel.max_position < feel.min_position ==> feel.count() == 0 && feel.allows(position)
            && feel.entry() == feel.position,
        feel.min_position <= feel.max_position ==> {
            &&& feel.count() == feel.max_position - feel.min_position + 1
            &&& feel.allows(position) <==> feel.min_position <= position <= feel.max_position
            &&& feel.allows(feel.entry())
            &&& feel.allows(feel.position as int) ==> feel.entry() == feel.position
            &&& feel.position < feel.min_position ==> feel.entry() == feel.min_position
            &&& feel.position > feel.max_position ==> feel.entry() == feel.max_position
        },
{
}

/// An index stands for the mode of that number, or for the last one.
pub proof fn indices_stand_for_modes(index: usize)
    ensures
        presets().len() == 11,
        index <= 10 ==> selected(index) == index,
        index > 10 ==> selected(index) == 10,
{
}

/// Asking for another mode enters it, at its own position and with the rest clock off;
/// asking for the one in play changes nothing.
pub proof fn requests_enter_modes(h: HapticView, index: usize)
    requires
        index <= 10,
    ensures
        h.active == Some(index) ==> h.requested(index) == h,
        h.active != Some(index) ==> ({
            let after = h.requested(index);
            &&& after.active == Some(index)
            &&& after.feel == presets()[index as int]
            &&& after.position == presets()[index as int].position
            &&& after.idle_since_ns is None
        }),
        HapticView::fresh().active is None,
        HapticView::fresh().position == 0,
        HapticView::fresh().idle_since_ns is None,
{
    super::presets::presets_are_sound(index as int);
}

/// The rest clock: motion above 0.05 rad/s stops it; slower motion starts it where it is
/// off and leaves it where it runs. Mode and position are untouched.
pub proof fn rest_clock(h: HapticView, speed: F64Bits, now_ns: u64)
    ensures
        ({
            let fast = f64_of(0x3FA9_9999_9999_999A).lt(speed);
            let after = h.rested(speed, now_ns);
            &&& fast ==> after.idle_since_ns is None
            &&& !fast && h.idle_since_ns is None ==> after.idle_since_ns == Some(now_ns)
            &&& !fast && h.idle_since_ns is Some ==> after.idle_since_ns == h.idle_since_ns
            &&& after.position == h.position && after.active == h.active && after.feel == h.feel
        }),
{
}

/// The detent drifts exactly where the knob has rested for more than half a second and
/// lies less than five degrees off, either way.
pub proof fn drifting(h: HapticView, speed: F64Bits, offset: F64Bits, start_ns: u64, now_ns: u64)
    requires
        h.idle_since_ns is None,
        !f64_of(0x3FA9_9999_9999_999A).lt(speed),
    ensures
        h.rested(speed, start_ns).rested(speed, now_ns).drifts(offset, now_ns) <==> ({
            &&& now_ns - start_ns > 500_000_000
            &&& offset.lt(f64_of(0x3FB6_5718_4AE7_4487))
            &&& f64_of(0xBFB6_5718_4AE7_4487).lt(offset)
        }),
        !h.drifts(offset, now_ns),
{
}

/// A motor is enabled exactly in its enabled state, and a fault is told exactly in its
/// error state, by category and four-digit code.
pub proof fn health(mode: MotorMode, kind: MotorErrorKind, raw_code: u16)
    ensures
        health_of(None) == (false, None::<Seq<char>>),
        health_of(Some(Logic::Disabled)) == (false, None::<Seq<char>>),
        health_of(Some(Logic::Enabled(mode))) == (true, None::<Seq<char>>),
        health_of(Some(Logic::Error { kind, raw_code })) == (
            false,
            Some(kind.text() + " (0x"@ + upper4_text(raw_code) + ")"@),
        ),
{
}

/// A report shows the tick: mode, position and bounds of the loop, what was computed, what
/// the motor says of itself, and the parameters in force.
pub proof fn reports_show_the_tick(node_id: u8, h: HapticView, tick: Tick)
    requires
        h.active is Some,
    ensures
        ({
            let r = report_of(node_id, h, tick);
            let m = tick.live.measurements;
            &&& r.running && r.node_id == node_id
            &&& Some(r.config_index) == h.active && r.config == Some(h.feel)
            &&& r.current_position == h.position
            &&& r.min_position == h.feel.min_position && r.max_position == h.feel.max_position
            &&& r.min_position <= r.max_position ==> r.num_positions == r.max_position
                - r.min_position + 1
            &&& r.max_position < r.min_position ==> r.num_positions == 0
            &&& r.sub_position_unit == tick.sub_position_unit
            &&& r.shaft_angle_rad == tick.shaft_angle_rad
            &&& r.shaft_velocity_rev_per_s == tick.shaft_velocity_rev_per_s
            &&& r.applied_torque_nm == tick.applied_torque_nm
            &&& r.measured_torque_nm == m.torque_nm
            &&& r.driver_temp_c == m.driver_temp_c && r.motor_temp_c == m.motor_temp_c
            &&& r.at_endstop == h.feel.past_end(h.position, tick.angle_to_detent_center)
            &&& r.online == tick.live.connection.online
            &&& r.enabled == (tick.live.logic is Some && tick.live.logic->Some_0 is Enabled)
            &&& r.error is Some <==> tick.live.logic is Some && tick.live.logic->Some_0 is Error
            &&& r.error == health_of(tick.live.logic).1
            &&& r.strength_scale == tick.tuning.strength_scale
            &&& r.torque_limit_nm == tick.tuning.torque_limit_nm
            &&& r.max_torque_permille == tick.tuning.max_torque_permille
        }),
{
}

/// A knob starts running, in the mode asked for, with the default parameters and a blank
/// report that names node and mode.
pub proof fn knobs_start(node_id: u8, index: usize)
    ensures
        ({
            let k = KnobView::started(node_id, index);
            &&& k.running && k.node_id == node_id
            &&& k.requested == selected(index)
            &&& k.tuning.strength_scale.bits == 0x3FC3_3333_3333_3333
            &&& k.tuning.torque_limit_nm.bits == 0x4000_0000_0000_0000
            &&& k.tuning.max_torque_permille == 700
            &&& k.report == (Report {
                node_id,
                config_index: selected(index),
                ..Report::blank()
            })
            &&& !k.report.running && k.report.config is None && k.report.error is None
            &&& k.report.applied_torque_nm.bits == 0 && k.report.current_position == 0
            &&& !k.report.online && !k.report.enabled && !k.report.at_endstop
            &&& k.report.num_positions == 0 && k.report.max_torque_permille == 0
        }),
{
}

/// Sound parameters are numbers from zero on, and at most full scale.
pub proof fn sound_parameters(t: Tuning)
    ensures
        t.sound() <==> t.strength_scale.bits <= 0x7FF0_0000_0000_0000 && t.torque_limit_nm.bits
            <= 0x7FF0_0000_0000_0000 && t.max_torque_permille <= 1000,
{
}

/// Stopping is waiting for the loop, then a frame to the node whose torque is zero and whose
/// limit is the one in force, then disabling that node.
pub proof fn stopping_zeroes_and_disables(steps: Seq<StopStep>, node_id: u8, permille: u16)
    requires
        stops(steps, node_id, permille),
    ensures
        steps.len() == 3,
        steps[0] is AwaitLoop,
        steps[1] is Send,
        steps[2] == (StopStep::Disable { node_id }),
        steps[1] matches StopStep::Send(f) ==> zero_torque(f, node_id, permille),
{
    let f = steps[1]->Send_0;
    streamed_bytes(F32Bits { bits: 0 }, permille);
    assert(commands_zero(f, node_id, permille));
    let d = f.data@;
    assert(d[0] + 0x100 * d[1] + 0x1_0000 * d[2] + 0x100_0000 * d[3] == 0);
}

/// A frame to a node's first receive PDO that commands no torque.
pub open spec fn zero_torque(f: CanFrame, node_id: u8, permille: u16) -> bool {
    &&& f.id == CanId::Standard((0x200 + node_id) as u16)
    &&& f.kind == (FrameKind::Fd { brs: true })
    &&& f.dlc == 8 && f.data@.len() == 8
    &&& f.data@[0] == 0 && f.data@[1] == 0 && f.data@[2] == 0 && f.data@[3] == 0
    &&& f.data@[4] == 0 && f.data@[5] == 0
    &&& f.data@[6] + 0x100 * f.data@[7] == permille
}

/// The streamed objects: torque of 32 bits, velocity gain of 16, torque limit of 16, on
/// the node's first receive PDO and applied as they come.
pub proof fn streamed_objects(nid: u8)
    ensures
        ({
            let m = stream_mapping(nid);
            &&& m.rpdo_index == 0 && m.cob_id == 0x200 + nid && m.transmission_type == 255
            &&& m.entries.len() == 3
            &&& m.entries[0] == (PdoEntry { index: 0x2003, subindex: 3, bit_len: 32 })
            &&& m.entries[1] == (PdoEntry { index: 0x2003, subindex: 5, bit_len: 16 })
            &&& m.entries[2] == (PdoEntry { index: 0x6072, subindex: 0, bit_len: 16 })
            &&& m.entries == stream_entries()
        }),
{
}

/// Every mapping write is made, in order, each followed by a pause of ten milliseconds.
pub proof fn writes_are_paced(writes: Seq<ObjectWrite>, i: int)
    ensures
        paced(writes).len() == 2 * writes.len(),
        0 <= i < writes.len() ==> paced(writes)[2 * i] == Step::RpdoWrite(writes[i]),
        0 <= i < writes.len() ==> paced(writes)[2 * i + 1] == (Step::Pause { ms: 10 }),
    decreases writes.len(),
{
    if writes.len() > 0 {
        let init = writes.drop_last();
        writes_are_paced(init, i);
        let two = seq![Step::RpdoWrite(writes.last()), Step::Pause { ms: 10 }];
        assert(paced(writes) == paced(init) + two);
        if i == writes.len() - 1 {
            assert(paced(writes)[2 * i] == two[0]);
            assert(paced(writes)[2 * i + 1] == two[1]);
        } else if 0 <= i < init.len() {
            assert(init[i] == writes[i]);
            assert(paced(writes)[2 * i] == paced(init)[2 * i]);
            assert(paced(writes)[2 * i + 1] == paced(init)[2 * i + 1]);
        }
    }
}

/// A bring-up is: initialize; every mapping write, paced; position target, velocity target
/// and position gain to zero; the torque limit; MIT mode. Nothing else.
pub proof fn bring_up_in_order(m: Mapping, max_torque: u16)
    ensures
        ({
            let s = bringup(m, max_torque);
            let n = 2 * m.writes().len() as int;
            &&& s.len() == n + 6
            &&& s[0] == Step::Initialize
            &&& forall|i: int|
                #![trigger m.writes()[i]]
                0 <= i < m.writes().len() ==> s[1 + 2 * i] == Step::RpdoWrite(m.writes()[i])
                    && s[2 + 2 * i] == (Step::Pause { ms: 10 })
            &&& s[n + 1] == Step::ZeroPdes(
                (ObjectWrite { index: 0x2003, subindex: 1, data: seq![0u8, 0u8, 0u8, 0u8] }),
            )
            &&& s[n + 2] == Step::ZeroVdes(
                (ObjectWrite { index: 0x2003, subindex: 2, data: seq![0u8, 0u8, 0u8, 0u8] }),
            )
            &&& s[n + 3] == Step::ZeroKp(
                (ObjectWrite { index: 0x2003, subindex: 4, data: seq![0u8, 0u8] }),
            )
            &&& s[n + 4] == (Step::SetMaxTorque { permille: max_torque })
            &&& s[n + 5] == Step::SetMitMode
        }),
{
    writes_are_paced(m.writes(), 0);
    let s = bringup(m, max_torque);
    let p = paced(m.writes());
    assert forall|i: int| #![trigger m.writes()[i]] 0 <= i < m.writes().len() implies s[1 + 2 * i]
        == Step::RpdoWrite(m.writes()[i]) && s[2 + 2 * i] == (Step::Pause { ms: 10 }) by {
        writes_are_paced(m.writes(), i);
        assert(s[1 + 2 * i] == p[2 * i]);
        assert(s[2 + 2 * i] == p[2 * i + 1]);
    }
}

/// A failed step is told by its name; a mapping write by its object too.
pub proof fn steps_have_names(step: InitStep)
    ensures
        step matches InitStep::RpdoWrite(w) ==> step.label_text() == "rpdo write "@ + upper4_text(
            w.index,
        ) + ":"@ + decimal_text(w.subindex as nat),
        step is Initialize ==> step.label_text() == "initialize"@,
        step is ZeroPdes ==> step.label_text() == "zero PDES"@,
        step is ZeroVdes ==> step.label_text() == "zero VDES"@,
        step is ZeroKp ==> step.label_text() == "zero KP"@,
        step is SetMaxTorque ==> step.label_text() == "set_max_torque"@,
        step is SetMitMode ==> step.label_text() == "set_mode MIT"@,
{
}

/// One attempt at a time: success ends the start, failure leads to the next of three
/// attempts, and what has ended stays ended.
pub proof fn attempts(attempt: u8, ok: bool)
    ensures
        (Startup::Trying { attempt }).next(true) == (Startup::Ready { attempt }),
        attempt < 3 ==> (Startup::Trying { attempt }).next(false) == (Startup::Trying {
            attempt: (attempt + 1) as u8,
        }),
        attempt >= 3 ==> (Startup::Trying { attempt }).next(false) == Startup::GivenUp,
        (Startup::Ready { attempt }).next(ok) == (Startup::Ready { attempt }),
        Startup::GivenUp.next(ok) == Startup::GivenUp,
{
}

/// A blank report: nothing known, nothing running, every number zero.
pub proof fn blank_report()
    ensures
        ({
            let b = Report::blank();
            &&& !b.running && b.config_index == 0 && b.config is None
            &&& b.current_position == 0 && b.min_position == 0 && b.max_position == 0
            &&& b.num_positions == 0 && !b.at_endstop && b.node_id == 0
            &&& b.sub_position_unit.bits == 0 && b.shaft_angle_rad.bits == 0
            &&& b.shaft_velocity_rev_per_s.bits == 0 && b.applied_torque_nm.bits == 0
            &&& b.measured_torque_nm is None && b.driver_temp_c is None && b.motor_temp_c is None
            &&& !b.online && !b.enabled && b.error is None
            &&& b.strength_scale.bits == 0 && b.torque_limit_nm.bits == 0
            &&& b.max_torque_permille == 0
        }),
{
}

/// The view of a report holds what the report holds.
pub proof fn view_is_the_report(s: SmartKnobState)
    ensures
        s@.running == s.running && s@.config_index == s.config_index,
        s@.config is Some <==> s.config is Some,
        s.config matches Some(c) ==> s@.config == Some(c@),
        s@.current_position == s.current_position,
        s@.min_position == s.min_position && s@.max_position == s.max_position,
        s@.num_positions == s.num_positions,
        s@.sub_position_unit == s.sub_position_unit,
        s@.shaft_angle_rad == s.shaft_angle_rad,
        s@.shaft_velocity_rev_per_s == s.shaft_velocity_rev_per_s,
        s@.applied_torque_nm == s.applied_torque_nm,
        s@.measured_torque_nm == s.measured_torque_nm,
        s@.at_endstop == s.at_endstop && s@.node_id == s.node_id,
        s@.online == s.online && s@.enabled == s.enabled,
        s@.driver_temp_c == s.driver_temp_c && s@.motor_temp_c == s.motor_temp_c,
        s@.error is Some <==> s.error is Some,
        s.error matches Some(e) ==> s@.error == Some(e@),
        s@.strength_scale == s.strength_scale && s@.torque_limit_nm == s.torque_limit_nm,
        s@.max_torque_permille == s.max_torque_permille,
{
}

/// The view of a mode holds what the mode holds.
pub proof fn view_is_the_mode(c: KnobConfig)
    ensures
        c@.position == c.position,
        c@.min_position == c.min_position,
        c@.max_position == c.max_position,
        c@.position_width_nanodeg == c.position_width_nanodeg,
        c@.detent_strength_milli == c.detent_strength_milli,
        c@.endstop_strength_milli == c.endstop_strength_milli,
        c@.snap_point_milli == c.snap_point_milli,
        c@.snap_point_bias_milli == c.snap_point_bias_milli,
        c@.detent_positions == c.detent_positions@,
        c@.text == c.text@,
        c@.led_hue == c.led_hue,
{
}

/// The view of a step is the step.
pub proof fn view_is_the_step(s: InitStep)
    ensures
        match s {
            InitStep::Initialize => s@ == Step::Initialize,
            InitStep::RpdoWrite(w) => s@ == Step::RpdoWrite(w@),
            InitStep::Pause { ms } => s@ == (Step::Pause { ms }),
            InitStep::ZeroPdes(w) => s@ == Step::ZeroPdes(w@),
            InitStep::ZeroVdes(w) => s@ == Step::ZeroVdes(w@),
            InitStep::ZeroKp(w) => s@ == Step::ZeroKp(w@),
            InitStep::SetMaxTorque { permille } => s@ == (Step::SetMaxTorque { permille }),
            InitStep::SetMitMode => s@ == Step::SetMitMode,
        },
{
}

} // verus!
