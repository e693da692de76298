use hex_gui_core::bits::{F32Bits, F64Bits};
use hex_gui_core::can::{CanId, FrameKind};
use hex_gui_core::canopen::{PdoEntry, RpdoRecipe, SdoWrite};
use hex_gui_core::motor::{
    Connection, LiveState, Logic, Measurements, MotorErrorKind, MotorMode, NmtState,
};
use hex_gui_core::smartknob::bringup::{
    give_up_text, init_motor, recipe_steps, rpdo_cob_id, step_error, stream_recipe, InitStep,
    Recovery, RecipeError, Startup,
};
use hex_gui_core::smartknob::haptic::{
    command_torque, derivative_gain, fault_text, is_enabled, limit_pid, torque_frame, unwrap_turn,
    Haptic, Snap, SnapPoint, Turn, IDLE_CORRECTION_MAX_ANGLE_RAD, IDLE_VELOCITY_RAD_PER_SEC,
    MAX_VEL_RAD_S, PID_LIMIT,
};
use hex_gui_core::smartknob::knob::{
    SmartKnob, SmartKnobState, StopStep, Tick, Tuning, DEFAULT_MAX_TORQUE_PERMILLE, DEFAULT_STRENGTH_SCALE,
    DEFAULT_TORQUE_LIMIT_NM,
};
use hex_gui_core::smartknob::presets::{preset_configs, select};

fn bits(x: f64) -> F64Bits {
    F64Bits::of(x.to_bits())
}

fn num(b: F64Bits) -> f64 {
    f64::from_bits(b.bits)
}

fn in_mode(index: usize) -> Haptic {
    let mut h = Haptic::new();
    assert!(h.apply(index));
    h
}

fn live(logic: Option<Logic>) -> LiveState {
    LiveState {
        connection: Connection {
            heartbeat_age_us: None,
            tpdo_age_us: None,
            online: true,
            nmt_state: Some(NmtState::Operational),
        },
        logic,
        measurements: Measurements {
            position_rev: None,
            velocity_rev_per_s: None,
            torque_nm: Some(F32Bits { bits: 0.25f32.to_bits() }),
            driver_temp_c: Some(F32Bits { bits: 40f32.to_bits() }),
            motor_temp_c: None,
            status_word: None,
            mode_display: None,
            error_register: None,
            timestamp_us: None,
        },
    }
}

#[test]
fn presets_are_the_panel_modes() {
    let c = preset_configs();
    assert_eq!(c.len(), 11);
    let rows: Vec<(i32, i32, i32, u64, i32, i32, i32, i32, i32)> = c
        .iter()
        .map(|c| {
            (
                c.position,
                c.min_position,
                c.max_position,
                c.position_width_nanodeg,
                c.detent_strength_milli,
                c.endstop_strength_milli,
                c.snap_point_milli,
                c.snap_point_bias_milli,
                c.led_hue,
            )
        })
        .collect();
    assert_eq!(rows[0], (0, 0, -1, 10_000_000_000, 0, 1000, 1100, 0, 200));
    assert_eq!(rows[1], (0, 0, 10, 10_000_000_000, 0, 1000, 1100, 0, 0));
    assert_eq!(rows[2], (0, 0, 72, 10_000_000_000, 0, 1000, 1100, 0, 73));
    assert_eq!(rows[3], (0, 0, 1, 60_000_000_000, 1000, 1000, 550, 0, 157));
    assert_eq!(rows[4], (0, 0, 0, 60_000_000_000, 10, 600, 1100, 0, 45));
    assert_eq!(rows[5], (127, 0, 255, 1_000_000_000, 0, 1000, 1100, 0, 219));
    assert_eq!(rows[6], (127, 0, 255, 1_000_000_000, 1000, 1000, 1100, 0, 25));
    assert_eq!(rows[7], (0, 0, 31, 8_225_806_452, 2000, 1000, 1100, 0, 200));
    assert_eq!(rows[8], (0, 0, 31, 8_225_806_452, 200, 1000, 1100, 0, 0));
    assert_eq!(rows[9], (0, 0, 31, 7_000_000_000, 2500, 1000, 700, 0, 73));
    assert_eq!(rows[10], (0, -6, 6, 60_000_000_000, 1000, 1000, 550, 400, 157));
    let texts: Vec<&str> = c.iter().map(|c| c.text.as_str()).collect();
    assert_eq!(
        texts,
        vec![
            "Unbounded\nNo detents",
            "Bounded 0-10\nNo detents",
            "Multi-rev\nNo detents",
            "On/off\nStrong detent",
            "Return-to-center",
            "Fine values\nNo detents",
            "Fine values\nWith detents",
            "Coarse values\nStrong detents",
            "Coarse values\nWeak detents",
            "Magnetic detents",
            "Return-to-center\nwith detents",
        ],
    );
    for (i, c) in c.iter().enumerate() {
        let expected: Vec<i32> = if i == 9 { vec![2, 10, 21, 22] } else { vec![] };
        assert_eq!(c.detent_positions, expected);
    }
}

#[test]
fn whole_number_settings_stand_for_their_decimals() {
    let c = preset_configs();
    assert_eq!(c[7].position_width_nanodeg as f64 / 1e9, 8.225806452);
    assert_eq!(c[4].detent_strength_milli as f64 / 1e3, 0.01);
    assert_eq!(c[10].snap_point_milli as f64 / 1e3, 0.55);
    assert_eq!(4.0 * (c[4].endstop_strength_milli as f64 / 1e3), 2400f64 / 1e3);
}

#[test]
fn modes_beyond_the_last_are_the_last() {
    assert_eq!((select(0), select(10), select(11), select(usize::MAX)), (0, 10, 10, 10));
}

#[test]
fn cloned_mode_is_the_same_mode() {
    let c = &preset_configs()[9];
    let d = c.clone();
    assert_eq!(format!("{c:?}"), format!("{d:?}"));
}

#[test]
fn constants_stand_for_their_numbers() {
    assert_eq!(f64::from_bits(DEFAULT_STRENGTH_SCALE), 0.15);
    assert_eq!(f64::from_bits(DEFAULT_TORQUE_LIMIT_NM), 2.0);
    assert_eq!(DEFAULT_MAX_TORQUE_PERMILLE, 700);
    assert_eq!(f64::from_bits(IDLE_VELOCITY_RAD_PER_SEC), 0.05);
    assert_eq!(f64::from_bits(IDLE_CORRECTION_MAX_ANGLE_RAD), 5.0 * std::f64::consts::PI / 180.0);
    assert_eq!(f64::from_bits(MAX_VEL_RAD_S), 60.0);
    assert_eq!(f64::from_bits(PID_LIMIT), 10.0);
}

#[test]
fn readings_unwrap_by_the_shorter_way() {
    assert_eq!(unwrap_turn(bits(0.9)), Turn::MinusOne);
    assert_eq!(unwrap_turn(bits(-0.9)), Turn::PlusOne);
    assert_eq!(unwrap_turn(bits(0.5)), Turn::Same);
    assert_eq!(unwrap_turn(bits(-0.5)), Turn::Same);
    assert_eq!(unwrap_turn(bits(0.1)), Turn::Same);
    assert_eq!(unwrap_turn(bits(f64::NAN)), Turn::Same);
}

#[test]
fn entering_a_mode_recenters_once() {
    let mut h = Haptic::new();
    assert_eq!((h.active(), h.position()), (None, 0));
    assert!(h.apply(5));
    assert_eq!((h.active(), h.position()), (Some(5), 127));
    assert!(!h.apply(5));
    assert!(h.apply(99));
    assert_eq!((h.active(), h.position()), (Some(10), 0));
    assert_eq!(h.config().text, "Return-to-center\nwith detents");
}

#[test]
fn first_tick_enters_even_the_first_mode() {
    let mut h = Haptic::new();
    assert!(h.apply(0));
    assert!(!h.apply(0));
}

#[test]
fn snapping_is_bounded() {
    let mut h = in_mode(3);
    let (down, up) = (bits(0.5), bits(-0.5));
    assert_eq!(h.snap(bits(0.6), down, up), Snap::Stay);
    assert_eq!(h.position(), 0);
    assert_eq!(h.snap(bits(-0.6), down, up), Snap::Up);
    assert_eq!(h.position(), 1);
    assert_eq!(h.snap(bits(-0.6), down, up), Snap::Stay);
    assert_eq!(h.snap(bits(0.5), down, up), Snap::Stay);
    assert_eq!(h.snap(bits(0.6), down, up), Snap::Down);
    assert_eq!(h.position(), 0);
}

#[test]
fn unbounded_mode_spins_freely() {
    let mut h = in_mode(0);
    for i in 1..=50 {
        assert_eq!(h.snap(bits(1.0), bits(0.5), bits(-0.5)), Snap::Down);
        assert_eq!(h.position(), -i);
    }
    assert!(h.snap_fits(bits(1.0), bits(0.5), bits(-0.5)));
    assert_eq!(h.num_positions(), 0);
    assert!(!h.at_endstop(bits(9.0)));
    assert_eq!(in_mode(5).num_positions(), 256);
    assert_eq!(in_mode(10).num_positions(), 13);
}

#[test]
fn snap_points_move_with_the_bias() {
    let mut h = in_mode(10);
    let points = |h: &Haptic| (h.snap_down_point(), h.snap_up_point());
    let p = |point_milli, bias_milli| SnapPoint { point_milli, bias_milli };
    assert_eq!(points(&h), (p(550, 400), p(-550, -400)));
    assert_eq!(h.snap(bits(-2.0), bits(1.0), bits(-1.0)), Snap::Up);
    assert_eq!(points(&h), (p(550, -400), p(-550, -400)));
    h.snap(bits(2.0), bits(1.0), bits(-1.0));
    h.snap(bits(2.0), bits(1.0), bits(-1.0));
    assert_eq!(h.position(), -1);
    assert_eq!(points(&h), (p(550, 400), p(-550, 400)));
}

#[test]
fn no_mode_chatters() {
    for i in 0..11 {
        let mut h = in_mode(i);
        let before = h.snap_up_point();
        if h.snap(bits(-9.0), bits(1.0), bits(-1.0)) == Snap::Up {
            let after = h.snap_down_point();
            let reach = before.point_milli + before.bias_milli + 1000;
            assert!(reach <= after.point_milli + after.bias_milli);
        }
    }
}

#[test]
fn endstops_push_back_at_the_ends_only() {
    let mut h = in_mode(1);
    assert!(h.at_endstop(bits(0.1)));
    assert!(!h.at_endstop(bits(-0.1)));
    assert!(!h.at_endstop(bits(0.0)));
    assert!(!h.at_endstop(bits(f64::NAN)));
    h.snap(bits(-1.0), bits(0.5), bits(-0.5));
    assert!(!h.at_endstop(bits(0.1)));
    for _ in 0..20 {
        h.snap(bits(-1.0), bits(0.5), bits(-0.5));
    }
    assert_eq!(h.position(), 10);
    assert!(h.at_endstop(bits(-0.1)));
    assert!(!h.at_endstop(bits(0.1)));
}

#[test]
fn gains_are_four_times_the_strength() {
    let h = in_mode(4);
    assert_eq!((h.p_gain_milli(true), h.p_gain_milli(false)), (2400, 40));
    let h = in_mode(9);
    assert_eq!((h.p_gain_milli(true), h.p_gain_milli(false)), (4000, 10_000));
}

#[test]
fn magnetic_detents_pull_at_their_positions_only() {
    let mut h = in_mode(9);
    assert!(!h.has_spring(false));
    assert!(h.has_spring(true));
    for _ in 0..2 {
        h.snap(bits(-1.0), bits(0.5), bits(-0.5));
    }
    assert_eq!(h.position(), 2);
    assert!(h.has_spring(false));
    assert!(in_mode(7).has_spring(false));
}

fn gain_by_interpolation(width_deg: f64, strength: f64) -> f64 {
    let deg = std::f64::consts::PI / 180.0;
    let (lower, upper) = (strength * 0.08, strength * 0.02);
    let slope = (upper - lower) / (8.0 * deg - 3.0 * deg);
    let raw = lower + slope * (width_deg * deg - 3.0 * deg);
    raw.clamp(lower.min(upper), lower.max(upper))
}

#[test]
fn damping_falls_from_three_to_eight_degrees() {
    let mut c = preset_configs()[6].clone();
    assert_eq!(derivative_gain(&c), 80_000_000_000_000);
    c.position_width_nanodeg = 8_000_000_000;
    assert_eq!(derivative_gain(&c), 20_000_000_000_000);
    c.position_width_nanodeg = 5_500_000_000;
    assert_eq!(derivative_gain(&c), 50_000_000_000_000);
    assert_eq!(derivative_gain(&preset_configs()[9]), 0);
    for nanodeg in [1_000_000_000u64, 3_000_000_000, 4_100_000_000, 7_000_000_000, 60_000_000_000] {
        for strength_milli in [0, 10, 200, 2500] {
            c.position_width_nanodeg = nanodeg;
            c.detent_strength_milli = strength_milli;
            let expected = gain_by_interpolation(nanodeg as f64 / 1e9, strength_milli as f64 / 1e3);
            assert!((derivative_gain(&c) as f64 / 1e15 - expected).abs() < 1e-12);
        }
    }
}

#[test]
fn rest_starts_the_drift_after_the_delay() {
    let mut h = in_mode(1);
    let (slow, fast, near, far) = (bits(0.01), bits(0.06), bits(0.05), bits(0.1));
    assert!(!h.idle(slow, near, 1_000));
    assert!(!h.idle(slow, near, 500_001_000));
    assert!(h.idle(slow, near, 500_001_001));
    assert!(!h.idle(slow, far, 500_001_002));
    assert!(h.idle(slow, bits(-0.05), 500_001_003));
    assert!(!h.idle(fast, near, 500_001_004));
    assert!(!h.idle(slow, near, 500_001_005));
    assert!(!h.idle(slow, near, 900_000_000));
    assert!(h.idle(slow, near, 1_100_000_000));
    h.apply(2);
    assert!(!h.idle(slow, near, 2_000_000_000));
}

#[test]
fn faults_show_kind_and_code() {
    let fault = Some(Logic::Error { kind: MotorErrorKind::OverCurrent, raw_code: 0x2310 });
    assert_eq!(fault_text(fault).as_deref(), Some("OverCurrent (0x2310)"));
    assert!(!is_enabled(fault));
    assert!(is_enabled(Some(Logic::Enabled(MotorMode::Mit))));
    assert_eq!(fault_text(Some(Logic::Enabled(MotorMode::Mit))), None);
    assert!(!is_enabled(Some(Logic::Disabled)) && !is_enabled(None));
    assert_eq!(fault_text(None), None);
}

#[test]
fn torque_is_clamped_and_cut_at_runaway() {
    let limit = bits(2.0);
    let torque = |v: f64, t: f64| num(command_torque(bits(v), bits(t), limit));
    assert_eq!(torque(1.0, 1.5), 1.5);
    assert_eq!(torque(1.0, 3.0), 2.0);
    assert_eq!(torque(-1.0, -3.0), -2.0);
    assert_eq!(torque(60.0, 1.5), 1.5);
    assert_eq!(torque(60.1, 1.5), 0.0);
    assert_eq!(torque(-60.1, 1.5), 0.0);
    assert_eq!(num(limit_pid(bits(11.0))), 10.0);
    assert_eq!(num(limit_pid(bits(-11.0))), -10.0);
    assert_eq!(num(limit_pid(bits(3.0))), 3.0);
}

#[test]
fn commanded_torque_is_within_ten_times_the_strength() {
    for strength in [0.0, 0.15, 0.3, 7.0] {
        for output in [-1e9, -10.5, -3.0, 0.0, 4.0, 12.0, f64::MAX] {
            let scaled = strength * num(limit_pid(bits(output)));
            let torque = num(command_torque(bits(1.0), bits(scaled), bits(50.0)));
            assert!(torque.abs() <= 10.0 * strength);
        }
    }
}

#[test]
fn torque_goes_out_as_eight_bytes() {
    let f = torque_frame(0x0A, F32Bits { bits: 1.5f32.to_bits() }, 700).unwrap();
    assert_eq!((f.id, f.kind), (CanId::Standard(0x20A), FrameKind::Fd { brs: true }));
    let mut expected = 1.5f32.to_le_bytes().to_vec();
    expected.extend_from_slice(&[0, 0]);
    expected.extend_from_slice(&700u16.to_le_bytes());
    assert_eq!(f.data, expected);
}

#[test]
fn different_commands_are_different_bytes() {
    let data = |t: u32, p: u16| torque_frame(1, F32Bits { bits: t }, p).unwrap().data;
    assert_ne!(data(1, 700), data(0x100, 700));
    assert_ne!(data(0x0100_0000, 700), data(0x0001_0000, 700));
    assert_ne!(data(1, 1), data(1, 0x100));
}

#[test]
fn tuning_is_made_sound() {
    let mut k = SmartKnob::start(3, 0);
    assert_eq!(k.tuning(), Tuning::default());
    k.set_tuning(bits(-1.0), bits(f64::NAN), 5000);
    let t = k.tuning();
    assert_eq!((num(t.strength_scale), num(t.torque_limit_nm)), (0.0, 0.0));
    assert_eq!(t.max_torque_permille, 1000);
    k.set_tuning(bits(0.3), bits(1.5), 400);
    let t = k.tuning();
    assert_eq!((num(t.strength_scale), num(t.torque_limit_nm)), (0.3, 1.5));
    assert_eq!(t.max_torque_permille, 400);
}

#[test]
fn knob_starts_and_switches_within_its_modes() {
    let mut k = SmartKnob::start(3, 40);
    assert_eq!((k.node_id(), k.requested(), k.is_running()), (3, 10, true));
    let s = k.state();
    assert!(!s.running && s.config.is_none());
    assert_eq!((s.node_id, s.config_index), (3, 10));
    k.set_config(4);
    assert_eq!(k.requested(), 4);
    k.set_config(400);
    assert_eq!(k.requested(), 10);
    k.stop();
    assert!(!k.is_running());
}

#[test]
fn stopping_zeroes_the_torque_before_disabling() {
    let mut k = SmartKnob::start(3, 0);
    k.set_tuning(bits(0.3), bits(1.5), 400);
    assert_eq!(k.stop_frame().unwrap().data, vec![0, 0, 0, 0, 0, 0, 0x90, 0x01]);
    let steps = k.stop();
    assert_eq!(steps.len(), 3);
    assert!(matches!(&steps[0], StopStep::AwaitLoop));
    match &steps[1] {
        StopStep::Send(f) => {
            assert_eq!((f.id, f.kind), (CanId::Standard(0x203), FrameKind::Fd { brs: true }));
            assert_eq!(f.data, vec![0, 0, 0, 0, 0, 0, 0x90, 0x01]);
        }
        other => panic!("{other:?}"),
    }
    assert!(matches!(&steps[2], StopStep::Disable { node_id: 3 }));
}

#[test]
fn reports_show_the_tick() {
    let mut k = SmartKnob::start(3, 1);
    let mut h = Haptic::new();
    h.apply(k.requested());
    let tick = Tick {
        sub_position_unit: bits(0.1),
        shaft_angle_rad: bits(0.2),
        shaft_velocity_rev_per_s: bits(0.3),
        applied_torque_nm: bits(0.4),
        angle_to_detent_center: bits(0.5),
        live: live(Some(Logic::Error { kind: MotorErrorKind::MotorStall, raw_code: 0x0007 })),
        tuning: k.tuning(),
    };
    k.publish(&h, &tick);
    let s: SmartKnobState = k.state();
    assert!(s.running && s.online && s.at_endstop && !s.enabled);
    assert_eq!((s.config_index, s.current_position, s.num_positions), (1, 0, 11));
    assert_eq!((s.min_position, s.max_position), (0, 10));
    assert_eq!(s.config.as_ref().map(|c| c.text.as_str()), Some("Bounded 0-10\nNo detents"));
    assert_eq!((num(s.sub_position_unit), num(s.shaft_angle_rad)), (0.1, 0.2));
    assert_eq!((num(s.shaft_velocity_rev_per_s), num(s.applied_torque_nm)), (0.3, 0.4));
    assert_eq!(s.measured_torque_nm, Some(F32Bits { bits: 0.25f32.to_bits() }));
    assert_eq!(s.driver_temp_c, Some(F32Bits { bits: 40f32.to_bits() }));
    assert_eq!(s.motor_temp_c, None);
    assert_eq!(s.error.as_deref(), Some("MotorStall (0x0007)"));
    assert_eq!((num(s.strength_scale), num(s.torque_limit_nm)), (0.15, 2.0));
    assert_eq!((s.max_torque_permille, s.node_id), (700, 3));
    k.ended();
    let s = k.state();
    assert!(!s.running);
    assert_eq!((s.num_positions, num(s.applied_torque_nm)), (11, 0.4));
}

#[test]
fn blank_state_is_all_zero() {
    let s = SmartKnobState::default();
    assert!(!s.running && !s.at_endstop && !s.online && !s.enabled);
    assert!(s.config.is_none() && s.error.is_none() && s.measured_torque_nm.is_none());
    assert_eq!((num(s.applied_torque_nm), s.max_torque_permille, s.node_id), (0.0, 0, 0));
}

#[test]
fn command_identifier_follows_the_node() {
    assert_eq!((rpdo_cob_id(0), rpdo_cob_id(10), rpdo_cob_id(255)), (0x200, 0x20A, 0x2FF));
}

fn write(index: u16, subindex: u8, data: &[u8]) -> SdoWrite {
    SdoWrite { index, subindex, data: data.to_vec() }
}

#[test]
fn bring_up_steps_are_in_order() {
    let steps = init_motor(0x0A, 700).unwrap();
    let writes: Vec<SdoWrite> = steps
        .iter()
        .filter_map(|s| match s {
            InitStep::RpdoWrite(w) => Some(w.clone()),
            _ => None,
        })
        .collect();
    assert_eq!(
        writes,
        vec![
            write(0x1400, 1, &0x8000_020Au32.to_le_bytes()),
            write(0x1400, 2, &[255]),
            write(0x1600, 0, &[0]),
            write(0x1600, 1, &0x2003_0320u32.to_le_bytes()),
            write(0x1600, 2, &0x2003_0510u32.to_le_bytes()),
            write(0x1600, 3, &0x6072_0010u32.to_le_bytes()),
            write(0x1600, 0, &[3]),
            write(0x1400, 1, &0x0000_020Au32.to_le_bytes()),
        ],
    );
    let labels: Vec<String> = steps.iter().map(|s| s.label()).collect();
    assert_eq!(labels.len(), 1 + 16 + 5);
    assert_eq!(labels[0], "initialize");
    assert_eq!((labels[1].as_str(), labels[2].as_str()), ("rpdo write 1400:1", "pause"));
    assert_eq!(labels[7], "rpdo write 1600:1");
    assert_eq!(
        labels[17..].to_vec(),
        vec!["zero PDES", "zero VDES", "zero KP", "set_max_torque", "set_mode MIT"],
    );
    assert!(matches!(&steps[2], InitStep::Pause { ms: 10 }));
    assert!(matches!(&steps[17], InitStep::ZeroPdes(w) if *w == write(0x2003, 1, &[0; 4])));
    assert!(matches!(&steps[18], InitStep::ZeroVdes(w) if *w == write(0x2003, 2, &[0; 4])));
    assert!(matches!(&steps[19], InitStep::ZeroKp(w) if *w == write(0x2003, 4, &[0; 2])));
    assert!(matches!(&steps[20], InitStep::SetMaxTorque { permille: 700 }));
    assert!(matches!(&steps[21], InitStep::SetMitMode));
}

#[test]
fn every_node_can_be_mapped() {
    for nid in 0..=255u8 {
        assert_eq!(stream_recipe(nid).cob_id, 0x200 + nid as u16);
        assert!(init_motor(nid, 0).is_ok());
    }
}

#[test]
fn bad_mappings_are_refused() {
    let good = stream_recipe(1);
    let refused = |r: RpdoRecipe| matches!(recipe_steps(&r, 0), Err(RecipeError));
    assert!(!refused(good.clone()));
    assert!(refused(RpdoRecipe { rpdo_index: 4, ..good.clone() }));
    assert!(refused(RpdoRecipe { cob_id: 0x800, ..good.clone() }));
    assert!(refused(RpdoRecipe { entries: vec![], ..good.clone() }));
    let wide = PdoEntry { index: 1, subindex: 1, bit_len: 171 };
    assert!(refused(RpdoRecipe { entries: vec![wide; 3], ..good.clone() }));
    let bit = PdoEntry { index: 1, subindex: 1, bit_len: 1 };
    assert!(refused(RpdoRecipe { entries: vec![bit; 65], ..good.clone() }));
    assert!(!refused(RpdoRecipe { entries: vec![bit; 64], ..good }));
}

#[test]
fn start_is_tried_three_times() {
    let s = Startup::first();
    assert_eq!(s, Startup::Trying { attempt: 1 });
    assert_eq!(s.advance(true), Startup::Ready { attempt: 1 });
    let s = s.advance(false).advance(false);
    assert_eq!(s, Startup::Trying { attempt: 3 });
    assert_eq!(s.advance(true), Startup::Ready { attempt: 3 });
    assert_eq!(s.advance(false), Startup::GivenUp);
    assert_eq!(s.advance(false).advance(true), Startup::GivenUp);
}

#[test]
fn every_failure_is_followed_by_a_pause() {
    let pause = Recovery::ClearAndWait { ms: 300 };
    let first = Startup::first();
    let last = first.advance(false).advance(false);
    assert_eq!((first.recovery(false), last.recovery(false)), (pause, pause));
    assert_eq!((first.recovery(true), last.recovery(true)), (Recovery::Nothing, Recovery::Nothing));
    assert_eq!(last.advance(false).recovery(false), Recovery::Nothing);
}

#[test]
fn start_errors_name_step_and_node() {
    assert_eq!(step_error(&InitStep::Initialize, "timeout"), "initialize: timeout");
    let w = InitStep::RpdoWrite(write(0x1600, 12, &[]));
    assert_eq!(step_error(&w, "abort"), "rpdo write 1600:12: abort");
    assert_eq!(give_up_text(0x0A), "motor 0x0A failed after 3 attempts");
}
