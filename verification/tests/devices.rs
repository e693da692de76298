use hex_gui_core::bits::{F32Bits, F64Bits};
use hex_gui_core::device_registry::{
    classify, classify_in, non_motor_devices, DeviceKind, KnownDevice, PRODUCT_IMU, VENDOR_HEX,
    VENDOR_HEXM,
};
use hex_gui_core::dto::{
    ConnectionDto, LiveStateDto, LogicDto, MeasurementsDto, MotorIdentityDto, MotorInfoDto,
    MotorLifecycleDto, MotorModeDto, MotorTargetDto, NmtStateDto,
};
use hex_gui_core::motor::{
    motor_error_kind_name, Connection, LiveState, Logic, Measurements, MotorErrorKind,
    MotorIdentity, MotorInfo, MotorLifecycle, MotorMode, MotorTarget, NmtState, ReinitReason,
};

fn identity(vendor_id: u32, product_code: u32, name: Option<&str>) -> MotorIdentity {
    MotorIdentity {
        node_id: 0x42,
        vendor_id,
        product_code,
        revision_number: 3,
        serial_number: 4,
        product_name: name.map(|n| n.to_string()),
    }
}

fn motor(identity: Option<MotorIdentity>) -> MotorInfo {
    MotorInfo {
        node_id: 0x42,
        identity,
        lifecycle: MotorLifecycle::Initialized,
        online: true,
        logic: Some(Logic::Enabled(MotorMode::Mit)),
        nmt_state: Some(NmtState::Operational),
        peak_torque_nm: Some(F32Bits { bits: 7.5f32.to_bits() }),
    }
}

fn measurements() -> Measurements {
    Measurements {
        position_rev: Some(F32Bits { bits: 1 }),
        velocity_rev_per_s: Some(F32Bits { bits: 2 }),
        torque_nm: None,
        driver_temp_c: Some(F32Bits { bits: 4 }),
        motor_temp_c: None,
        status_word: Some(5),
        mode_display: Some(6),
        error_register: Some(7),
        timestamp_us: Some(8),
    }
}

#[test]
fn identity_numbers_spell_their_names() {
    assert_eq!(&VENDOR_HEX.to_be_bytes(), b"\0hex");
    assert_eq!(&VENDOR_HEXM.to_be_bytes(), b"hexm");
    assert_eq!(&PRODUCT_IMU.to_be_bytes(), b"\0IMU");
}

#[test]
fn only_the_imu_is_not_a_motor() {
    assert_eq!(classify(VENDOR_HEXM, PRODUCT_IMU), DeviceKind::Imu);
    assert_eq!(classify(VENDOR_HEX, PRODUCT_IMU), DeviceKind::Motor);
    assert_eq!(classify(VENDOR_HEXM, 0), DeviceKind::Motor);
    assert_eq!(classify(0, 0), DeviceKind::Motor);
    assert_eq!((DeviceKind::Motor.as_str(), DeviceKind::Imu.as_str()), ("motor", "imu"));
    let table = non_motor_devices();
    assert_eq!(table.len(), 1);
    assert_eq!(table[0].name, "hex-meow IMU");
}

#[test]
fn first_covering_row_decides() {
    let row = |product_code, kind| KnownDevice { vendor_id: 9, product_code, kind, name: "x" };
    let table = [row(Some(1), DeviceKind::Motor), row(None, DeviceKind::Imu)];
    assert_eq!(classify_in(&table, 9, 1), DeviceKind::Motor);
    assert_eq!(classify_in(&table, 9, 2), DeviceKind::Imu);
    assert_eq!(classify_in(&table, 8, 2), DeviceKind::Motor);
    assert_eq!(classify_in(&[], 9, 2), DeviceKind::Motor);
}

#[test]
fn new_rows_leave_known_devices_alone() {
    let mut table = non_motor_devices();
    table.push(KnownDevice {
        vendor_id: VENDOR_HEXM,
        product_code: None,
        kind: DeviceKind::Motor,
        name: "everything else",
    });
    assert_eq!(classify_in(&table, VENDOR_HEXM, PRODUCT_IMU), DeviceKind::Imu);
    assert_eq!(classify_in(&table, VENDOR_HEXM, 1), DeviceKind::Motor);
}

#[test]
fn motor_without_identity_is_named_by_its_node() {
    let dto = MotorInfoDto::from(&motor(None));
    assert_eq!(dto.friendly_name, "Node 0x42");
    assert_eq!(dto.device_type, "motor");
    assert!(dto.identity.is_none());
}

#[test]
fn known_devices_are_named_by_the_device_table() {
    let dto = MotorInfoDto::from(&motor(Some(identity(0x4859444C, 0xAAAA0002, None))));
    assert_eq!(dto.friendly_name, "CiA402 HEX-4342P");
    let dto = MotorInfoDto::from(&motor(Some(identity(0x4859444C, 0xAAAA0002, Some("")))));
    assert_eq!(dto.friendly_name, "CiA402 HEX-4342P");
}

#[test]
fn own_name_wins() {
    let dto = MotorInfoDto::from(&motor(Some(identity(0x4859444C, 0xAAAA0002, Some("left arm")))));
    assert_eq!(dto.friendly_name, "left arm");
}

#[test]
fn imu_opens_its_panel() {
    let dto = MotorInfoDto::from(&motor(Some(identity(VENDOR_HEXM, PRODUCT_IMU, None))));
    assert_eq!(dto.device_type, "imu");
}

#[test]
fn entry_mirrors_the_motor() {
    let dto = MotorInfoDto::with_name(&motor(Some(identity(1, 2, Some("n")))), "shown".to_string());
    assert_eq!((dto.node_id, dto.friendly_name.as_str()), (0x42, "shown"));
    assert!(dto.online && dto.is_ready && !dto.can_initialize);
    assert_eq!(dto.nmt_state, Some(NmtStateDto::Operational));
    assert_eq!(dto.peak_torque_nm.map(|b| f32::from_bits(b.bits)), Some(7.5));
    assert!(matches!(dto.lifecycle, MotorLifecycleDto::Initialized));
    assert!(matches!(dto.logic, Some(LogicDto::Enabled { mode: MotorModeDto::Mit })));
    let id = dto.identity.unwrap();
    assert_eq!((id.node_id, id.vendor_id, id.product_code), (0x42, 1, 2));
    assert_eq!((id.revision_number, id.serial_number), (3, 4));
    assert_eq!(id.product_name.as_deref(), Some("n"));
    assert_eq!(MotorIdentityDto::from(&identity(1, 2, None)).product_name, None);
}

#[test]
fn readiness_follows_the_lifecycle() {
    let at = |lifecycle, online| {
        let dto = MotorInfoDto::from(&MotorInfo { lifecycle, online, ..motor(None) });
        (dto.is_ready, dto.can_initialize)
    };
    let reinit = MotorLifecycle::NeedsReinit { reason: ReinitReason::LeftOperational };
    assert_eq!(at(MotorLifecycle::Initialized, true), (true, false));
    assert_eq!(at(MotorLifecycle::Initialized, false), (false, false));
    assert_eq!(at(MotorLifecycle::Identified, true), (false, true));
    assert_eq!(at(reinit, false), (false, true));
    assert_eq!(at(MotorLifecycle::Unknown, true), (false, false));
    assert_eq!(at(MotorLifecycle::Initializing, true), (false, false));
}

#[test]
fn reinit_reason_is_named() {
    let l = MotorLifecycle::NeedsReinit { reason: ReinitReason::LeftOperational };
    match MotorLifecycleDto::from(&l) {
        MotorLifecycleDto::NeedsReinit { reason } => assert_eq!(reason, "LeftOperational"),
        other => panic!("{other:?}"),
    }
    assert!(matches!(MotorLifecycleDto::from(&MotorLifecycle::Unknown), MotorLifecycleDto::Unknown));
}

#[test]
fn faults_are_named_as_the_driver_names_them() {
    let pairs = [
        (MotorErrorKind::OverCurrent, hex_motor::types::MotorErrorKind::OverCurrent),
        (MotorErrorKind::OverVoltage, hex_motor::types::MotorErrorKind::OverVoltage),
        (MotorErrorKind::UnderVoltage, hex_motor::types::MotorErrorKind::UnderVoltage),
        (MotorErrorKind::DriverOverTemp, hex_motor::types::MotorErrorKind::DriverOverTemp),
        (MotorErrorKind::MotorOverTemp, hex_motor::types::MotorErrorKind::MotorOverTemp),
        (MotorErrorKind::HeartbeatLost, hex_motor::types::MotorErrorKind::HeartbeatLost),
        (MotorErrorKind::EncoderError, hex_motor::types::MotorErrorKind::EncoderError),
        (MotorErrorKind::HallError, hex_motor::types::MotorErrorKind::HallError),
        (MotorErrorKind::MotorStall, hex_motor::types::MotorErrorKind::MotorStall),
        (MotorErrorKind::StartupDifficult, hex_motor::types::MotorErrorKind::StartupDifficult),
        (MotorErrorKind::VelocityError, hex_motor::types::MotorErrorKind::VelocityError),
        (MotorErrorKind::PositionError, hex_motor::types::MotorErrorKind::PositionError),
        (MotorErrorKind::Other, hex_motor::types::MotorErrorKind::Other),
    ];
    for (ours, theirs) in pairs {
        assert_eq!(motor_error_kind_name(ours), format!("{theirs:?}"));
    }
    match LogicDto::from(&Logic::Error { kind: MotorErrorKind::HallError, raw_code: 0x7305 }) {
        LogicDto::Error { kind, raw_code } => assert_eq!((kind.as_str(), raw_code), ("HallError", 0x7305)),
        other => panic!("{other:?}"),
    }
    assert!(matches!(LogicDto::from(&Logic::Disabled), LogicDto::Disabled));
}

#[test]
fn modes_go_there_and_back() {
    let modes = [
        (MotorMode::ProfilePosition, MotorModeDto::ProfilePosition),
        (MotorMode::ProfileVelocity, MotorModeDto::ProfileVelocity),
        (MotorMode::Torque, MotorModeDto::Torque),
        (MotorMode::Mit, MotorModeDto::Mit),
    ];
    for (mode, tag) in modes {
        assert_eq!(MotorModeDto::from(mode), tag);
        assert_eq!(MotorMode::from(tag), mode);
    }
}

#[test]
fn targets_keep_their_numbers() {
    let b = |bits| F32Bits { bits };
    assert_eq!(MotorTarget::from(MotorTargetDto::Disable), MotorTarget::Disable);
    assert_eq!(
        MotorTarget::from(MotorTargetDto::Position { rev: b(1) }),
        MotorTarget::Position { rev: b(1) },
    );
    assert_eq!(
        MotorTarget::from(MotorTargetDto::Velocity { rev_per_s: b(2) }),
        MotorTarget::Velocity { rev_per_s: b(2) },
    );
    assert_eq!(
        MotorTarget::from(MotorTargetDto::Torque { nm: b(3) }),
        MotorTarget::Torque { nm: b(3) },
    );
    assert_eq!(
        MotorTarget::from(MotorTargetDto::Mit { pos: b(1), vel: b(2), tor: b(3), kp: b(4), kd: b(5) }),
        MotorTarget::Mit { pos: b(1), vel: b(2), tor: b(3), kp: b(4), kd: b(5) },
    );
}

#[test]
fn live_state_is_mirrored() {
    let live = LiveState {
        connection: Connection {
            heartbeat_age_us: Some(3),
            tpdo_age_us: None,
            online: true,
            nmt_state: Some(NmtState::BootUp),
        },
        logic: None,
        measurements: measurements(),
    };
    let dto = LiveStateDto::from(&live);
    assert_eq!(
        dto.connection,
        ConnectionDto {
            online: true,
            nmt_state: Some(NmtStateDto::BootUp),
            has_heartbeat: true,
            has_tpdo: false,
        },
    );
    assert!(dto.logic.is_none());
    assert_eq!(dto.measurements.position_rev, Some(F32Bits { bits: 1 }));
    assert_eq!(dto.measurements.status_word, Some(5));
    assert_eq!(dto.measurements.timestamp_us, Some(8));
    assert_eq!(dto.measurements, MeasurementsDto::from(&measurements()));
}

#[test]
fn nmt_states_have_tags() {
    assert_eq!(NmtStateDto::from(NmtState::BootUp), NmtStateDto::BootUp);
    assert_eq!(NmtStateDto::from(NmtState::Stopped), NmtStateDto::Stopped);
    assert_eq!(NmtStateDto::from(NmtState::Operational), NmtStateDto::Operational);
    assert_eq!(NmtStateDto::from(NmtState::PreOperational), NmtStateDto::PreOperational);
}

#[test]
fn default_measurements_are_empty() {
    let m = MeasurementsDto::default();
    assert!(m.position_rev.is_none() && m.velocity_rev_per_s.is_none() && m.torque_nm.is_none());
    assert!(m.driver_temp_c.is_none() && m.motor_temp_c.is_none() && m.status_word.is_none());
    assert!(m.mode_display.is_none() && m.error_register.is_none() && m.timestamp_us.is_none());
}

fn samples() -> Vec<f64> {
    vec![
        0.0,
        -0.0,
        1.0,
        -1.0,
        0.5,
        -0.5,
        1e-310,
        -1e-310,
        60.0,
        f64::MAX,
        f64::MIN,
        f64::INFINITY,
        f64::NEG_INFINITY,
        f64::NAN,
        -f64::NAN,
    ]
}

#[test]
fn bit_patterns_compare_like_numbers() {
    for a in samples() {
        for b in samples() {
            let (x, y) = (F64Bits::of(a.to_bits()), F64Bits::of(b.to_bits()));
            assert_eq!(x.less(y), a < b, "{a} < {b}");
        }
        let x = F64Bits::of(a.to_bits());
        assert_eq!(x.nan(), a.is_nan());
        assert_eq!(x.abs().bits, a.abs().to_bits());
        assert_eq!(x.neg().bits, (-a).to_bits());
        assert_eq!(f64::from_bits(x.max_zero().bits), a.max(0.0));
    }
}

#[test]
fn bit_patterns_clamp_like_numbers() {
    for a in samples() {
        for (low, high) in [(-1.0f64, 1.0f64), (0.0, 0.0), (-0.5, 60.0)] {
            let r = F64Bits::of(a.to_bits())
                .clamp(F64Bits::of(low.to_bits()), F64Bits::of(high.to_bits()));
            assert_eq!(r.bits, a.clamp(low, high).to_bits());
        }
    }
}
