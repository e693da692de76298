use hex_gui_core::can::{CanFilter, CanFrame, CanId, FrameKind};
use hex_gui_core::canopen::SdoWrite;
use hex_gui_core::imu::{nmt_frame, parse_tpdo1, tpdo1_cob_id, ImuEvent, ImuManager, ImuState};

fn sample() -> Vec<u8> {
    let mut d = Vec::new();
    for v in [10000i16, -1, 0, -10000, 1000, -1000, 32767, -32768, 5, -5, 2512] {
        d.extend_from_slice(&v.to_le_bytes());
    }
    d.extend_from_slice(&0xDEAD_BEEFu32.to_le_bytes());
    d
}

fn stream(data: Vec<u8>) -> ImuEvent {
    ImuEvent::Frame(CanFrame {
        id: CanId::Standard(0x185),
        kind: FrameKind::Fd { brs: true },
        dlc: data.len() as u8,
        data,
    })
}

fn expected(online: bool) -> ImuState {
    ImuState {
        node_id: 5,
        online,
        quaternion: [10000, -1, 0, -10000],
        accel: [1000, -1000, 32767],
        gyro: [-32768, 5, -5],
        temp_c: 2512,
        counter: 0xDEAD_BEEF,
    }
}

#[test]
fn samples_are_little_endian() {
    assert_eq!(sample().len(), 26);
    assert_eq!(parse_tpdo1(5, &sample()), Some(expected(true)));
}

#[test]
fn short_samples_are_refused_and_longer_ones_read() {
    let mut d = sample();
    assert_eq!(parse_tpdo1(5, &d[..25]), None);
    assert_eq!(parse_tpdo1(5, &[]), None);
    d.extend_from_slice(&[0xFF; 6]);
    assert_eq!(parse_tpdo1(5, &d), Some(expected(true)));
}

#[test]
fn changed_bytes_change_the_sample() {
    for i in 0..26 {
        let mut d = sample();
        d[i] ^= 0x10;
        assert_ne!(parse_tpdo1(5, &d), Some(expected(true)));
    }
}

#[test]
fn stream_identifier_follows_the_node() {
    assert_eq!(tpdo1_cob_id(0), 0x180);
    assert_eq!(tpdo1_cob_id(5), 0x185);
    assert_eq!(tpdo1_cob_id(255), 0x27F);
}

#[test]
fn nmt_commands_are_two_bytes_on_identifier_zero() {
    let f = nmt_frame(0x81, 9).unwrap();
    assert_eq!((f.id, f.kind, f.data), (CanId::Standard(0), FrameKind::Data, vec![0x81, 9]));
}

#[test]
fn start_listens_to_the_stream_and_starts_it() {
    let plan = ImuManager::start_plan(5).unwrap();
    assert_eq!(plan.subscribe, CanFilter { id: 0x185, mask: 0x7FF, extended: false });
    assert_eq!(plan.send.data, vec![0x01, 5]);
    assert_eq!(plan.send.id, CanId::Standard(0));
}

#[test]
fn default_state_is_all_zero() {
    let s = ImuState::default();
    assert_eq!((s.node_id, s.online, s.temp_c, s.counter), (0, false, 0, 0));
    assert_eq!((s.quaternion, s.accel, s.gyro), ([0; 4], [0; 3], [0; 3]));
}

#[test]
fn session_keeps_the_last_sample() {
    let mut m = ImuManager::start(5);
    assert_eq!(m.node_id(), 5);
    assert!(m.is_running());
    let blank = m.state();
    assert!(!blank.online);
    assert_eq!((blank.node_id, blank.counter, blank.quaternion), (5, 0, [0; 4]));
    m.on_event(&stream(vec![1, 2, 3]));
    assert_eq!(m.state(), blank);
    m.on_event(&stream(sample()));
    assert_eq!(m.state(), expected(true));
    m.on_event(&ImuEvent::Silence);
    assert_eq!(m.state(), expected(false));
    assert!(m.is_running());
    m.on_event(&stream(sample()));
    assert_eq!(m.state(), expected(true));
    m.on_event(&ImuEvent::Closed);
    assert_eq!(m.state(), expected(false));
    assert!(!m.is_running());
}

#[test]
fn stop_returns_to_pre_operational() {
    let mut m = ImuManager::start(7);
    let f = m.stop().unwrap();
    assert_eq!((f.id, f.data), (CanId::Standard(0), vec![0x80, 7]));
    assert!(!m.is_running());
    assert!(!m.state().online);
}

#[test]
fn commands_are_object_writes() {
    let m = ImuManager::start(5);
    assert_eq!(m.bias_trim(), SdoWrite { index: 0x3200, subindex: 1, data: vec![1] });
    assert_eq!(m.yaw_reset(), SdoWrite { index: 0x3200, subindex: 2, data: vec![1] });
}
