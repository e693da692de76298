use hex_gui_core::analyzer::session::{CanAnalyzer, SendError, SendSpec};
use hex_gui_core::can::{
    data_frame, extended_id, fd_frame, remote_frame, standard_id, CanError, CanFilter, CanId,
    FrameKind,
};

fn spec(id: u32) -> SendSpec {
    SendSpec { id, extended: false, fd: false, brs: false, rtr: false, dlc: 0, data: vec![1, 2] }
}

#[test]
fn identifiers_are_range_checked() {
    assert_eq!(standard_id(0x7FF), Ok(CanId::Standard(0x7FF)));
    assert_eq!(standard_id(0x800), Err(CanError::InvalidId));
    assert_eq!(extended_id(0x1FFF_FFFF), Ok(CanId::Extended(0x1FFF_FFFF)));
    assert_eq!(extended_id(0x2000_0000), Err(CanError::InvalidId));
    assert_eq!(CanId::Extended(9).raw(), 9);
    assert!(CanId::Extended(9).is_extended());
    assert!(!CanId::Standard(9).is_extended());
}

#[test]
fn data_frames_hold_eight_bytes() {
    let f = data_frame(CanId::Standard(0x123), &[1, 2, 3]).unwrap();
    assert_eq!(f.id, CanId::Standard(0x123));
    assert_eq!(f.kind, FrameKind::Data);
    assert_eq!((f.dlc, f.data), (3, vec![1, 2, 3]));
    assert_eq!(
        data_frame(CanId::Standard(1), &[0; 9]).unwrap_err(),
        CanError::DataTooLong { got: 9, max: 8 },
    );
}

#[test]
fn fd_frames_hold_sixty_four_bytes() {
    let f = fd_frame(CanId::Extended(7), &[9; 64], true).unwrap();
    assert_eq!(f.kind, FrameKind::Fd { brs: true });
    assert_eq!((f.dlc, f.data.len()), (64, 64));
    let plain = fd_frame(CanId::Extended(7), &[], false).unwrap();
    assert_eq!(plain.kind, FrameKind::Fd { brs: false });
    assert_eq!(
        fd_frame(CanId::Standard(1), &[0; 65], true).unwrap_err(),
        CanError::DataTooLong { got: 65, max: 64 },
    );
}

#[test]
fn remote_frames_carry_a_length_only() {
    let f = remote_frame(CanId::Standard(3), 5).unwrap();
    assert_eq!(f.kind, FrameKind::Remote);
    assert_eq!(f.dlc, 5);
    assert!(f.data.is_empty());
    assert_eq!(
        remote_frame(CanId::Standard(3), 9).unwrap_err(),
        CanError::DataTooLong { got: 9, max: 8 },
    );
}

#[test]
fn error_messages_are_those_of_the_transport() {
    let outside = can_transport::CanFrame::new_data(1u16, &[0; 9]).unwrap_err();
    assert_eq!(CanError::DataTooLong { got: 9, max: 8 }.message(), outside.to_string());
    let outside = can_transport::CanId::new_standard(0x800).unwrap_err();
    assert_eq!(CanError::InvalidId.message(), outside.to_string());
}

#[test]
fn send_builds_each_kind() {
    let f = CanAnalyzer::send(&spec(0x123)).unwrap();
    assert_eq!((f.id, f.kind, f.data), (CanId::Standard(0x123), FrameKind::Data, vec![1, 2]));
    let f = CanAnalyzer::send(&SendSpec { fd: true, brs: true, ..spec(0x123) }).unwrap();
    assert_eq!(f.kind, FrameKind::Fd { brs: true });
    let f = CanAnalyzer::send(&SendSpec { extended: true, ..spec(0x1ABC_DEF0) }).unwrap();
    assert_eq!(f.id, CanId::Extended(0x1ABC_DEF0));
    let f = CanAnalyzer::send(&SendSpec { rtr: true, fd: true, dlc: 4, ..spec(1) }).unwrap();
    assert_eq!((f.kind, f.dlc), (FrameKind::Remote, 4));
}

#[test]
fn send_caps_the_remote_length() {
    let f = CanAnalyzer::send(&SendSpec { rtr: true, dlc: 200, ..spec(1) }).unwrap();
    assert_eq!(f.dlc, 8);
}

#[test]
fn send_reports_each_error() {
    let e = CanAnalyzer::send(&spec(0x800)).unwrap_err();
    assert_eq!(e, SendError::StandardIdTooLarge { id: 0x800 });
    assert_eq!(e.message(), "standard id 0x800 exceeds 0x7FF");
    let e = CanAnalyzer::send(&SendSpec { extended: true, ..spec(0x2000_0000) }).unwrap_err();
    assert_eq!(e, SendError::BadExtendedId(CanError::InvalidId));
    assert!(e.message().starts_with("bad extended id: "));
    let e = CanAnalyzer::send(&SendSpec { data: vec![0; 9], ..spec(1) }).unwrap_err();
    assert_eq!(e, SendError::Data(CanError::DataTooLong { got: 9, max: 8 }));
    assert_eq!(e.message(), "build data frame: frame data too long: got 9 bytes, max 8");
    let e = CanAnalyzer::send(&SendSpec { fd: true, data: vec![0; 65], ..spec(1) }).unwrap_err();
    assert_eq!(e, SendError::Fd(CanError::DataTooLong { got: 65, max: 64 }));
    assert_eq!(e.message(), "build FD frame: frame data too long: got 65 bytes, max 64");
    assert_eq!(
        SendError::Remote(CanError::InvalidId).message(),
        format!("build RTR frame: {}", CanError::InvalidId.message()),
    );
    assert_eq!(
        SendError::BadStandardId(CanError::InvalidId).message(),
        format!("bad standard id: {}", CanError::InvalidId.message()),
    );
}

#[test]
fn capture_filters_are_the_two_widths() {
    let (std, ext) = CanAnalyzer::capture_filters();
    assert_eq!(std, CanFilter { id: 0, mask: 0, extended: false });
    assert_eq!(ext, CanFilter { id: 0, mask: 0, extended: true });
}
