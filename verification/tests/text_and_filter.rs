use hex_gui_core::can::CanId;
use hex_gui_core::filter::FilterSpec;
use hex_gui_core::text::{hex, push_decimal, push_upper, push_upper2, push_upper4};

fn node(node: u8, include_nodeless: bool) -> FilterSpec {
    FilterSpec::Node { node, include_nodeless }
}

#[test]
fn hex_is_lower_case_and_space_separated() {
    assert_eq!(hex(&[]), "");
    assert_eq!(hex(&[0x11, 0x22, 0xAA]), "11 22 aa");
    assert_eq!(hex(&[0x00, 0x0F, 0xF0, 0xFF]), "00 0f f0 ff");
}

#[test]
fn hex_tells_payloads_apart() {
    assert_ne!(hex(&[0x01]), hex(&[0x10]));
    assert_ne!(hex(&[0x01, 0x00]), hex(&[0x01]));
    for len in 0..20usize {
        let expected = if len == 0 { 0 } else { 3 * len - 1 };
        assert_eq!(hex(&vec![0x5A; len]).len(), expected);
    }
}

#[test]
fn numbers_are_appended_like_format_writes_them() {
    for v in [0u32, 9, 10, 15, 16, 0x7FF, 0x800, 0xABCDE, u32::MAX] {
        let mut s = String::from("<");
        push_upper(&mut s, v);
        assert_eq!(s, format!("<{v:X}"));
    }
    for v in [0u64, 7, 10, 64, 12_345, u64::MAX] {
        let mut s = String::new();
        push_decimal(&mut s, v);
        assert_eq!(s, format!("{v}"));
    }
    for v in [0u8, 5, 0x1F, 0xFF] {
        let mut s = String::new();
        push_upper2(&mut s, v);
        assert_eq!(s, format!("{v:02X}"));
    }
    for v in [0u16, 5, 0x1F, 0x2310, 0xFFFF] {
        let mut s = String::new();
        push_upper4(&mut s, v);
        assert_eq!(s, format!("{v:04X}"));
    }
}

#[test]
fn all_filter_shows_everything() {
    assert!(FilterSpec::All.matches(CanId::Standard(0)));
    assert!(FilterSpec::All.matches(CanId::Standard(0x7FF)));
    assert!(FilterSpec::All.matches(CanId::Extended(0x1FFF_FFFF)));
}

#[test]
fn node_filter_shows_the_function_codes_of_its_node() {
    let f = node(5, false);
    for base in [
        0x080u16, 0x180, 0x200, 0x280, 0x300, 0x380, 0x400, 0x480, 0x500, 0x580, 0x600, 0x700,
    ] {
        assert!(f.matches(CanId::Standard(base + 5)));
        assert!(!f.matches(CanId::Standard(base + 6)));
        assert!(!f.matches(CanId::Standard(base)));
    }
    for base in [0x000u16, 0x100, 0x680, 0x780] {
        assert!(!f.matches(CanId::Standard(base + 5)));
    }
    assert!(!f.matches(CanId::Extended(0x185)));
}

#[test]
fn nodeless_frames_show_only_on_request() {
    for id in [0x000u16, 0x080, 0x100, 0x7E4, 0x7E5] {
        assert!(node(5, true).matches(CanId::Standard(id)));
        assert!(!node(5, false).matches(CanId::Standard(id)));
    }
    assert!(!node(5, true).matches(CanId::Standard(0x7E6)));
    assert!(!node(5, true).matches(CanId::Standard(0x186)));
}

#[test]
fn node_zero_has_no_frames_of_its_own() {
    for id in 0..=0x7FFu16 {
        assert!(!node(0, false).matches(CanId::Standard(id)));
    }
}

#[test]
fn each_node_frame_shows_for_exactly_one_node() {
    for id in 0..=0x7FFu16 {
        let shown = (0..=127u8).filter(|n| node(*n, false).matches(CanId::Standard(id))).count();
        assert!(shown <= 1);
        let low = (id & 0x7F) as u8;
        if shown == 1 {
            assert!(node(low, false).matches(CanId::Standard(id)));
        }
    }
}

#[test]
fn mask_filter_agrees_with_the_transport() {
    let ids = [
        CanId::Standard(0x123),
        CanId::Standard(0x7FF),
        CanId::Extended(0x123),
        CanId::Extended(0x1FFF_FF00),
    ];
    for (id, mask) in [(0x123u32, 0x7FFu32), (0x120, 0x7F0), (0, 0), (0xFF00, 0xFF00), (1, 1)] {
        for extended in [false, true] {
            let spec = FilterSpec::Mask { id, mask, extended };
            let transport = can_transport::CanFilter { id, mask, extended };
            for want in ids {
                let raw = match want {
                    CanId::Standard(s) => can_transport::CanId::Standard(s),
                    CanId::Extended(e) => can_transport::CanId::Extended(e),
                };
                let frame = can_transport::CanFrame::new_data(raw, &[]).unwrap();
                assert_eq!(spec.matches(want), transport.matches(&frame));
            }
        }
    }
}

#[test]
fn empty_and_full_masks() {
    let width = FilterSpec::Mask { id: 0x55, mask: 0, extended: true };
    assert!(width.matches(CanId::Extended(7)));
    assert!(!width.matches(CanId::Standard(7)));
    let exact = FilterSpec::Mask { id: 0x55, mask: u32::MAX, extended: false };
    assert!(exact.matches(CanId::Standard(0x55)));
    assert!(!exact.matches(CanId::Standard(0x54)));
}
