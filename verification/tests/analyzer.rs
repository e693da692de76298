use hex_gui_core::analyzer::health::{BusHealthDto, CanBusState, CanControllerState};
use hex_gui_core::analyzer::keyset::KeySet;
use hex_gui_core::analyzer::record::{kind_str, trace_dto, AggEntry, AggRowDto, Dir, FrameRate, TraceRecord};
use hex_gui_core::analyzer::session::{
    AggReplyDto, AnalyzerStatusDto, CanAnalyzer, RxEvent, TraceReplyDto,
};
use hex_gui_core::analyzer::state::AnalyzerState;
use hex_gui_core::can::{data_frame, fd_frame, remote_frame, CanFrame, CanId, FrameKind};
use hex_gui_core::filter::FilterSpec;

fn frame(id: u16, data: &[u8]) -> CanFrame {
    data_frame(CanId::Standard(id), data).unwrap()
}

fn rx(a: &mut CanAnalyzer, frame: CanFrame, host_us: u64, timestamp_us: Option<u64>) {
    assert!(a.can_record(&frame, timestamp_us, host_us));
    assert!(a.on_rx(&RxEvent::Frame { frame, timestamp_us }, host_us));
}

fn session() -> CanAnalyzer {
    CanAnalyzer::start(true, 64, false)
}

fn seqs(r: &TraceReplyDto) -> Vec<u64> {
    r.frames.iter().map(|f| f.seq).collect()
}

fn row(r: &AggReplyDto, id: u32, extended: bool) -> AggRowDto {
    r.rows.iter().find(|x| x.id == id && x.extended == extended).cloned().unwrap()
}

#[test]
fn idle_replies_are_empty() {
    let s = AnalyzerStatusDto::idle();
    assert_eq!(s, TraceReplyDto::idle().status);
    assert_eq!(s, AggReplyDto::idle().status);
    assert!(!s.capturing && !s.fd && !s.hw_ts);
    assert_eq!((s.total, s.our_dropped, s.agg_overflow, s.next_seq), (0, 0, 0, 0));
    assert_eq!((s.distinct_ids, s.ring_len, s.max_dlen), (0, 0, 0));
    assert!(TraceReplyDto::idle().frames.is_empty());
    assert!(!TraceReplyDto::idle().gap);
    assert!(AggReplyDto::idle().rows.is_empty());
}

#[test]
fn fresh_session_starts_at_sequence_one() {
    let a = CanAnalyzer::start(true, 64, true);
    let s = a.get_status();
    assert!(s.capturing && s.fd && s.hw_ts);
    assert_eq!((s.next_seq, s.total, s.ring_len, s.max_dlen), (1, 0, 0, 64));
    let r = a.get_trace(0, 100, &FilterSpec::All);
    assert!(r.frames.is_empty() && !r.gap);
    assert_eq!(r.next_seq, 0);
}

#[test]
fn trace_rows_show_the_frame() {
    let mut a = session();
    rx(&mut a, frame(0x123, &[0x11, 0x22, 0xAA]), 10, None);
    rx(&mut a, fd_frame(CanId::Extended(0x1234567), &[5; 12], true).unwrap(), 20, None);
    rx(&mut a, remote_frame(CanId::Standard(7), 4).unwrap(), 30, None);
    let r = a.get_trace(0, 100, &FilterSpec::All);
    assert_eq!(seqs(&r), vec![1, 2, 3]);
    assert_eq!(r.next_seq, 3);
    let f = &r.frames[0];
    assert_eq!((f.id, f.extended, f.dlc, f.t_us), (0x123, false, 3, 10));
    assert_eq!((f.kind.as_str(), f.data.as_str(), f.dir.as_str()), ("data", "11 22 aa", "rx"));
    let f = &r.frames[1];
    assert_eq!((f.id, f.extended, f.dlc, f.kind.as_str()), (0x1234567, true, 12, "fd_brs"));
    assert_eq!(f.data, vec!["05"; 12].join(" "));
    let f = &r.frames[2];
    assert_eq!((f.kind.as_str(), f.dlc, f.data.as_str()), ("remote", 4, ""));
}

#[test]
fn sent_frames_are_tx_rows_on_the_host_clock() {
    let mut a = session();
    rx(&mut a, frame(1, &[]), 100, Some(5_000));
    let f = frame(2, &[1]);
    assert!(a.can_record(&f, None, 250));
    a.record_tx(&f, 250);
    let r = a.get_trace(0, 100, &FilterSpec::All);
    assert_eq!((r.frames[1].dir.as_str(), r.frames[1].t_us), ("tx", 250));
}

#[test]
fn kinds_and_directions_have_names() {
    assert_eq!(kind_str(FrameKind::Data), "data");
    assert_eq!(kind_str(FrameKind::Fd { brs: false }), "fd");
    assert_eq!(kind_str(FrameKind::Fd { brs: true }), "fd_brs");
    assert_eq!(kind_str(FrameKind::Remote), "remote");
    assert_eq!((Dir::Rx.as_str(), Dir::Tx.as_str()), ("rx", "tx"));
}

#[test]
fn record_keeps_the_bytes_present() {
    let rec = TraceRecord::new(4, 9, CanId::Standard(1), FrameKind::Remote, &[], 8, Dir::Rx);
    assert_eq!((rec.len, rec.data), (8, [0u8; 64]));
    assert_eq!(trace_dto(&rec).data, "");
    let rec = TraceRecord::new(4, 9, CanId::Standard(1), FrameKind::Data, &[1, 2], 2, Dir::Rx);
    assert_eq!(trace_dto(&rec).data, "01 02");
}

#[test]
fn polls_resume_at_the_cursor() {
    let mut a = session();
    for i in 0..10u64 {
        rx(&mut a, frame(0x100 + i as u16, &[i as u8]), i, None);
    }
    let mut cursor = 0;
    let mut all = Vec::new();
    loop {
        let r = a.get_trace(cursor, 3, &FilterSpec::All);
        assert!(!r.gap);
        if r.frames.is_empty() {
            break;
        }
        cursor = r.next_seq;
        all.extend(seqs(&r));
    }
    assert_eq!(all, (1..=10).collect::<Vec<u64>>());
}

#[test]
fn filtered_polls_move_past_hidden_frames() {
    let mut a = session();
    for i in 0..6u64 {
        rx(&mut a, frame(if i % 2 == 0 { 0x185 } else { 0x186 }, &[]), i, None);
    }
    let node = FilterSpec::Node { node: 5, include_nodeless: false };
    let r = a.get_trace(0, 100, &node);
    assert_eq!(seqs(&r), vec![1, 3, 5]);
    assert_eq!(r.next_seq, 6);
    let r = a.get_trace(0, 2, &node);
    assert_eq!(seqs(&r), vec![1, 3]);
    assert_eq!(r.next_seq, 3);
}

#[test]
fn poll_for_nothing_returns_nothing() {
    let mut a = session();
    rx(&mut a, frame(1, &[]), 0, None);
    let r = a.get_trace(0, 0, &FilterSpec::All);
    assert!(r.frames.is_empty());
    assert_eq!(r.next_seq, 0);
}

#[test]
fn polls_are_capped() {
    let mut a = session();
    for i in 0..6000u64 {
        rx(&mut a, frame(1, &[]), i, None);
    }
    let r = a.get_trace(0, u32::MAX, &FilterSpec::All);
    assert_eq!((r.frames.len(), r.next_seq), (5000, 5000));
    let r = a.get_trace(r.next_seq, u32::MAX, &FilterSpec::All);
    assert_eq!((r.frames.len(), r.next_seq), (1000, 6000));
}

#[test]
fn old_frames_roll_off_as_a_gap() {
    let mut a = session();
    for i in 0..8192u64 {
        rx(&mut a, frame(1, &[]), i, None);
    }
    assert!(!a.get_trace(0, 1, &FilterSpec::All).gap);
    rx(&mut a, frame(1, &[]), 9000, None);
    let r = a.get_trace(0, 1, &FilterSpec::All);
    assert!(r.gap);
    assert_eq!(seqs(&r), vec![2]);
    assert!(!a.get_trace(1, 1, &FilterSpec::All).gap);
    assert_eq!(a.get_status().ring_len, 8192);
    assert_eq!(a.get_status().total, 8193);
}

#[test]
fn statistics_outlive_the_ring() {
    let mut a = session();
    rx(&mut a, frame(0x222, &[9]), 0, None);
    for i in 1..9000u64 {
        rx(&mut a, frame(1, &[]), i, None);
    }
    let r = a.get_aggregates(&FilterSpec::All, 9000);
    let x = row(&r, 0x222, false);
    assert_eq!((x.count, x.last_data.as_str(), x.first_us, x.last_us), (1, "09", 0, 0));
    assert_eq!(row(&r, 1, false).count, 8999);
}

#[test]
fn clear_keeps_sequence_numbers_and_leaves_no_gap() {
    let mut a = session();
    for i in 0..5u64 {
        rx(&mut a, frame(1, &[]), i, None);
    }
    a.on_rx(&RxEvent::Lagged { dropped: 3 }, 0);
    let cursor = a.clear();
    assert_eq!(cursor, 5);
    let s = a.get_status();
    assert_eq!((s.total, s.ring_len, s.distinct_ids, s.our_dropped), (0, 0, 0, 0));
    assert_eq!(s.next_seq, 6);
    rx(&mut a, frame(2, &[]), 9, None);
    let r = a.get_trace(cursor, 10, &FilterSpec::All);
    assert!(!r.gap);
    assert_eq!(seqs(&r), vec![6]);
}

#[test]
fn only_a_lost_bus_ends_the_capture() {
    let mut a = session();
    assert!(a.on_rx(&RxEvent::Lagged { dropped: 7 }, 0));
    assert!(a.on_rx(&RxEvent::Lagged { dropped: 5 }, 0));
    assert_eq!(a.get_status().our_dropped, 12);
    assert!(a.on_rx(&RxEvent::Failed, 0));
    assert!(!a.on_rx(&RxEvent::Disconnected, 0));
    assert_eq!(a.get_status().total, 0);
}

#[test]
fn widths_are_counted_apart() {
    let mut a = session();
    rx(&mut a, frame(0x123, &[1]), 0, None);
    rx(&mut a, data_frame(CanId::Extended(0x123), &[2]).unwrap(), 1, None);
    rx(&mut a, data_frame(CanId::Extended(0x123), &[3]).unwrap(), 2, None);
    let r = a.get_aggregates(&FilterSpec::All, 2);
    assert_eq!(r.rows.len(), 2);
    assert_eq!(row(&r, 0x123, false).count, 1);
    let x = row(&r, 0x123, true);
    assert_eq!((x.count, x.last_data.as_str(), x.last_kind.as_str()), (2, "03", "data"));
    assert_eq!(a.get_status().distinct_ids, 2);
    let only = a.get_aggregates(&FilterSpec::Mask { id: 0, mask: 0, extended: true }, 2);
    assert_eq!(only.rows.len(), 1);
}

#[test]
fn rate_is_measured_over_closed_windows() {
    let mut e = AggEntry::new(0, FrameKind::Data, &[], 0);
    assert_eq!(e.rate, None);
    for i in 1..200u64 {
        e.update(i * 10_000, FrameKind::Data, &[], 0);
        assert_eq!(e.rate, None);
    }
    e.update(2_000_000, FrameKind::Data, &[], 0);
    assert_eq!(e.rate, Some(FrameRate { frames: 200, span_us: 2_000_000 }));
    assert_eq!((e.win_start_us, e.win_count, e.count), (2_000_000, 0, 201));
}

#[test]
fn slow_identifiers_measure_over_their_spacing() {
    let mut a = session();
    rx(&mut a, frame(0x705, &[5]), 0, None);
    rx(&mut a, frame(0x705, &[5]), 3_000_000, None);
    let r = a.get_aggregates(&FilterSpec::All, 3_000_000);
    assert_eq!(row(&r, 0x705, false).rate_hz, Some(FrameRate { frames: 1, span_us: 3_000_000 }));
}

#[test]
fn silent_identifiers_show_no_rate() {
    let mut a = session();
    rx(&mut a, frame(1, &[]), 0, None);
    rx(&mut a, frame(1, &[]), 2_000_000, None);
    let at = |now| row(&a.get_aggregates(&FilterSpec::All, now), 1, false).rate_hz;
    assert!(at(7_000_000).is_some());
    assert_eq!(at(7_000_001), None);
}

#[test]
fn aggregate_payload_is_overwritten_in_place() {
    let mut e = AggEntry::new(0, FrameKind::Data, &[1, 2, 3], 3);
    e.update(1, FrameKind::Remote, &[], 8);
    assert_eq!(&e.last_data[..4], &[1, 2, 3, 0]);
    e.update(2, FrameKind::Data, &[9], 1);
    assert_eq!(&e.last_data[..4], &[9, 2, 3, 0]);
    assert_eq!((e.last_len, e.last_us, e.first_us, e.count), (1, 2, 0, 3));
}

#[test]
fn table_overflow_is_counted() {
    let mut a = session();
    for i in 0..4096u32 {
        rx(&mut a, data_frame(CanId::Extended(i), &[]).unwrap(), 0, None);
    }
    assert_eq!(a.get_status().agg_overflow, 0);
    rx(&mut a, data_frame(CanId::Extended(9000), &[]).unwrap(), 0, None);
    rx(&mut a, data_frame(CanId::Extended(3), &[]).unwrap(), 0, None);
    let s = a.get_status();
    assert_eq!((s.agg_overflow, s.distinct_ids, s.total), (1, 4096, 4098));
}

#[test]
fn table_overflow_counts_distinct_identifiers() {
    let mut s = AnalyzerState::new();
    let push = |s: &mut AnalyzerState, id: u32| {
        s.push(CanId::Extended(id), FrameKind::Data, &[], 0, 0, Dir::Rx)
    };
    for i in 0..4096u32 {
        push(&mut s, i);
    }
    push(&mut s, 5000);
    push(&mut s, 5000);
    assert_eq!((s.agg_overflow(), s.distinct_ids()), (1, 4096));
    assert_eq!((s.total(), s.ring_len()), (4098, 4098));
    push(&mut s, 7);
    push(&mut s, 5001);
    assert_eq!((s.agg_overflow(), s.distinct_ids(), s.total()), (2, 4096, 4100));
    s.clear();
    assert_eq!((s.agg_overflow(), s.distinct_ids(), s.total()), (0, 0, 0));
    push(&mut s, 5000);
    assert_eq!((s.agg_overflow(), s.distinct_ids()), (0, 1));
}

#[test]
fn key_set_counts_each_key_once() {
    let mut s = KeySet::new();
    let keys = [0u64, 63, 64, 4095, 4096, 0x7FF, 0xFFFF, 0x1_0000_0000, 0x1_1FFF_FFFF, 0x1_FFFF_FFFF];
    for (i, k) in keys.iter().enumerate() {
        s.insert(*k);
        assert_eq!(s.len(), i as u64 + 1);
        s.insert(*k);
        assert_eq!(s.len(), i as u64 + 1);
    }
    for k in keys {
        s.insert(k);
    }
    assert_eq!(s.len(), keys.len() as u64);
    s.clear();
    assert_eq!(s.len(), 0);
    s.insert(64);
    assert_eq!(s.len(), 1);
}

#[test]
fn walking_the_identifiers_is_counted() {
    let mut s = AnalyzerState::new();
    for round in 0..2 {
        for i in 0..50_000u32 {
            s.push(CanId::Extended(i * 7), FrameKind::Data, &[], 0, 0, Dir::Rx);
        }
        assert_eq!(s.distinct_ids(), 4096, "round {round}");
        assert_eq!(s.agg_overflow(), 50_000 - 4096);
    }
    s.push(CanId::Standard(7), FrameKind::Data, &[], 0, 0, Dir::Rx);
    assert_eq!(s.agg_overflow(), 50_000 - 4096 + 1);
}

#[test]
fn poll_after_a_clear_returns_all() {
    let mut a = session();
    for i in 0..3u64 {
        rx(&mut a, frame(1, &[]), i, None);
    }
    let cursor = a.clear();
    for i in 0..4u64 {
        rx(&mut a, frame(2, &[]), i, None);
    }
    for limit in [4, 5, 1000] {
        let r = a.get_trace(cursor, limit, &FilterSpec::All);
        assert!(!r.gap);
        assert_eq!((seqs(&r), r.next_seq), (vec![4, 5, 6, 7], 7));
    }
}

#[test]
fn overlong_declared_lengths_are_counted() {
    let mut s = AnalyzerState::new();
    s.push(CanId::Standard(1), FrameKind::Data, &[1, 2], 200, 5, Dir::Rx);
    s.push(CanId::Standard(1), FrameKind::Data, &[3], 1, 9, Dir::Rx);
    assert_eq!((s.total(), s.distinct_ids()), (2, 1));
    let rows = s.collect_aggregates(&FilterSpec::All);
    assert_eq!((rows[0].1.count, rows[0].1.first_us), (2, 5));
}

#[test]
fn device_clock_is_rebased_onto_the_host_axis() {
    let mut s = AnalyzerState::new();
    assert_eq!(s.display_time(50, None), 50);
    assert_eq!(s.display_time(1_000, Some(777_000)), 1_000);
    assert_eq!(s.display_time(5_000, Some(777_250)), 1_250);
    assert_eq!(s.display_time(5_000, Some(775_000)), 0);
    s.clear();
    assert_eq!(s.display_time(9_999, Some(778_000)), 2_000);
}

#[test]
fn unplaceable_clocks_are_recognised() {
    let mut s = AnalyzerState::new();
    assert!(s.clock_fits(0, Some(u64::MAX)));
    assert_eq!(s.display_time(0, Some(1 << 63)), 0);
    assert!(!s.clock_fits(0, Some((1 << 63) - 1)));
    assert!(s.clock_fits(0, None));
}

#[test]
fn snapshots_format_outside_the_capture() {
    let mut a = session();
    rx(&mut a, frame(1, &[7]), 5, None);
    let snap = a.trace_snapshot(0, 10, &FilterSpec::All);
    assert_eq!(snap.records.len(), 1);
    assert_eq!(snap.into_reply().frames[0].data, "07");
    let snap = a.aggregate_snapshot(&FilterSpec::All, 6);
    assert_eq!(snap.into_reply().rows[0].last_data, "07");
}

#[test]
fn unrecordable_frames_are_recognised() {
    let a = session();
    let f = CanFrame {
        id: CanId::Standard(1),
        kind: FrameKind::Fd { brs: false },
        dlc: 65,
        data: vec![0; 65],
    };
    assert!(!a.can_record(&f, None, 0));
}

#[test]
fn bus_health_names_the_state() {
    let default = BusHealthDto::default();
    assert!(!default.supported && default.state.is_none());
    assert!(default.tx_errors.is_none() && default.rx_errors.is_none());
    let none = BusHealthDto::from_state(None);
    assert!(!none.supported && none.state.is_none());
    assert!(none.tx_errors.is_none() && none.rx_errors.is_none());
    let names = [
        (CanControllerState::ErrorActive, "error_active"),
        (CanControllerState::ErrorWarning, "error_warning"),
        (CanControllerState::ErrorPassive, "error_passive"),
        (CanControllerState::BusOff, "bus_off"),
        (CanControllerState::Stopped, "stopped"),
        (CanControllerState::Sleeping, "sleeping"),
    ];
    for (state, name) in names {
        let h = BusHealthDto::from_state(Some(CanBusState {
            state: Some(state),
            tx_errors: Some(1),
            rx_errors: None,
        }));
        assert_eq!((h.supported, h.state.as_deref()), (true, Some(name)));
        assert_eq!((h.tx_errors, h.rx_errors), (Some(1), None));
    }
    let h = BusHealthDto::from_state(Some(CanBusState {
        state: None,
        tx_errors: None,
        rx_errors: Some(2),
    }));
    assert!(h.supported && h.state.is_none());
}
