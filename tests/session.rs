use kiosk_serial::presence::{PinState, PresenceMonitor};
use kiosk_serial::reader::{serial_health, FramedReader, ReadOutcome, ReaderAction};
use kiosk_serial::slot::{SessionSlot, SlotAction, SlotEvent};

fn drive_ok(slot: &mut SessionSlot, first: SlotAction, now_ms: u64) -> Vec<SlotAction> {
    let mut seen = Vec::new();
    let mut action = first;
    while action != SlotAction::Idle {
        seen.push(action);
        let event = match action {
            SlotAction::Cancel => SlotEvent::CancelSent,
            SlotAction::Join => SlotEvent::WorkerJoined,
            SlotAction::Release => SlotEvent::HandleReleased,
            SlotAction::Open => SlotEvent::Opened(now_ms),
            SlotAction::Spawn => SlotEvent::WorkerSpawned,
            SlotAction::Idle => unreachable!(),
        };
        action = slot.handle(event);
    }
    seen
}

#[test]
fn start_on_empty_slot_opens_then_spawns() {
    let mut slot = SessionSlot::new(0);
    let first = slot.handle(SlotEvent::StartRequested);
    let seen = drive_ok(&mut slot, first, 100);
    assert_eq!(seen, vec![SlotAction::Open, SlotAction::Spawn]);
    assert!(slot.is_connected());
    assert!(slot.has_worker());
    assert_eq!(slot.opened_at_ms(), 100);
}

#[test]
fn second_start_closes_first_session_before_opening() {
    let mut slot = SessionSlot::new(0);
    let first = slot.handle(SlotEvent::StartRequested);
    drive_ok(&mut slot, first, 100);
    let again = slot.handle(SlotEvent::StartRequested);
    let seen = drive_ok(&mut slot, again, 200);
    assert_eq!(
        seen,
        vec![
            SlotAction::Cancel,
            SlotAction::Join,
            SlotAction::Release,
            SlotAction::Open,
            SlotAction::Spawn
        ]
    );
    assert!(slot.is_connected());
    assert!(slot.has_worker());
    assert_eq!(slot.opened_at_ms(), 200);
    assert_eq!(slot.next_action(), SlotAction::Idle);
}

#[test]
fn stop_tears_down_and_is_idempotent() {
    let mut slot = SessionSlot::new(0);
    let first = slot.handle(SlotEvent::StartRequested);
    drive_ok(&mut slot, first, 5);
    let stop = slot.handle(SlotEvent::StopRequested);
    let seen = drive_ok(&mut slot, stop, 6);
    assert_eq!(seen, vec![SlotAction::Cancel, SlotAction::Join, SlotAction::Release]);
    assert!(!slot.is_connected());
    assert!(!slot.has_worker());
    assert_eq!(slot.handle(SlotEvent::StopRequested), SlotAction::Idle);
    assert!(!slot.is_connected());
}

#[test]
fn failed_open_leaves_slot_closed() {
    let mut slot = SessionSlot::new(0);
    assert_eq!(slot.handle(SlotEvent::StartRequested), SlotAction::Open);
    assert_eq!(slot.handle(SlotEvent::OpenFailed), SlotAction::Idle);
    assert!(!slot.is_connected());
    assert!(!slot.has_worker());
}

#[test]
fn out_of_order_report_changes_nothing() {
    let mut slot = SessionSlot::new(0);
    assert_eq!(slot.handle(SlotEvent::WorkerSpawned), SlotAction::Idle);
    assert!(!slot.has_worker());
    assert_eq!(slot.handle(SlotEvent::StartRequested), SlotAction::Open);
    assert_eq!(slot.handle(SlotEvent::WorkerJoined), SlotAction::Open);
}

#[test]
fn health_after_five_bytes_and_a_hard_error() {
    let mut slot = SessionSlot::new(0);
    let first = slot.handle(SlotEvent::StartRequested);
    drive_ok(&mut slot, first, 1_000);
    let mut reader = FramedReader::new();
    for b in [0x02u8, b'a', b'b', b'c', b'd'] {
        reader.tick(1_100);
        assert!(matches!(reader.on_read(ReadOutcome::Byte(b), 1_100), ReaderAction::Continue));
    }
    assert!(matches!(reader.on_read(ReadOutcome::Failed, 1_200), ReaderAction::Stop));
    assert!(reader.is_stopped());
    let health = serial_health(&slot, 62_500, reader.read_count(), reader.error_count());
    assert_eq!(health.read_count, 5);
    assert_eq!(health.error_count, 1);
    assert!(health.is_connected);
    assert_eq!(health.uptime_seconds, 61);
}

#[test]
fn health_with_clock_before_open_reports_zero_uptime() {
    let slot = SessionSlot::new(5_000);
    let health = serial_health(&slot, 1_000, 0, 0);
    assert_eq!(health.uptime_seconds, 0);
    assert!(!health.is_connected);
}

#[test]
fn reader_emits_completed_frame() {
    let mut reader = FramedReader::new();
    for b in [0x02u8, b'h', b'i'] {
        assert!(matches!(reader.on_read(ReadOutcome::Byte(b), 0), ReaderAction::Continue));
    }
    match reader.on_read(ReadOutcome::Byte(0x03), 0) {
        ReaderAction::Emit(text) => assert_eq!(text, "hi"),
        other => panic!("unexpected {:?}", other),
    }
    assert_eq!(reader.read_count(), 4);
}

#[test]
fn reader_yields_on_timeout_without_counting() {
    let mut reader = FramedReader::new();
    assert!(matches!(reader.on_read(ReadOutcome::TimedOut, 0), ReaderAction::Yield));
    assert_eq!(reader.read_count(), 0);
    assert_eq!(reader.error_count(), 0);
}

#[test]
fn reader_after_stop_changes_nothing() {
    let mut reader = FramedReader::new();
    reader.on_read(ReadOutcome::Failed, 0);
    assert!(matches!(reader.on_read(ReadOutcome::Byte(1), 0), ReaderAction::Stop));
    assert_eq!(reader.read_count(), 0);
    assert_eq!(reader.error_count(), 1);
}

#[test]
fn reader_tick_drops_overdue_frame() {
    let mut reader = FramedReader::new();
    reader.on_read(ReadOutcome::Byte(0x02), 0);
    reader.on_read(ReadOutcome::Byte(b'x'), 0);
    reader.tick(5_001);
    assert!(matches!(reader.on_read(ReadOutcome::Byte(0x03), 5_001), ReaderAction::Continue));
}

#[test]
fn presence_reports_changes_only() {
    let mut mon = PresenceMonitor::new();
    let low = PinState { cts: false, dsr: false };
    let cts = PinState { cts: true, dsr: false };
    assert_eq!(mon.observe(Some(low), 1), None);
    let ev = mon.observe(Some(cts), 2).expect("change reported");
    assert!(ev.cts && !ev.dsr && ev.detected);
    assert_eq!(ev.timestamp_ms, 2);
    for t in 3..10 {
        assert_eq!(mon.observe(Some(cts), t), None);
    }
    assert_eq!(mon.observe(None, 11), None);
    assert_eq!(mon.last_state(), cts);
    let ev = mon.observe(Some(low), 12).expect("change reported");
    assert!(!ev.detected);
}

#[test]
fn presence_dsr_alone_counts_as_detected() {
    let mut mon = PresenceMonitor::new();
    let ev = mon.observe(Some(PinState { cts: false, dsr: true }), 0).unwrap();
    assert!(ev.detected);
    assert!(ev.dsr && !ev.cts);
}
