use isotp_bridge::can_manager::{
    plan_transmission, process_raw_frame, triage_notification, CanFilterTable, CanFrameQueue,
    CanMessage, CanNotification, IsrAction, TxDecision,
};

#[test]
fn interrupt_triage() {
    assert_eq!(triage_notification(CanNotification::Rx, true), IsrAction::EnqueueFrame);
    assert_eq!(triage_notification(CanNotification::Rx, false), IsrAction::Nothing);
    assert_eq!(triage_notification(CanNotification::Error, true), IsrAction::RequestReset);
    assert_eq!(triage_notification(CanNotification::Error, false), IsrAction::RequestReset);
    assert_eq!(triage_notification(CanNotification::Tx, true), IsrAction::Nothing);
}

#[test]
fn filter_table_capacity_and_match() {
    let mut table = CanFilterTable::new();
    for k in 0..8u32 {
        assert!(table.register_isotp_filter(0x700 + k));
    }
    assert_eq!(table.filter_count(), 8);
    // The table is full.
    assert!(!table.register_isotp_filter(0x7FF));
    assert_eq!(table.filter_count(), 8);

    assert!(table.matches_filter(0x703));
    assert!(!table.matches_filter(0x7FF));
}

#[test]
fn raw_frames_are_cut_and_filtered() {
    let mut table = CanFilterTable::new();
    table.register_isotp_filter(0x7E8);
    let raw = [0x06u8, 0x62, 0xF1, 0x90, 0x01, 0x02, 0x03, 0x00];

    let kept = process_raw_frame(&table, 0x7E8, 4, &raw).unwrap();
    assert_eq!(kept.id, 0x7E8);
    assert_eq!(kept.data, vec![0x06, 0x62, 0xF1, 0x90]);

    // A non-matching id is dropped.
    assert!(process_raw_frame(&table, 0x123, 4, &raw).is_none());
    // A declared length beyond a classic CAN frame is dropped.
    assert!(process_raw_frame(&table, 0x7E8, 9, &raw).is_none());
    // A zero-length frame is kept empty here; the session ignores it.
    let empty = process_raw_frame(&table, 0x7E8, 0, &raw).unwrap();
    assert!(empty.data.is_empty());
}

#[test]
fn transmit_worker_decisions() {
    let short = CanMessage { id: 1, data: vec![0x03, 0x22, 0xF1, 0x90] };
    let padded = CanMessage { id: 1, data: vec![0x03, 0x22, 0xF1, 0x90, 0x55, 0x55, 0x55, 0x55] };
    assert_eq!(plan_transmission(&short, true, 4), TxDecision::RefusedLength);
    assert_eq!(plan_transmission(&padded, false, 4), TxDecision::NotReady);
    assert_eq!(plan_transmission(&padded, true, 0), TxDecision::NoSlot);
    assert_eq!(plan_transmission(&padded, true, -1), TxDecision::NoSlot);
    assert_eq!(plan_transmission(&padded, true, 2), TxDecision::Transmit);
}

#[test]
fn frame_queues_are_bounded_and_ordered() {
    let mut queue = CanFrameQueue::with_capacity(2);
    assert!(queue.push(CanMessage { id: 1, data: vec![0xAA] }));
    assert!(queue.push(CanMessage { id: 2, data: vec![0xBB] }));
    // Full: the frame is refused, not queued.
    assert!(!queue.push(CanMessage { id: 3, data: vec![0xCC] }));
    assert_eq!(queue.len(), 2);

    let first = queue.pop().unwrap();
    assert_eq!((first.id, first.data), (1, vec![0xAA]));
    let second = queue.pop().unwrap();
    assert_eq!((second.id, second.data), (2, vec![0xBB]));
    assert!(queue.pop().is_none());
}

#[test]
fn standard_queue_capacities() {
    let mut ingress = CanFrameQueue::new_ingress();
    for k in 0..32u32 {
        assert!(ingress.push(CanMessage { id: k, data: vec![] }));
    }
    assert!(!ingress.push(CanMessage { id: 99, data: vec![] }));

    let mut egress = CanFrameQueue::new_egress();
    for k in 0..16u32 {
        assert!(egress.push(CanMessage { id: k, data: vec![] }));
    }
    assert!(!egress.push(CanMessage { id: 99, data: vec![] }));
}
