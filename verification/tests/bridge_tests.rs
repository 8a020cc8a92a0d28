use isotp_bridge::ble_protocol::{
    encode_isotp_response, BleMessageParser, ConfigureIsotpFilterCommand, ParsedBleMessage,
    UploadIsotpChunkCommand,
};
use isotp_bridge::can_manager::{CanFilterTable, CanFrameQueue};
use isotp_bridge::isotp_ble_bridge::{IsotpBleBridge, ManagerError};

fn configure(filter_id: u32, req: u32, rep: u32) -> ConfigureIsotpFilterCommand {
    ConfigureIsotpFilterCommand {
        filter_id,
        request_arbitration_id: req,
        reply_arbitration_id: rep,
        name: Vec::new(),
    }
}

fn upload(offset: u16, chunk: Vec<u8>) -> UploadIsotpChunkCommand {
    UploadIsotpChunkCommand { offset, chunk_length: chunk.len() as u16, chunk }
}

#[test]
fn configure_short_request_single_frame_reply() {
    let mut bridge = IsotpBleBridge::new();
    let mut filters = CanFilterTable::new();
    let mut outbox = CanFrameQueue::new_egress();

    // Configure filter id 1 for 0x7E0 / 0x7E8, via the wire parser.
    let raw = [
        0x06u8, 0x00, 0x00, 0x00, 0x01, 0x00, 0x00, 0x07, 0xE0, 0x00, 0x00, 0x07, 0xE8, 0x00,
        0x00, 0x00, 0x00,
    ];
    let parsed = BleMessageParser::parse(&raw).unwrap();
    assert_eq!(bridge.handle_ble_message(&parsed, &mut filters, &mut outbox), Ok(()));
    assert_eq!(bridge.session_count(), 1);
    assert!(filters.matches_filter(0x7E8));

    // Stage the two ids and a 3-byte request in one chunk.
    let cmd = upload(
        0,
        vec![0x00, 0x00, 0x07, 0xE0, 0x00, 0x00, 0x07, 0xE8, 0x22, 0xF1, 0x90],
    );
    assert_eq!(bridge.handle_upload_chunk(&cmd), Ok(()));
    assert_eq!(bridge.staging_len(), 11);

    // Trigger the send: one single frame on the request id.
    assert_eq!(bridge.handle_send_buffer(11, &mut outbox), Ok(()));
    let frame = outbox.pop().unwrap();
    assert_eq!(frame.id, 0x7E0);
    assert_eq!(frame.data, vec![0x03, 0x22, 0xF1, 0x90, 0x55, 0x55, 0x55, 0x55]);
    // The staging buffer is cleared after a successful send.
    assert_eq!(bridge.staging_len(), 0);

    // The single-frame reply becomes one notification payload.
    let outputs = bridge.handle_can_frame(
        0x7E8,
        &[0x06, 0x62, 0xF1, 0x90, 0x01, 0x02, 0x03, 0x00],
    );
    assert!(outputs.frames.is_empty());
    assert_eq!(outputs.messages.len(), 1);
    let notification = encode_isotp_response(&outputs.messages[0]);
    assert_eq!(
        notification,
        vec![
            0x00, 0x00, 0x07, 0xE0, 0x00, 0x00, 0x07, 0xE8, 0x62, 0xF1, 0x90, 0x01, 0x02, 0x03
        ]
    );
}

#[test]
fn multi_frame_reception_emits_flow_control_then_notification() {
    let mut bridge = IsotpBleBridge::new();
    let mut filters = CanFilterTable::new();
    assert_eq!(
        bridge.handle_configure_filter(&configure(1, 0x7E0, 0x7E8), &mut filters),
        Ok(())
    );

    // First frame announcing 14 bytes: the bridge answers with FC(CTS).
    let outputs = bridge.handle_can_frame(
        0x7E8,
        &[0x10, 0x0E, 0x62, 0xF1, 0x90, 0xAA, 0xBB, 0xCC],
    );
    assert_eq!(outputs.frames.len(), 1);
    assert_eq!(outputs.frames[0].id, 0x7E0);
    assert_eq!(
        outputs.frames[0].data,
        vec![0x30, 0x00, 0x0A, 0x55, 0x55, 0x55, 0x55, 0x55]
    );
    assert!(outputs.messages.is_empty());

    // Two consecutive frames complete the 14-byte PDU.
    let outputs = bridge.handle_can_frame(
        0x7E8,
        &[0x21, 0xDD, 0xEE, 0xFF, 0x11, 0x22, 0x33, 0x44],
    );
    assert!(outputs.messages.is_empty());
    let outputs = bridge.handle_can_frame(
        0x7E8,
        &[0x22, 0x55, 0x66, 0x77, 0x88, 0x99, 0xAA, 0xBB],
    );
    assert_eq!(outputs.messages.len(), 1);
    assert_eq!(outputs.messages[0].request_arbitration_id, 0x7E0);
    assert_eq!(outputs.messages[0].reply_arbitration_id, 0x7E8);
    assert_eq!(
        outputs.messages[0].pdu,
        vec![0x62, 0xF1, 0x90, 0xAA, 0xBB, 0xCC, 0xDD, 0xEE, 0xFF, 0x11, 0x22, 0x33, 0x44, 0x55]
    );
}

#[test]
fn multi_frame_transmission_paces_and_pauses() {
    let mut bridge = IsotpBleBridge::new();
    let mut filters = CanFilterTable::new();
    let mut outbox = CanFrameQueue::new_egress();
    assert_eq!(
        bridge.handle_configure_filter(&configure(1, 0x7E0, 0x7E8), &mut filters),
        Ok(())
    );

    // Stage a 24-byte PDU (3 consecutive frames) and send: the first
    // frame goes out, then the session waits for flow control.
    let mut staged = vec![0x00, 0x00, 0x07, 0xE0, 0x00, 0x00, 0x07, 0xE8];
    let pdu: Vec<u8> = (0..24u8).collect();
    staged.extend_from_slice(&pdu);
    assert_eq!(bridge.handle_upload_chunk(&upload(0, staged)), Ok(()));
    assert_eq!(bridge.handle_send_buffer(32, &mut outbox), Ok(()));
    let ff = outbox.pop().unwrap();
    assert_eq!(ff.id, 0x7E0);
    assert_eq!(ff.data[0], 0x10);
    assert_eq!(ff.data[1], 24);
    // Nothing more until the peer's FC(CTS).
    assert!(bridge.pump_transmissions().is_empty());

    // FC(CTS, bs=2, st=20 ms) from the peer releases two paced frames.
    let outputs = bridge.handle_can_frame(
        0x7E8,
        &[0x30, 0x02, 0x14, 0x55, 0x55, 0x55, 0x55, 0x55],
    );
    assert!(outputs.frames.is_empty());
    let step1 = bridge.pump_transmissions();
    assert_eq!(step1.len(), 1);
    assert_eq!(step1[0].0.data[0], 0x21);
    assert_eq!(step1[0].1, 20);
    let step2 = bridge.pump_transmissions();
    assert_eq!(step2.len(), 1);
    assert_eq!(step2[0].0.data[0], 0x22);
    assert_eq!(step2[0].1, 20);
    // Block credit exhausted: paused until the next FC(CTS).
    assert!(bridge.pump_transmissions().is_empty());
    bridge.handle_can_frame(0x7E8, &[0x30, 0x02, 0x14, 0x55, 0x55, 0x55, 0x55, 0x55]);
    let step3 = bridge.pump_transmissions();
    assert_eq!(step3.len(), 1);
    assert_eq!(step3[0].0.data[0], 0x23);
    assert!(bridge.pump_transmissions().is_empty());
}

#[test]
fn bad_offset_leaves_staging_untouched() {
    let mut bridge = IsotpBleBridge::new();
    let mut filters = CanFilterTable::new();
    let mut outbox = CanFrameQueue::new_egress();
    assert_eq!(
        bridge.handle_configure_filter(&configure(1, 0x7E0, 0x7E8), &mut filters),
        Ok(())
    );

    // offset 4090 + length 10 exceeds the 4096-byte staging buffer.
    let bad = upload(4090, vec![0u8; 10]);
    assert_eq!(bridge.handle_upload_chunk(&bad), Err(ManagerError::InvalidOffset));
    assert_eq!(bridge.staging_len(), 0);

    // A following, proper upload and send behave as if the bad upload
    // never occurred.
    let cmd = upload(
        0,
        vec![0x00, 0x00, 0x07, 0xE0, 0x00, 0x00, 0x07, 0xE8, 0x22, 0xF1, 0x90],
    );
    assert_eq!(bridge.handle_upload_chunk(&cmd), Ok(()));
    assert_eq!(bridge.handle_send_buffer(11, &mut outbox), Ok(()));
    assert_eq!(outbox.pop().unwrap().data[0], 0x03);
}

#[test]
fn duplicate_filter_id_is_rejected() {
    let mut bridge = IsotpBleBridge::new();
    let mut filters = CanFilterTable::new();
    assert_eq!(
        bridge.handle_configure_filter(&configure(7, 0x7E0, 0x7E8), &mut filters),
        Ok(())
    );
    assert_eq!(
        bridge.handle_configure_filter(&configure(7, 0x700, 0x708), &mut filters),
        Err(ManagerError::FilterAlreadyExists)
    );
    assert_eq!(bridge.session_count(), 1);
}

#[test]
fn registry_capacity_is_enforced() {
    let mut bridge = IsotpBleBridge::new();
    let mut filters = CanFilterTable::new();
    for k in 0..4u32 {
        assert_eq!(
            bridge.handle_configure_filter(&configure(k, 0x700 + k, 0x708 + k), &mut filters),
            Ok(())
        );
    }
    assert_eq!(
        bridge.handle_configure_filter(&configure(9, 0x7E0, 0x7E8), &mut filters),
        Err(ManagerError::FailedToInsertFilter)
    );
    assert_eq!(bridge.session_count(), 4);
}

#[test]
fn staged_uploads_accumulate() {
    let mut bridge = IsotpBleBridge::new();
    let mut filters = CanFilterTable::new();
    let mut outbox = CanFrameQueue::new_egress();
    assert_eq!(
        bridge.handle_configure_filter(&configure(1, 0x7E0, 0x7E8), &mut filters),
        Ok(())
    );

    // Two non-overlapping chunks: the ids, then the PDU.
    assert_eq!(
        bridge.handle_upload_chunk(&upload(
            0,
            vec![0x00, 0x00, 0x07, 0xE0, 0x00, 0x00, 0x07, 0xE8],
        )),
        Ok(())
    );
    assert_eq!(bridge.handle_upload_chunk(&upload(8, vec![0x22, 0xF1, 0x90])), Ok(()));
    assert_eq!(bridge.staging_len(), 11);
    assert_eq!(bridge.handle_send_buffer(11, &mut outbox), Ok(()));
    let frame = outbox.pop().unwrap();
    assert_eq!(frame.id, 0x7E0);
    assert_eq!(frame.data, vec![0x03, 0x22, 0xF1, 0x90, 0x55, 0x55, 0x55, 0x55]);
}

#[test]
fn send_errors_are_reported() {
    let mut bridge = IsotpBleBridge::new();
    let mut filters = CanFilterTable::new();
    let mut outbox = CanFrameQueue::new_egress();
    assert_eq!(
        bridge.handle_configure_filter(&configure(1, 0x7E0, 0x7E8), &mut filters),
        Ok(())
    );

    // Nothing staged.
    assert_eq!(
        bridge.handle_send_buffer(11, &mut outbox),
        Err(ManagerError::InvalidPayloadLength)
    );

    // Staged length disagrees with the declared total.
    assert_eq!(
        bridge.handle_upload_chunk(&upload(
            0,
            vec![0x00, 0x00, 0x07, 0xE0, 0x00, 0x00, 0x07, 0xE8, 0x22],
        )),
        Ok(())
    );
    assert_eq!(
        bridge.handle_send_buffer(11, &mut outbox),
        Err(ManagerError::InvalidPayloadLength)
    );

    // Ids that no session carries.
    let mut other = IsotpBleBridge::new();
    assert_eq!(
        other.handle_upload_chunk(&upload(
            0,
            vec![0x00, 0x00, 0x01, 0x23, 0x00, 0x00, 0x04, 0x56, 0x22],
        )),
        Ok(())
    );
    assert_eq!(other.handle_send_buffer(9, &mut outbox), Err(ManagerError::FilterNotFound));

    // An 8-byte staging buffer carries no PDU at all.
    let mut empty_pdu = IsotpBleBridge::new();
    let mut filters2 = CanFilterTable::new();
    assert_eq!(
        empty_pdu.handle_configure_filter(&configure(1, 0x7E0, 0x7E8), &mut filters2),
        Ok(())
    );
    assert_eq!(
        empty_pdu.handle_upload_chunk(&upload(
            0,
            vec![0x00, 0x00, 0x07, 0xE0, 0x00, 0x00, 0x07, 0xE8],
        )),
        Ok(())
    );
    assert_eq!(
        empty_pdu.handle_send_buffer(8, &mut outbox),
        Err(ManagerError::FailedToSendMessage)
    );
}

#[test]
fn full_egress_queue_fails_the_send_and_keeps_the_staging() {
    let mut bridge = IsotpBleBridge::new();
    let mut filters = CanFilterTable::new();
    // No transmit slot at all.
    let mut blocked = CanFrameQueue::with_capacity(0);
    assert_eq!(
        bridge.handle_configure_filter(&configure(1, 0x7E0, 0x7E8), &mut filters),
        Ok(())
    );
    let mut staged = vec![0x00, 0x00, 0x07, 0xE0, 0x00, 0x00, 0x07, 0xE8];
    staged.extend_from_slice(&(0..24u8).collect::<Vec<u8>>());
    assert_eq!(bridge.handle_upload_chunk(&upload(0, staged)), Ok(()));
    assert_eq!(
        bridge.handle_send_buffer(32, &mut blocked),
        Err(ManagerError::FailedToSendMessage)
    );
    // The transmission was abandoned, nothing is in flight.
    assert!(bridge.pump_transmissions().is_empty());
    // The staging buffer was kept: the same send succeeds once slots free.
    let mut open = CanFrameQueue::new_egress();
    assert_eq!(bridge.handle_send_buffer(32, &mut open), Ok(()));
    assert_eq!(open.pop().unwrap().data[0], 0x10);
}

#[test]
fn unrouted_frames_reach_no_session() {
    let mut bridge = IsotpBleBridge::new();
    let mut filters = CanFilterTable::new();
    assert_eq!(
        bridge.handle_configure_filter(&configure(1, 0x7E0, 0x7E8), &mut filters),
        Ok(())
    );
    assert_eq!(
        bridge.handle_configure_filter(&configure(2, 0x700, 0x708), &mut filters),
        Ok(())
    );
    // An id that is neither a request nor a reply id of any session.
    let outputs = bridge.handle_can_frame(
        0x123,
        &[0x10, 0x0E, 0x62, 0xF1, 0x90, 0xAA, 0xBB, 0xCC],
    );
    assert!(outputs.frames.is_empty());
    assert!(outputs.messages.is_empty());
}

#[test]
fn periodic_commands_are_reserved() {
    let mut bridge = IsotpBleBridge::new();
    let mut filters = CanFilterTable::new();
    let mut outbox = CanFrameQueue::new_egress();
    let start = BleMessageParser::parse(&[
        0x04u8, 0x01, 0x00, 0x64, 0x00, 0x00, 0x07, 0xE0, 0x00, 0x00, 0x07, 0xE8, 0x00, 0x00,
    ])
    .unwrap();
    assert!(matches!(start, ParsedBleMessage::StartPeriodicIsotpMessage(_)));
    assert_eq!(
        bridge.handle_ble_message(&start, &mut filters, &mut outbox),
        Err(ManagerError::Unimplemented)
    );
    let stop = BleMessageParser::parse(&[
        0x05u8, 0x01, 0x00, 0x00, 0x07, 0xE0, 0x00, 0x00, 0x07, 0xE8,
    ])
    .unwrap();
    assert_eq!(
        bridge.handle_ble_message(&stop, &mut filters, &mut outbox),
        Err(ManagerError::Unimplemented)
    );
}

#[test]
fn full_can_filter_table_refuses_configuration() {
    let mut bridge = IsotpBleBridge::new();
    let mut filters = CanFilterTable::new();
    for k in 0..8u32 {
        assert!(filters.register_isotp_filter(0x600 + k));
    }
    assert_eq!(
        bridge.handle_configure_filter(&configure(1, 0x7E0, 0x7E8), &mut filters),
        Err(ManagerError::FailedToInsertFilter)
    );
    assert_eq!(bridge.session_count(), 0);
}

#[test]
fn later_upload_overwrites_staged_bytes() {
    let mut bridge = IsotpBleBridge::new();
    let mut filters = CanFilterTable::new();
    let mut outbox = CanFrameQueue::new_egress();
    assert_eq!(
        bridge.handle_configure_filter(&configure(1, 0x7E0, 0x7E8), &mut filters),
        Ok(())
    );
    assert_eq!(
        bridge.handle_upload_chunk(&upload(
            0,
            vec![0x00, 0x00, 0x07, 0xE0, 0x00, 0x00, 0x07, 0xE8, 0x22, 0xF1, 0x90],
        )),
        Ok(())
    );
    // Overwrite the last staged byte without growing the buffer.
    assert_eq!(bridge.handle_upload_chunk(&upload(10, vec![0x91])), Ok(()));
    assert_eq!(bridge.staging_len(), 11);
    assert_eq!(bridge.handle_send_buffer(11, &mut outbox), Ok(()));
    let frame = outbox.pop().unwrap();
    assert_eq!(frame.data, vec![0x03, 0x22, 0xF1, 0x91, 0x55, 0x55, 0x55, 0x55]);
}

#[test]
fn frames_route_to_every_matching_session() {
    let mut bridge = IsotpBleBridge::new();
    let mut filters = CanFilterTable::new();
    // Two sessions listening on the same reply id.
    assert_eq!(
        bridge.handle_configure_filter(&configure(1, 0x7E0, 0x7E8), &mut filters),
        Ok(())
    );
    assert_eq!(
        bridge.handle_configure_filter(&configure(2, 0x7E1, 0x7E8), &mut filters),
        Ok(())
    );
    let outputs = bridge.handle_can_frame(
        0x7E8,
        &[0x06, 0x62, 0xF1, 0x90, 0x01, 0x02, 0x03, 0x00],
    );
    // Both sessions deliver the PDU, in configuration order.
    assert_eq!(outputs.messages.len(), 2);
    assert_eq!(outputs.messages[0].request_arbitration_id, 0x7E0);
    assert_eq!(outputs.messages[1].request_arbitration_id, 0x7E1);
}
