use isotp_bridge::ble_protocol::{
    BleMessageParser, CommandId, ConfigureIsotpFilterCommand, IsoTpMessage, ParseError,
    ParsedBleMessage, SendIsotpBufferCommand, StartPeriodicIsotpMessageCommand,
    StopPeriodicIsotpMessageCommand, UploadIsotpChunkCommand, encode_isotp_response,
};

#[test]
fn command_id_from_byte() {
    assert!(matches!(CommandId::from_byte(0x02), Ok(CommandId::UploadIsotpChunk)));
    assert!(matches!(CommandId::from_byte(0x03), Ok(CommandId::SendIsotpBuffer)));
    assert!(matches!(CommandId::from_byte(0x04), Ok(CommandId::StartPeriodicIsotpMessage)));
    assert!(matches!(CommandId::from_byte(0x05), Ok(CommandId::StopPeriodicIsotpMessage)));
    assert!(matches!(CommandId::from_byte(0x06), Ok(CommandId::ConfigureIsotpFilter)));
    assert!(matches!(CommandId::from_byte(0x01), Err(ParseError::InvalidCommand)));
    assert!(matches!(CommandId::from_byte(0xFF), Err(ParseError::InvalidCommand)));
}

#[test]
fn parse_upload_chunk() {
    let buffer = [0x02u8, 0x00, 0x10, 0x00, 0x03, 0xAA, 0xBB, 0xCC];
    let cmd = UploadIsotpChunkCommand::parse(&buffer).unwrap();
    assert_eq!(cmd.offset, 0x0010);
    assert_eq!(cmd.chunk_length, 3);
    assert_eq!(cmd.chunk, vec![0xAA, 0xBB, 0xCC]);
}

#[test]
fn parse_upload_chunk_too_short() {
    assert!(matches!(
        UploadIsotpChunkCommand::parse(&[0x02, 0x00, 0x00]),
        Err(ParseError::BufferTooSmall)
    ));
    // Declares 4 bytes but carries 3.
    assert!(matches!(
        UploadIsotpChunkCommand::parse(&[0x02, 0x00, 0x00, 0x00, 0x04, 0x01, 0x02, 0x03]),
        Err(ParseError::BufferTooSmall)
    ));
}

#[test]
fn parse_send_buffer() {
    let cmd = SendIsotpBufferCommand::parse(&[0x03, 0x01, 0x0B]).unwrap();
    assert_eq!(cmd.total_length, 0x010B);
    assert!(matches!(
        SendIsotpBufferCommand::parse(&[0x03, 0x01]),
        Err(ParseError::BufferTooSmall)
    ));
}

#[test]
fn parse_start_periodic() {
    let buffer = [
        0x04u8, 0x07, 0x03, 0xE8, 0x00, 0x00, 0x07, 0xE0, 0x00, 0x00, 0x07, 0xE8, 0x00, 0x02,
        0x00, 0x02, 0x11, 0x22, 0x00, 0x01, 0x33,
    ];
    let cmd = StartPeriodicIsotpMessageCommand::parse(&buffer).unwrap();
    assert_eq!(cmd.periodic_message_index, 7);
    assert_eq!(cmd.interval_ms, 1000);
    assert_eq!(cmd.request_arbitration_id, 0x7E0);
    assert_eq!(cmd.reply_arbitration_id, 0x7E8);
    assert_eq!(cmd.message_count, 2);
    assert_eq!(cmd.message_data, vec![0x00, 0x02, 0x11, 0x22, 0x00, 0x01, 0x33]);

    let mut iter = cmd.iter_messages();
    assert_eq!(iter.next(), Some(vec![0x11, 0x22]));
    assert_eq!(iter.next(), Some(vec![0x33]));
    assert_eq!(iter.next(), None);
}

#[test]
fn periodic_iterator_stops_on_truncated_message() {
    let buffer = [
        0x04u8, 0x01, 0x00, 0x64, 0x00, 0x00, 0x07, 0xE0, 0x00, 0x00, 0x07, 0xE8, 0x00, 0x01,
        0x00, 0x05, 0x11,
    ];
    let cmd = StartPeriodicIsotpMessageCommand::parse(&buffer).unwrap();
    // The payload declares 5 bytes but carries 1: nothing is yielded.
    let mut iter = cmd.iter_messages();
    assert_eq!(iter.next(), None);
}

#[test]
fn parse_stop_periodic() {
    let buffer = [0x05u8, 0x02, 0x00, 0x00, 0x07, 0xE0, 0x00, 0x00, 0x07, 0xE8];
    let cmd = StopPeriodicIsotpMessageCommand::parse(&buffer).unwrap();
    assert_eq!(cmd.periodic_message_index, 2);
    assert_eq!(cmd.request_arbitration_id, 0x7E0);
    assert_eq!(cmd.reply_arbitration_id, 0x7E8);
    assert!(matches!(
        StopPeriodicIsotpMessageCommand::parse(&[0x05, 0x02]),
        Err(ParseError::BufferTooSmall)
    ));
}

#[test]
fn parse_configure_filter() {
    let buffer = [
        0x06u8, 0x00, 0x00, 0x00, 0x01, 0x00, 0x00, 0x07, 0xE0, 0x00, 0x00, 0x07, 0xE8, 0x00,
        0x00, 0x00, 0x03, b'e', b'c', b'u',
    ];
    let cmd = ConfigureIsotpFilterCommand::parse(&buffer).unwrap();
    assert_eq!(cmd.filter_id, 1);
    assert_eq!(cmd.request_arbitration_id, 0x7E0);
    assert_eq!(cmd.reply_arbitration_id, 0x7E8);
    assert_eq!(cmd.name, b"ecu".to_vec());
}

#[test]
fn parse_configure_filter_short_name() {
    // Declares a 4-byte name but carries none.
    let buffer = [
        0x06u8, 0x00, 0x00, 0x00, 0x01, 0x00, 0x00, 0x07, 0xE0, 0x00, 0x00, 0x07, 0xE8, 0x00,
        0x00, 0x00, 0x04,
    ];
    assert!(matches!(
        ConfigureIsotpFilterCommand::parse(&buffer),
        Err(ParseError::BufferTooSmall)
    ));
}

#[test]
fn parser_dispatches_by_opcode() {
    let configure = [
        0x06u8, 0x00, 0x00, 0x00, 0x01, 0x00, 0x00, 0x07, 0xE0, 0x00, 0x00, 0x07, 0xE8, 0x00,
        0x00, 0x00, 0x00,
    ];
    assert!(matches!(
        BleMessageParser::parse(&configure),
        Ok(ParsedBleMessage::ConfigureIsotpFilter(_))
    ));
    assert!(matches!(
        BleMessageParser::parse(&[0x03, 0x00, 0x0B]),
        Ok(ParsedBleMessage::SendIsotpBuffer(_))
    ));
    assert!(matches!(BleMessageParser::parse(&[]), Err(ParseError::BufferTooSmall)));
    assert!(matches!(BleMessageParser::parse(&[0x09]), Err(ParseError::InvalidCommand)));
}

#[test]
fn encode_response_frames_ids_then_pdu() {
    let msg = IsoTpMessage {
        request_arbitration_id: 0x7E0,
        reply_arbitration_id: 0x7E8,
        pdu: vec![0x62, 0xF1, 0x90, 0x01, 0x02, 0x03],
    };
    let encoded = encode_isotp_response(&msg);
    assert_eq!(
        encoded,
        vec![
            0x00, 0x00, 0x07, 0xE0, 0x00, 0x00, 0x07, 0xE8, 0x62, 0xF1, 0x90, 0x01, 0x02, 0x03
        ]
    );
}
