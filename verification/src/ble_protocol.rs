//! The framed command protocol carried over the GATT write characteristic,
//! and the response framing for notifications.
//!
//! Every multi-byte integer on the wire is big-endian. The first byte of a
//! command frame is the opcode; the layout of the rest depends on it.

use vstd::prelude::*;

use crate::bytes::{be16, be32_bytes, push_be32, read_be16, read_be32};

verus! {

/// Error returned by the command parsers.
#[derive(Debug, Clone, Copy, PartialEq, Eq, Structural)]
pub enum ParseError {
    /// The opcode byte names no known command.
    InvalidCommand,
    /// The buffer is shorter than the layout the opcode declares.
    BufferTooSmall,
}

/// The command opcodes of the wire protocol.
#[derive(Debug, Clone, Copy, PartialEq, Eq, Structural)]
pub enum CommandId {
    UploadIsotpChunk,
    SendIsotpBuffer,
    StartPeriodicIsotpMessage,
    StopPeriodicIsotpMessage,
    ConfigureIsotpFilter,
}

impl CommandId {
    /// The opcode byte of this command.
    pub open spec fn spec_code(self) -> u8 {
        match self {
            CommandId::UploadIsotpChunk => 0x02,
            CommandId::SendIsotpBuffer => 0x03,
            CommandId::StartPeriodicIsotpMessage => 0x04,
            CommandId::StopPeriodicIsotpMessage => 0x05,
            CommandId::ConfigureIsotpFilter => 0x06,
        }
    }

    /// The command an opcode byte names, if any.
    pub open spec fn spec_from_byte(value: u8) -> Option<CommandId> {
        match value {
            0x02 => Some(CommandId::UploadIsotpChunk),
            0x03 => Some(CommandId::SendIsotpBuffer),
            0x04 => Some(CommandId::StartPeriodicIsotpMessage),
            0x05 => Some(CommandId::StopPeriodicIsotpMessage),
            0x06 => Some(CommandId::ConfigureIsotpFilter),
            _ => None,
        }
    }

    pub fn from_byte(value: u8) -> (r: Result<CommandId, ParseError>)
        ensures
            match CommandId::spec_from_byte(value) {
                Some(c) => r == Ok::<CommandId, ParseError>(c),
                None => r == Err::<CommandId, ParseError>(ParseError::InvalidCommand),
            },
    {
        match value {
            0x02 => Ok(CommandId::UploadIsotpChunk),
            0x03 => Ok(CommandId::SendIsotpBuffer),
            0x04 => Ok(CommandId::StartPeriodicIsotpMessage),
            0x05 => Ok(CommandId::StopPeriodicIsotpMessage),
            0x06 => Ok(CommandId::ConfigureIsotpFilter),
            _ => Err(ParseError::InvalidCommand),
        }
    }
}

/// Upload command (opcode 0x02): places a chunk of a larger message into
/// the staging buffer at a given offset.
#[derive(Debug)]
pub struct UploadIsotpChunkCommand {
    pub offset: u16,
    pub chunk_length: u16,
    pub chunk: Vec<u8>,
}

/// `c` is what a well-formed upload command frame `buf` declares.
pub open spec fn upload_chunk_parses(buf: Seq<u8>, c: UploadIsotpChunkCommand) -> bool {
    &&& buf.len() >= 5
    &&& c.offset == be16(buf[1], buf[2])
    &&& c.chunk_length == be16(buf[3], buf[4])
    &&& buf.len() >= 5 + c.chunk_length
    &&& c.chunk@ == buf.subrange(5, 5 + c.chunk_length as int)
}

/// `buf` is too short to carry the upload command it declares.
pub open spec fn upload_chunk_rejects(buf: Seq<u8>) -> bool {
    buf.len() < 5 || buf.len() < 5 + be16(buf[3], buf[4])
}

impl UploadIsotpChunkCommand {
    pub fn parse(buffer: &[u8]) -> (r: Result<UploadIsotpChunkCommand, ParseError>)
        ensures
            r is Err <==> upload_chunk_rejects(buffer@),
            r matches Err(e) ==> e == ParseError::BufferTooSmall,
            r matches Ok(c) ==> upload_chunk_parses(buffer@, c),
    {
        if buffer.len() < 5 {
            return Err(ParseError::BufferTooSmall);
        }
        let offset = read_be16(buffer[1], buffer[2]);
        let chunk_length = read_be16(buffer[3], buffer[4]);
        if buffer.len() < 5 + chunk_length as usize {
            return Err(ParseError::BufferTooSmall);
        }
        let chunk = vstd::slice::slice_to_vec(vstd::slice::slice_subrange(
            buffer,
            5,
            5 + chunk_length as usize,
        ));
        Ok(UploadIsotpChunkCommand { offset, chunk_length, chunk })
    }
}

/// Send command (opcode 0x03): triggers transmission of the staged buffer.
#[derive(Debug)]
pub struct SendIsotpBufferCommand {
    /// Declared length of the staged buffer, the 8 id bytes included.
    pub total_length: u16,
}

impl SendIsotpBufferCommand {
    pub fn parse(buffer: &[u8]) -> (r: Result<SendIsotpBufferCommand, ParseError>)
        ensures
            r is Err <==> buffer@.len() < 3,
            r matches Err(e) ==> e == ParseError::BufferTooSmall,
            r matches Ok(c) ==> c.total_length == be16(buffer@[1], buffer@[2]),
    {
        if buffer.len() < 3 {
            return Err(ParseError::BufferTooSmall);
        }
        let total_length = read_be16(buffer[1], buffer[2]);
        Ok(SendIsotpBufferCommand { total_length })
    }
}

/// Start-periodic command (opcode 0x04). Parsed in full but reserved: the
/// bridge does not implement periodic messaging.
#[derive(Debug)]
pub struct StartPeriodicIsotpMessageCommand {
    pub periodic_message_index: u8,
    pub interval_ms: u16,
    pub request_arbitration_id: u32,
    pub reply_arbitration_id: u32,
    pub message_count: u16,
    pub message_data: Vec<u8>,
}

/// `c` is what a well-formed start-periodic command frame `buf` declares.
pub open spec fn start_periodic_parses(buf: Seq<u8>, c: StartPeriodicIsotpMessageCommand) -> bool {
    &&& buf.len() >= 14
    &&& c.periodic_message_index == buf[1]
    &&& c.interval_ms == be16(buf[2], buf[3])
    &&& c.request_arbitration_id == crate::bytes::be32(buf[4], buf[5], buf[6], buf[7])
    &&& c.reply_arbitration_id == crate::bytes::be32(buf[8], buf[9], buf[10], buf[11])
    &&& c.message_count == be16(buf[12], buf[13])
    &&& c.message_data@ == buf.skip(14)
}

impl StartPeriodicIsotpMessageCommand {
    pub fn parse(buffer: &[u8]) -> (r: Result<StartPeriodicIsotpMessageCommand, ParseError>)
        ensures
            r is Err <==> buffer@.len() < 14,
            r matches Err(e) ==> e == ParseError::BufferTooSmall,
            r matches Ok(c) ==> start_periodic_parses(buffer@, c),
    {
        if buffer.len() < 14 {
            return Err(ParseError::BufferTooSmall);
        }
        let periodic_message_index = buffer[1];
        let interval_ms = read_be16(buffer[2], buffer[3]);
        let request_arbitration_id = read_be32(buffer[4], buffer[5], buffer[6], buffer[7]);
        let reply_arbitration_id = read_be32(buffer[8], buffer[9], buffer[10], buffer[11]);
        let message_count = read_be16(buffer[12], buffer[13]);
        let message_data = vstd::slice::slice_to_vec(vstd::slice::slice_subrange(
            buffer,
            14,
            buffer.len(),
        ));
        assert(message_data@ =~= buffer@.skip(14));
        Ok(StartPeriodicIsotpMessageCommand {
            periodic_message_index,
            interval_ms,
            request_arbitration_id,
            reply_arbitration_id,
            message_count,
            message_data,
        })
    }

    /// Walks the individual messages packed into the payload: each is a
    /// 16-bit big-endian length followed by that many bytes.
    pub fn iter_messages(&self) -> (r: PeriodicMessageIterator)
        ensures
            r.data@ == self.message_data@,
            r.offset == 0,
    {
        PeriodicMessageIterator { data: vstd::slice::slice_to_vec(self.message_data.as_slice()), offset: 0 }
    }
}

/// What one step of the periodic-message walk yields at `offset` in `data`:
/// the message and the offset after it, or nothing when the remainder is
/// too short for the length prefix or the bytes it declares.
pub open spec fn periodic_step(data: Seq<u8>, offset: int) -> Option<(Seq<u8>, int)> {
    if offset + 2 > data.len() {
        None
    } else {
        let len = be16(data[offset], data[offset + 1]) as int;
        if offset + 2 + len > data.len() {
            None
        } else {
            Some((data.subrange(offset + 2, offset + 2 + len), offset + 2 + len))
        }
    }
}

/// Cursor over the messages packed into a start-periodic payload.
#[derive(Debug)]
pub struct PeriodicMessageIterator {
    pub data: Vec<u8>,
    pub offset: usize,
}

impl PeriodicMessageIterator {
    /// The next packed message, advancing the cursor past it.
    pub fn next(&mut self) -> (r: Option<Vec<u8>>)
        ensures
            match periodic_step(old(self).data@, old(self).offset as int) {
                Some(step) => {
                    &&& r matches Some(m) && m@ == step.0
                    &&& final(self).offset == step.1
                    &&& final(self).data@ == old(self).data@
                },
                None => r is None && *final(self) == *old(self),
            },
    {
        if self.offset > self.data.len() || self.data.len() - self.offset < 2 {
            return None;
        }
        let length = read_be16(self.data[self.offset], self.data[self.offset + 1]) as usize;
        if self.data.len() - self.offset - 2 < length {
            return None;
        }
        let start = self.offset + 2;
        let message = vstd::slice::slice_to_vec(vstd::slice::slice_subrange(
            self.data.as_slice(),
            start,
            start + length,
        ));
        self.offset = start + length;
        Some(message)
    }
}

/// Stop-periodic command (opcode 0x05). Parsed in full but reserved.
#[derive(Debug)]
pub struct StopPeriodicIsotpMessageCommand {
    pub periodic_message_index: u8,
    pub request_arbitration_id: u32,
    pub reply_arbitration_id: u32,
}

/// `c` is what a well-formed stop-periodic command frame `buf` declares.
pub open spec fn stop_periodic_parses(buf: Seq<u8>, c: StopPeriodicIsotpMessageCommand) -> bool {
    &&& buf.len() >= 10
    &&& c.periodic_message_index == buf[1]
    &&& c.request_arbitration_id == crate::bytes::be32(buf[2], buf[3], buf[4], buf[5])
    &&& c.reply_arbitration_id == crate::bytes::be32(buf[6], buf[7], buf[8], buf[9])
}

impl StopPeriodicIsotpMessageCommand {
    pub fn parse(buffer: &[u8]) -> (r: Result<StopPeriodicIsotpMessageCommand, ParseError>)
        ensures
            r is Err <==> buffer@.len() < 10,
            r matches Err(e) ==> e == ParseError::BufferTooSmall,
            r matches Ok(c) ==> stop_periodic_parses(buffer@, c),
    {
        if buffer.len() < 10 {
            return Err(ParseError::BufferTooSmall);
        }
        let periodic_message_index = buffer[1];
        let request_arbitration_id = read_be32(buffer[2], buffer[3], buffer[4], buffer[5]);
        let reply_arbitration_id = read_be32(buffer[6], buffer[7], buffer[8], buffer[9]);
        Ok(StopPeriodicIsotpMessageCommand {
            periodic_message_index,
            request_arbitration_id,
            reply_arbitration_id,
        })
    }
}

/// Configure-filter command (opcode 0x06): binds a filter id to a pair of
/// arbitration ids, with an optional display name.
#[derive(Debug)]
pub struct ConfigureIsotpFilterCommand {
    pub filter_id: u32,
    pub request_arbitration_id: u32,
    pub reply_arbitration_id: u32,
    pub name: Vec<u8>,
}

/// `c` is what a well-formed configure-filter command frame `buf` declares.
pub open spec fn configure_filter_parses(buf: Seq<u8>, c: ConfigureIsotpFilterCommand) -> bool {
    &&& buf.len() >= 17
    &&& c.filter_id == crate::bytes::be32(buf[1], buf[2], buf[3], buf[4])
    &&& c.request_arbitration_id == crate::bytes::be32(buf[5], buf[6], buf[7], buf[8])
    &&& c.reply_arbitration_id == crate::bytes::be32(buf[9], buf[10], buf[11], buf[12])
    &&& buf.len() >= 17 + crate::bytes::be32(buf[13], buf[14], buf[15], buf[16])
    &&& c.name@ == buf.subrange(
        17,
        17 + crate::bytes::be32(buf[13], buf[14], buf[15], buf[16]) as int,
    )
}

/// `buf` is too short to carry the configure-filter command it declares.
pub open spec fn configure_filter_rejects(buf: Seq<u8>) -> bool {
    buf.len() < 17 || buf.len() < 17 + crate::bytes::be32(buf[13], buf[14], buf[15], buf[16])
}

impl ConfigureIsotpFilterCommand {
    pub fn parse(buffer: &[u8]) -> (r: Result<ConfigureIsotpFilterCommand, ParseError>)
        ensures
            r is Err <==> configure_filter_rejects(buffer@),
            r matches Err(e) ==> e == ParseError::BufferTooSmall,
            r matches Ok(c) ==> configure_filter_parses(buffer@, c),
    {
        if buffer.len() < 17 {
            return Err(ParseError::BufferTooSmall);
        }
        let filter_id = read_be32(buffer[1], buffer[2], buffer[3], buffer[4]);
        let request_arbitration_id = read_be32(buffer[5], buffer[6], buffer[7], buffer[8]);
        let reply_arbitration_id = read_be32(buffer[9], buffer[10], buffer[11], buffer[12]);
        let name_len = read_be32(buffer[13], buffer[14], buffer[15], buffer[16]);
        if name_len as usize > buffer.len() - 17 {
            return Err(ParseError::BufferTooSmall);
        }
        let name = vstd::slice::slice_to_vec(vstd::slice::slice_subrange(
            buffer,
            17,
            17 + name_len as usize,
        ));
        Ok(ConfigureIsotpFilterCommand {
            filter_id,
            request_arbitration_id,
            reply_arbitration_id,
            name,
        })
    }
}

/// An assembled ISO-TP PDU together with the arbitration ids of the session
/// that carried it.
#[derive(Debug)]
pub struct IsoTpMessage {
    pub request_arbitration_id: u32,
    pub reply_arbitration_id: u32,
    pub pdu: Vec<u8>,
}

/// The notification payload that carries `msg` to the host: the two ids,
/// big-endian, then the PDU.
pub open spec fn response_frame(msg: IsoTpMessage) -> Seq<u8> {
    be32_bytes(msg.request_arbitration_id) + be32_bytes(msg.reply_arbitration_id) + msg.pdu@
}

/// Serializes `msg` for the notify characteristic, which carries at most
/// 512 bytes.
pub fn encode_isotp_response(msg: &IsoTpMessage) -> (r: Vec<u8>)
    requires
        msg.pdu@.len() + 8 <= 512,
    ensures
        r@ == response_frame(*msg),
        r@.len() <= 512,
{
    let mut out: Vec<u8> = Vec::new();
    push_be32(&mut out, msg.request_arbitration_id);
    push_be32(&mut out, msg.reply_arbitration_id);
    out.extend_from_slice(msg.pdu.as_slice());
    proof {
        assert forall|i: int| 0 <= i < out@.len() implies out@[i] == response_frame(*msg)[i] by {
            if i >= 8 {
                assert(cloned::<u8>(msg.pdu@[i - 8], out@[i]));
            }
        }
        assert(out@ =~= response_frame(*msg));
    }
    out
}

/// A command frame, parsed.
#[derive(Debug)]
pub enum ParsedBleMessage {
    UploadIsotpChunk(UploadIsotpChunkCommand),
    SendIsotpBuffer(SendIsotpBufferCommand),
    StartPeriodicIsotpMessage(StartPeriodicIsotpMessageCommand),
    StopPeriodicIsotpMessage(StopPeriodicIsotpMessageCommand),
    ConfigureIsotpFilter(ConfigureIsotpFilterCommand),
}

/// Entry point of the command parser: dispatches on the opcode byte.
pub struct BleMessageParser;

impl BleMessageParser {
    pub fn parse(buffer: &[u8]) -> (r: Result<ParsedBleMessage, ParseError>)
        ensures
            buffer@.len() == 0 ==> r == Err::<ParsedBleMessage, ParseError>(
                ParseError::BufferTooSmall,
            ),
            buffer@.len() > 0 ==> match CommandId::spec_from_byte(buffer@[0]) {
                None => r == Err::<ParsedBleMessage, ParseError>(ParseError::InvalidCommand),
                Some(cmd) => match cmd {
                    CommandId::UploadIsotpChunk => {
                        if upload_chunk_rejects(buffer@) {
                            r == Err::<ParsedBleMessage, ParseError>(ParseError::BufferTooSmall)
                        } else {
                            r matches Ok(ParsedBleMessage::UploadIsotpChunk(c))
                                && upload_chunk_parses(buffer@, c)
                        }
                    },
                    CommandId::SendIsotpBuffer => {
                        if buffer@.len() < 3 {
                            r == Err::<ParsedBleMessage, ParseError>(ParseError::BufferTooSmall)
                        } else {
                            r matches Ok(ParsedBleMessage::SendIsotpBuffer(c)) && c.total_length
                                == be16(buffer@[1], buffer@[2])
                        }
                    },
                    CommandId::StartPeriodicIsotpMessage => {
                        if buffer@.len() < 14 {
                            r == Err::<ParsedBleMessage, ParseError>(ParseError::BufferTooSmall)
                        } else {
                            r matches Ok(ParsedBleMessage::StartPeriodicIsotpMessage(c))
                                && start_periodic_parses(buffer@, c)
                        }
                    },
                    CommandId::StopPeriodicIsotpMessage => {
                        if buffer@.len() < 10 {
                            r == Err::<ParsedBleMessage, ParseError>(ParseError::BufferTooSmall)
                        } else {
                            r matches Ok(ParsedBleMessage::StopPeriodicIsotpMessage(c))
                                && stop_periodic_parses(buffer@, c)
                        }
                    },
                    CommandId::ConfigureIsotpFilter => {
                        if configure_filter_rejects(buffer@) {
                            r == Err::<ParsedBleMessage, ParseError>(ParseError::BufferTooSmall)
                        } else {
                            r matches Ok(ParsedBleMessage::ConfigureIsotpFilter(c))
                                && configure_filter_parses(buffer@, c)
                        }
                    },
                },
            },
    {
        if buffer.len() == 0 {
            return Err(ParseError::BufferTooSmall);
        }
        let command_id = match CommandId::from_byte(buffer[0]) {
            Ok(c) => c,
            Err(e) => {
                return Err(e);
            },
        };
        match command_id {
            CommandId::UploadIsotpChunk => {
                let command = UploadIsotpChunkCommand::parse(buffer)?;
                Ok(ParsedBleMessage::UploadIsotpChunk(command))
            },
            CommandId::SendIsotpBuffer => {
                let command = SendIsotpBufferCommand::parse(buffer)?;
                Ok(ParsedBleMessage::SendIsotpBuffer(command))
            },
            CommandId::StartPeriodicIsotpMessage => {
                let command = StartPeriodicIsotpMessageCommand::parse(buffer)?;
                Ok(ParsedBleMessage::StartPeriodicIsotpMessage(command))
            },
            CommandId::StopPeriodicIsotpMessage => {
                let command = StopPeriodicIsotpMessageCommand::parse(buffer)?;
                Ok(ParsedBleMessage::StopPeriodicIsotpMessage(command))
            },
            CommandId::ConfigureIsotpFilter => {
                let command = ConfigureIsotpFilterCommand::parse(buffer)?;
                Ok(ParsedBleMessage::ConfigureIsotpFilter(command))
            },
        }
    }
}

} // verus!
