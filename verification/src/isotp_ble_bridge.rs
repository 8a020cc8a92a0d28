//! The bridge between the BLE command stream and the ISO-TP sessions.
//!
//! The bridge owns the registry of sessions keyed by filter id and the
//! staging buffer that chunked uploads accumulate into. Commands arrive
//! parsed; CAN frames arrive as plain values and are routed to every
//! session whose arbitration ids match. The bridge performs no I/O: frames
//! to transmit are returned, or placed on the bounded egress queue the
//! caller hands in.

use vstd::prelude::*;

use crate::ble_protocol::{
    ConfigureIsotpFilterCommand, IsoTpMessage, ParsedBleMessage, UploadIsotpChunkCommand,
};
use crate::bytes::be32;
use crate::can_manager::{CanFilterTable, CanFrameQueue, CanMessage};
use crate::frames::{fc_frame, ff_frame, sf_frame, FS_CONTINUE_TO_SEND};
use crate::heapless_buffer::{
    buffer_byte_at, buffer_bytes, buffer_clear, buffer_len, buffer_new, buffer_resize,
    buffer_to_vec, buffer_write_at,
};
use crate::heapless_map::{registry_contains, registry_insert, registry_map, registry_new};
use crate::isotp_handler::{
    session_step, tx_idle_state, tx_next, IsotpHandler, FrameOutcome, OutcomeModel, TxPhase,
    TxState, DEFAULT_BLOCK_SIZE, DEFAULT_ST_MIN,
};

verus! {

/// Capacity of the session registry.
pub const MAX_HANDLERS: usize = 4;

/// Capacity of the staging buffer for chunked uploads.
pub const MAX_TX_BUFFER_SIZE: usize = 4096;

/// Error returned by the bridge's command handling.
#[derive(Debug, Clone, Copy, PartialEq, Eq, Structural)]
pub enum ManagerError {
    /// The registry or the CAN filter table is full.
    FailedToInsertFilter,
    /// A session with this filter id already exists.
    FilterAlreadyExists,
    /// The chunk would end beyond the staging buffer's capacity.
    InvalidOffset,
    /// The staged bytes do not match the declared total length.
    InvalidPayloadLength,
    /// No session matches the two arbitration ids in the staging buffer.
    FilterNotFound,
    /// The session refused the PDU, or the egress queue was full.
    FailedToSendMessage,
    /// Periodic messaging is reserved in the wire protocol.
    Unimplemented,
}

/// `s` is the session bound to exactly this pair of arbitration ids.
pub open spec fn matches_ids(s: IsotpHandler, req: u32, rep: u32) -> bool {
    s.spec_request_id() == req && s.spec_reply_id() == rep
}

/// An incoming frame with arbitration id `id` concerns `s`.
pub open spec fn matches_route(s: IsotpHandler, id: u32) -> bool {
    s.spec_request_id() == id || s.spec_reply_id() == id
}

/// Position of the first session bound to `(req, rep)`, if any.
pub open spec fn find_session(sessions: Seq<IsotpHandler>, req: u32, rep: u32) -> Option<int>
    decreases sessions.len(),
{
    if sessions.len() == 0 {
        None
    } else if matches_ids(sessions[0], req, rep) {
        Some(0)
    } else {
        match find_session(sessions.skip(1), req, rep) {
            None => None,
            Some(k) => Some(k + 1),
        }
    }
}

/// Shifts a found position by `i`.
pub open spec fn match_shift(found: Option<int>, i: int) -> Option<int> {
    match found {
        None => None,
        Some(k) => Some(k + i),
    }
}

/// The staging buffer after an upload of `chunk` at `offset`: the buffer
/// grows, zero-filled, to cover the chunk's end, and the chunk overwrites
/// the bytes at `offset`.
pub open spec fn staged_after_upload(staging: Seq<u8>, offset: int, chunk: Seq<u8>) -> Seq<u8> {
    let grown = if staging.len() < offset + chunk.len() {
        staging + Seq::new((offset + chunk.len() - staging.len()) as nat, |i: int| 0u8)
    } else {
        staging
    };
    grown.take(offset) + chunk + grown.skip(offset + chunk.len())
}

/// A frame as a plain pair, for contracts.
pub open spec fn frame_model(f: CanMessage) -> (u32, Seq<u8>) {
    (f.id, f.data@)
}

/// The frames of `s` as plain pairs.
pub open spec fn frames_model(s: Seq<CanMessage>) -> Seq<(u32, Seq<u8>)> {
    s.map_values(|f: CanMessage| frame_model(f))
}

/// A host-bound message as a plain triple, for contracts.
pub open spec fn message_model(m: IsoTpMessage) -> (u32, u32, Seq<u8>) {
    (m.request_arbitration_id, m.reply_arbitration_id, m.pdu@)
}

/// The messages of `s` as plain triples.
pub open spec fn messages_model(s: Seq<IsoTpMessage>) -> Seq<(u32, u32, Seq<u8>)> {
    s.map_values(|m: IsoTpMessage| message_model(m))
}

/// The flow-control and completed-PDU outputs that routing a frame to the
/// sessions produces, in session order: `.0` the frames to transmit,
/// `.1` the assembled PDUs (each with the ids of its session).
pub open spec fn route_outputs(sessions: Seq<IsotpHandler>, id: u32, data: Seq<u8>) -> (
    Seq<(u32, Seq<u8>)>,
    Seq<(u32, u32, Seq<u8>)>,
)
    decreases sessions.len(),
{
    if sessions.len() == 0 {
        (Seq::empty(), Seq::empty())
    } else {
        let rest = route_outputs(sessions.skip(1), id, data);
        let s = sessions[0];
        if matches_route(s, id) {
            let out = session_step(s.rx_state(), s.tx_state(), data).out;
            match out {
                OutcomeModel::Fc => (
                    seq![
                        (
                            s.spec_request_id(),
                            fc_frame(FS_CONTINUE_TO_SEND, DEFAULT_BLOCK_SIZE, DEFAULT_ST_MIN),
                        ),
                    ] + rest.0,
                    rest.1,
                ),
                OutcomeModel::Pdu(p) => (
                    rest.0,
                    seq![(s.spec_request_id(), s.spec_reply_id(), p)] + rest.1,
                ),
                _ => rest,
            }
        } else {
            rest
        }
    }
}

/// One paced emission as a plain triple: arbitration id, frame bytes,
/// and the delay in milliseconds to respect before transmitting.
pub open spec fn emission_model(e: (CanMessage, u8)) -> (u32, Seq<u8>, u8) {
    (e.0.id, e.0.data@, e.1)
}

/// The emissions of `s` as plain triples.
pub open spec fn emissions_model(s: Seq<(CanMessage, u8)>) -> Seq<(u32, Seq<u8>, u8)> {
    s.map_values(|e: (CanMessage, u8)| emission_model(e))
}

/// The consecutive frames that one pass over the sessions emits, in
/// session order: one per session that is mid-transmission.
pub open spec fn pump_outputs(sessions: Seq<IsotpHandler>) -> Seq<(u32, Seq<u8>, u8)>
    decreases sessions.len(),
{
    if sessions.len() == 0 {
        Seq::empty()
    } else {
        let rest = pump_outputs(sessions.skip(1));
        let s = sessions[0];
        if s.tx_state().phase is Sending {
            let emission = tx_next(s.tx_state());
            seq![(s.tx_id(), emission.frame, emission.delay_ms)] + rest
        } else {
            rest
        }
    }
}

/// What routing one CAN frame asks the caller to do: transmit the frames,
/// notify the host of the messages.
#[derive(Debug)]
pub struct RoutingOutputs {
    pub frames: Vec<CanMessage>,
    pub messages: Vec<IsoTpMessage>,
}

/// The bridge: the session registry and the upload staging buffer.
pub struct IsotpBleBridge {
    filter_registry: heapless::FnvIndexMap<u32, usize, 4>,
    sessions: Vec<IsotpHandler>,
    isotp_tx_buffer: heapless::Vec<u8, 4096>,
}

impl IsotpBleBridge {
    /// The configured filter ids, each with its session's position.
    pub closed spec fn spec_registry(&self) -> Map<u32, usize> {
        registry_map(self.filter_registry)
    }

    /// The sessions, in configuration order.
    pub closed spec fn spec_sessions(&self) -> Seq<IsotpHandler> {
        self.sessions@
    }

    /// The staged upload bytes.
    pub closed spec fn spec_staging(&self) -> Seq<u8> {
        buffer_bytes(self.isotp_tx_buffer)
    }

    /// Internal consistency: the registry counts the sessions, everything
    /// is within capacity, and each session is well formed.
    pub closed spec fn wf(&self) -> bool {
        &&& self.spec_registry().dom().finite()
        &&& self.spec_registry().dom().len() == self.sessions@.len()
        &&& self.sessions@.len() <= MAX_HANDLERS
        &&& (forall|i: int| 0 <= i < self.sessions@.len() ==> (#[trigger] self.sessions@[i]).wf())
        &&& buffer_bytes(self.isotp_tx_buffer).len() <= MAX_TX_BUFFER_SIZE
    }

    /// An empty bridge: no sessions, nothing staged.
    pub fn new() -> (r: IsotpBleBridge)
        ensures
            r.wf(),
            r.spec_registry() == crate::heapless_map::empty_registry(),
            r.spec_sessions() == Seq::<IsotpHandler>::empty(),
            r.spec_staging() == Seq::<u8>::empty(),
    {
        let r = IsotpBleBridge {
            filter_registry: registry_new(),
            sessions: Vec::new(),
            isotp_tx_buffer: buffer_new(),
        };
        proof {
            assert(registry_map(r.filter_registry).dom() =~= Set::<u32>::empty());
        }
        r
    }

    /// How many sessions are configured.
    pub fn session_count(&self) -> (r: usize)
        ensures
            r == self.spec_sessions().len(),
    {
        self.sessions.len()
    }

    /// How many bytes are staged.
    pub fn staging_len(&self) -> (r: usize)
        ensures
            r == self.spec_staging().len(),
    {
        buffer_len(&self.isotp_tx_buffer)
    }

    /// Handles an upload command: the chunk lands at its offset in the
    /// staging buffer, which grows zero-filled as needed; a chunk that
    /// would end beyond the buffer's capacity is refused untouched.
    pub fn handle_upload_chunk(&mut self, command: &UploadIsotpChunkCommand) -> (r: Result<
        (),
        ManagerError,
    >)
        requires
            old(self).wf(),
            command.chunk@.len() == command.chunk_length,
        ensures
            final(self).wf(),
            final(self).spec_registry() == old(self).spec_registry(),
            final(self).spec_sessions() == old(self).spec_sessions(),
            command.offset + command.chunk_length > MAX_TX_BUFFER_SIZE ==> r == Err::<
                (),
                ManagerError,
            >(ManagerError::InvalidOffset) && final(self).spec_staging() == old(
                self,
            ).spec_staging(),
            command.offset + command.chunk_length <= MAX_TX_BUFFER_SIZE ==> r == Ok::<
                (),
                ManagerError,
            >(()) && final(self).spec_staging() == staged_after_upload(
                old(self).spec_staging(),
                command.offset as int,
                command.chunk@,
            ),
    {
        let offset = command.offset as usize;
        let chunk_length = command.chunk.len();
        if offset + chunk_length > MAX_TX_BUFFER_SIZE {
            return Err(ManagerError::InvalidOffset);
        }
        let required = offset + chunk_length;
        if buffer_len(&self.isotp_tx_buffer) < required {
            buffer_resize(&mut self.isotp_tx_buffer, required, 0);
        }
        buffer_write_at(&mut self.isotp_tx_buffer, offset, command.chunk.as_slice());
        proof {
            assert(buffer_bytes(self.isotp_tx_buffer) =~= staged_after_upload(
                old(self).spec_staging(),
                command.offset as int,
                command.chunk@,
            ));
        }
        Ok(())
    }

    /// Position of the first session bound to exactly these ids.
    fn find_matching_session(&self, req: u32, rep: u32) -> (r: Option<usize>)
        ensures
            match r {
                Some(i) => {
                    &&& find_session(self.spec_sessions(), req, rep) == Some(i as int)
                    &&& i < self.spec_sessions().len()
                    &&& matches_ids(self.spec_sessions()[i as int], req, rep)
                },
                None => find_session(self.spec_sessions(), req, rep) is None,
            },
    {
        proof {
            assert(self.sessions@.skip(0) =~= self.sessions@);
        }
        let mut i: usize = 0;
        while i < self.sessions.len()
            invariant
                i <= self.sessions@.len(),
                find_session(self.sessions@, req, rep) == match_shift(
                    find_session(self.sessions@.skip(i as int), req, rep),
                    i as int,
                ),
            decreases self.sessions@.len() - i,
        {
            proof {
                assert(self.sessions@.skip(i as int)[0] == self.sessions@[i as int]);
                assert(self.sessions@.skip(i as int).skip(1) =~= self.sessions@.skip(i as int + 1));
            }
            let matched = {
                let s = &self.sessions[i];
                s.request_id() == req && s.reply_id() == rep
            };
            if matched {
                return Some(i);
            }
            i = i + 1;
        }
        None
    }

    /// Handles a send command: the staged bytes name the session (two
    /// big-endian ids) and carry the PDU; the session segments it and the
    /// first frame goes on the egress queue. On a full queue a multi-frame
    /// transmission is abandoned and the staging buffer is kept.
    pub fn handle_send_buffer(&mut self, total_length: u16, outbox: &mut CanFrameQueue) -> (r:
        Result<(), ManagerError>)
        requires
            old(self).wf(),
            old(outbox).wf(),
        ensures
            final(self).wf(),
            final(outbox).wf(),
            final(outbox).spec_capacity() == old(outbox).spec_capacity(),
            final(self).spec_registry() == old(self).spec_registry(),
            final(self).spec_sessions().len() == old(self).spec_sessions().len(),
            send_buffer_post(
                *old(self),
                *final(self),
                total_length,
                *old(outbox),
                *final(outbox),
                r,
            ),
    {
        let staged = buffer_len(&self.isotp_tx_buffer);
        if staged < 8 || staged != total_length as usize {
            return Err(ManagerError::InvalidPayloadLength);
        }
        let request_arbitration_id = crate::bytes::read_be32(
            buffer_byte_at(&self.isotp_tx_buffer, 0),
            buffer_byte_at(&self.isotp_tx_buffer, 1),
            buffer_byte_at(&self.isotp_tx_buffer, 2),
            buffer_byte_at(&self.isotp_tx_buffer, 3),
        );
        let reply_arbitration_id = crate::bytes::read_be32(
            buffer_byte_at(&self.isotp_tx_buffer, 4),
            buffer_byte_at(&self.isotp_tx_buffer, 5),
            buffer_byte_at(&self.isotp_tx_buffer, 6),
            buffer_byte_at(&self.isotp_tx_buffer, 7),
        );
        let whole = buffer_to_vec(&self.isotp_tx_buffer);
        let msg = vstd::slice::slice_to_vec(
            vstd::slice::slice_subrange(whole.as_slice(), 8, whole.len()),
        );
        proof {
            assert(msg@ =~= buffer_bytes(self.isotp_tx_buffer).skip(8));
        }
        let found = self.find_matching_session(request_arbitration_id, reply_arbitration_id);
        let index = match found {
            Some(i) => i,
            None => {
                return Err(ManagerError::FilterNotFound);
            },
        };
        let ghost pre_sessions = self.sessions@;
        let mut session = self.sessions.remove(index);
        let sent = session.send_message(request_arbitration_id, msg.as_slice());
        let frame = match sent {
            Some(f) => f,
            None => {
                self.sessions.insert(index, session);
                proof {
                    assert(self.sessions@ =~= pre_sessions);
                }
                return Err(ManagerError::FailedToSendMessage);
            },
        };
        if !outbox.push(frame) {
            if msg.len() > 7 {
                session.abort_transmission();
            }
            self.sessions.insert(index, session);
            proof {
                if msg@.len() <= 7 {
                    assert(self.sessions@ =~= pre_sessions);
                } else {
                    assert(self.sessions@ =~= pre_sessions.update(
                        index as int,
                        self.sessions@[index as int],
                    ));
                }
            }
            return Err(ManagerError::FailedToSendMessage);
        }
        buffer_clear(&mut self.isotp_tx_buffer);
        self.sessions.insert(index, session);
        proof {
            assert(self.sessions@ =~= pre_sessions.update(index as int, self.sessions@[index as int]));
            if msg@.len() <= 7 {
                assert(self.sessions@ =~= pre_sessions);
            }
        }
        Ok(())
    }

    /// Handles a configure command: a new session for a fresh filter id,
    /// its reply id registered with the CAN filter table first.
    pub fn handle_configure_filter(
        &mut self,
        command: &ConfigureIsotpFilterCommand,
        filters: &mut CanFilterTable,
    ) -> (r: Result<(), ManagerError>)
        requires
            old(self).wf(),
            old(filters).wf(),
        ensures
            final(self).wf(),
            final(filters).wf(),
            final(self).spec_staging() == old(self).spec_staging(),
            configure_post(*old(self), *final(self), *command, *old(filters), *final(filters), r),
    {
        if registry_contains(&self.filter_registry, command.filter_id) {
            return Err(ManagerError::FilterAlreadyExists);
        }
        if !filters.register_isotp_filter(command.reply_arbitration_id) {
            return Err(ManagerError::FailedToInsertFilter);
        }
        if self.sessions.len() >= MAX_HANDLERS {
            return Err(ManagerError::FailedToInsertFilter);
        }
        let session = IsotpHandler::new(
            command.request_arbitration_id,
            command.reply_arbitration_id,
        );
        let index = self.sessions.len();
        let inserted = registry_insert(&mut self.filter_registry, command.filter_id, index);
        proof {
            vstd::set::axiom_set_insert_len(
                registry_map(old(self).filter_registry).dom(),
                command.filter_id,
            );
            assert(registry_map(self.filter_registry).dom() =~= registry_map(
                old(self).filter_registry,
            ).dom().insert(command.filter_id));
        }
        self.sessions.push(session);
        Ok(())
    }

    /// Routes one incoming CAN frame to every session whose request or
    /// reply id matches, in configuration order. The returned frames must
    /// be transmitted (dropped if the egress queue is full) and the
    /// returned messages notified to the host.
    pub fn handle_can_frame(&mut self, id: u32, data: &[u8]) -> (r: RoutingOutputs)
        requires
            old(self).wf(),
            data@.len() <= 8,
        ensures
            final(self).wf(),
            final(self).spec_registry() == old(self).spec_registry(),
            final(self).spec_staging() == old(self).spec_staging(),
            final(self).spec_sessions().len() == old(self).spec_sessions().len(),
            forall|j: int|
                0 <= j < old(self).spec_sessions().len() && !matches_route(
                    #[trigger] old(self).spec_sessions()[j],
                    id,
                ) ==> final(self).spec_sessions()[j] == old(self).spec_sessions()[j],
            forall|j: int|
                0 <= j < old(self).spec_sessions().len() && matches_route(
                    #[trigger] old(self).spec_sessions()[j],
                    id,
                ) ==> {
                    let step = session_step(
                        old(self).spec_sessions()[j].rx_state(),
                        old(self).spec_sessions()[j].tx_state(),
                        data@,
                    );
                    &&& final(self).spec_sessions()[j].rx_state() == step.rx
                    &&& final(self).spec_sessions()[j].tx_state() == step.tx
                    &&& final(self).spec_sessions()[j].spec_request_id() == old(
                        self,
                    ).spec_sessions()[j].spec_request_id()
                    &&& final(self).spec_sessions()[j].spec_reply_id() == old(
                        self,
                    ).spec_sessions()[j].spec_reply_id()
                },
            frames_model(r.frames@) == route_outputs(old(self).spec_sessions(), id, data@).0,
            messages_model(r.messages@) == route_outputs(old(self).spec_sessions(), id, data@).1,
    {
        let mut frames: Vec<CanMessage> = Vec::new();
        let mut messages: Vec<IsoTpMessage> = Vec::new();
        let ghost snapshot = self.sessions@;
        proof {
            assert(snapshot.skip(0) =~= snapshot);
            assert(frames_model(frames@) =~= Seq::<(u32, Seq<u8>)>::empty());
            assert(messages_model(messages@) =~= Seq::<(u32, u32, Seq<u8>)>::empty());
            assert(Seq::<(u32, Seq<u8>)>::empty() + route_outputs(snapshot, id, data@).0
                =~= route_outputs(snapshot, id, data@).0);
            assert(Seq::<(u32, u32, Seq<u8>)>::empty() + route_outputs(snapshot, id, data@).1
                =~= route_outputs(snapshot, id, data@).1);
        }
        let mut i: usize = 0;
        while i < self.sessions.len()
            invariant
                self.wf(),
                i <= self.sessions@.len(),
                self.sessions@.len() == snapshot.len(),
                data@.len() <= 8,
                self.spec_registry() == old(self).spec_registry(),
                self.spec_staging() == old(self).spec_staging(),
                snapshot == old(self).spec_sessions(),
                forall|j: int| i <= j < snapshot.len() ==> self.sessions@[j] == snapshot[j],
                forall|j: int|
                    0 <= j < i && !matches_route(#[trigger] snapshot[j], id) ==> self.sessions@[j]
                        == snapshot[j],
                forall|j: int|
                    0 <= j < i && matches_route(#[trigger] snapshot[j], id) ==> {
                        let step = session_step(
                            snapshot[j].rx_state(),
                            snapshot[j].tx_state(),
                            data@,
                        );
                        &&& self.sessions@[j].rx_state() == step.rx
                        &&& self.sessions@[j].tx_state() == step.tx
                        &&& self.sessions@[j].spec_request_id() == snapshot[j].spec_request_id()
                        &&& self.sessions@[j].spec_reply_id() == snapshot[j].spec_reply_id()
                    },
                frames_model(frames@) + route_outputs(snapshot.skip(i as int), id, data@).0
                    == route_outputs(snapshot, id, data@).0,
                messages_model(messages@) + route_outputs(snapshot.skip(i as int), id, data@).1
                    == route_outputs(snapshot, id, data@).1,
            decreases self.sessions@.len() - i,
        {
            proof {
                assert(snapshot.skip(i as int)[0] == snapshot[i as int]);
                assert(snapshot.skip(i as int).skip(1) =~= snapshot.skip(i as int + 1));
            }
            let ghost frames_pre = frames@;
            let ghost messages_pre = messages@;
            let ghost sessions_pre = self.sessions@;
            let matched = {
                let s = &self.sessions[i];
                s.request_id() == id || s.reply_id() == id
            };
            if matched {
                let mut session = self.sessions.remove(i);
                let outcome = session.handle_received_can_frame(data);
                self.sessions.insert(i, session);
                proof {
                    assert(self.sessions@ =~= sessions_pre.update(i as int, self.sessions@[i as int]));
                }
                match outcome {
                    FrameOutcome::FlowControlNeeded(f) => {
                        let ghost fm = frame_model(f);
                        frames.push(f);
                        proof {
                            assert(frames_model(frames@) =~= frames_model(frames_pre) + seq![fm]);
                        }
                    },
                    FrameOutcome::PduReceived(m) => {
                        let ghost mm = message_model(m);
                        messages.push(m);
                        proof {
                            assert(messages_model(messages@) =~= messages_model(messages_pre)
                                + seq![mm]);
                        }
                    },
                    _ => {},
                }
            }
            proof {
                assert(frames_model(frames@) + route_outputs(snapshot.skip(i as int + 1), id, data@).0
                    =~= route_outputs(snapshot, id, data@).0);
                assert(messages_model(messages@) + route_outputs(
                    snapshot.skip(i as int + 1),
                    id,
                    data@,
                ).1 =~= route_outputs(snapshot, id, data@).1);
            }
            i = i + 1;
        }
        proof {
            assert(snapshot.skip(snapshot.len() as int) =~= Seq::<IsotpHandler>::empty());
            assert(frames_model(frames@) + Seq::<(u32, Seq<u8>)>::empty() =~= frames_model(
                frames@,
            ));
            assert(messages_model(messages@) + Seq::<(u32, u32, Seq<u8>)>::empty()
                =~= messages_model(messages@));
        }
        RoutingOutputs { frames, messages }
    }

    /// Lets every session that is mid-transmission emit its next
    /// consecutive frame: the returned pairs carry the frame and the
    /// delay, in milliseconds, to respect before putting it on the bus.
    pub fn pump_transmissions(&mut self) -> (r: Vec<(CanMessage, u8)>)
        requires
            old(self).wf(),
        ensures
            final(self).wf(),
            final(self).spec_registry() == old(self).spec_registry(),
            final(self).spec_staging() == old(self).spec_staging(),
            final(self).spec_sessions().len() == old(self).spec_sessions().len(),
            forall|j: int|
                0 <= j < old(self).spec_sessions().len() && !((#[trigger] old(
                    self,
                ).spec_sessions()[j]).tx_state().phase is Sending) ==> final(self).spec_sessions()[j]
                == old(self).spec_sessions()[j],
            forall|j: int|
                0 <= j < old(self).spec_sessions().len() && (#[trigger] old(
                    self,
                ).spec_sessions()[j]).tx_state().phase is Sending ==> {
                    &&& final(self).spec_sessions()[j].tx_state() == tx_next(
                        old(self).spec_sessions()[j].tx_state(),
                    ).post
                    &&& final(self).spec_sessions()[j].rx_state() == old(
                        self,
                    ).spec_sessions()[j].rx_state()
                    &&& final(self).spec_sessions()[j].spec_request_id() == old(
                        self,
                    ).spec_sessions()[j].spec_request_id()
                    &&& final(self).spec_sessions()[j].spec_reply_id() == old(
                        self,
                    ).spec_sessions()[j].spec_reply_id()
                },
            emissions_model(r@) == pump_outputs(old(self).spec_sessions()),
    {
        let mut out: Vec<(CanMessage, u8)> = Vec::new();
        let ghost snapshot = self.sessions@;
        proof {
            assert(snapshot.skip(0) =~= snapshot);
            assert(emissions_model(out@) =~= Seq::<(u32, Seq<u8>, u8)>::empty());
            assert(Seq::<(u32, Seq<u8>, u8)>::empty() + pump_outputs(snapshot) =~= pump_outputs(
                snapshot,
            ));
        }
        let mut i: usize = 0;
        while i < self.sessions.len()
            invariant
                self.wf(),
                i <= self.sessions@.len(),
                self.sessions@.len() == snapshot.len(),
                self.spec_registry() == old(self).spec_registry(),
                self.spec_staging() == old(self).spec_staging(),
                snapshot == old(self).spec_sessions(),
                forall|j: int| i <= j < snapshot.len() ==> self.sessions@[j] == snapshot[j],
                forall|j: int|
                    0 <= j < i && !((#[trigger] snapshot[j]).tx_state().phase is Sending)
                        ==> self.sessions@[j] == snapshot[j],
                forall|j: int|
                    0 <= j < i && (#[trigger] snapshot[j]).tx_state().phase is Sending ==> {
                        &&& self.sessions@[j].tx_state() == tx_next(snapshot[j].tx_state()).post
                        &&& self.sessions@[j].rx_state() == snapshot[j].rx_state()
                        &&& self.sessions@[j].spec_request_id() == snapshot[j].spec_request_id()
                        &&& self.sessions@[j].spec_reply_id() == snapshot[j].spec_reply_id()
                    },
                emissions_model(out@) + pump_outputs(snapshot.skip(i as int)) == pump_outputs(
                    snapshot,
                ),
            decreases self.sessions@.len() - i,
        {
            proof {
                assert(snapshot.skip(i as int)[0] == snapshot[i as int]);
                assert(snapshot.skip(i as int).skip(1) =~= snapshot.skip(i as int + 1));
            }
            let ghost out_pre = out@;
            let ghost sessions_pre = self.sessions@;
            let mut session = self.sessions.remove(i);
            let step = session.next_consecutive_frame();
            self.sessions.insert(i, session);
            proof {
                assert(self.sessions@ =~= sessions_pre.update(i as int, self.sessions@[i as int]));
            }
            match step {
                Some(emission) => {
                    let ghost em = emission_model(emission);
                    out.push(emission);
                    proof {
                        assert(emissions_model(out@) =~= emissions_model(out_pre) + seq![em]);
                    }
                },
                None => {},
            }
            proof {
                assert(emissions_model(out@) + pump_outputs(snapshot.skip(i as int + 1))
                    =~= pump_outputs(snapshot));
            }
            i = i + 1;
        }
        proof {
            assert(snapshot.skip(snapshot.len() as int) =~= Seq::<IsotpHandler>::empty());
            assert(emissions_model(out@) + Seq::<(u32, Seq<u8>, u8)>::empty() =~= emissions_model(
                out@,
            ));
        }
        out
    }

    /// Dispatches one parsed command. Periodic messaging is reserved: its
    /// commands parse but are answered with an error, never a crash.
    pub fn handle_ble_message(
        &mut self,
        parsed: &ParsedBleMessage,
        filters: &mut CanFilterTable,
        outbox: &mut CanFrameQueue,
    ) -> (r: Result<(), ManagerError>)
        requires
            old(self).wf(),
            old(filters).wf(),
            old(outbox).wf(),
            parsed matches ParsedBleMessage::UploadIsotpChunk(c) ==> c.chunk@.len()
                == c.chunk_length,
        ensures
            final(self).wf(),
            final(filters).wf(),
            final(outbox).wf(),
            match *parsed {
                ParsedBleMessage::UploadIsotpChunk(ref c) => {
                    &&& final(filters)@ == old(filters)@
                    &&& final(outbox)@ == old(outbox)@
                    &&& final(self).spec_sessions() == old(self).spec_sessions()
                    &&& final(self).spec_registry() == old(self).spec_registry()
                    &&& (c.offset + c.chunk_length > MAX_TX_BUFFER_SIZE ==> r == Err::<
                        (),
                        ManagerError,
                    >(ManagerError::InvalidOffset) && final(self).spec_staging() == old(
                        self,
                    ).spec_staging())
                    &&& (c.offset + c.chunk_length <= MAX_TX_BUFFER_SIZE ==> r == Ok::<
                        (),
                        ManagerError,
                    >(()) && final(self).spec_staging() == staged_after_upload(
                        old(self).spec_staging(),
                        c.offset as int,
                        c.chunk@,
                    ))
                },
                ParsedBleMessage::SendIsotpBuffer(ref c) => {
                    &&& final(filters)@ == old(filters)@
                    &&& final(self).spec_registry() == old(self).spec_registry()
                    &&& final(self).spec_sessions().len() == old(self).spec_sessions().len()
                    &&& final(outbox).spec_capacity() == old(outbox).spec_capacity()
                    &&& send_buffer_post(
                        *old(self),
                        *final(self),
                        c.total_length,
                        *old(outbox),
                        *final(outbox),
                        r,
                    )
                },
                ParsedBleMessage::StartPeriodicIsotpMessage(_) => {
                    &&& r == Err::<(), ManagerError>(ManagerError::Unimplemented)
                    &&& *final(self) == *old(self)
                    &&& final(filters)@ == old(filters)@
                    &&& final(outbox)@ == old(outbox)@
                },
                ParsedBleMessage::StopPeriodicIsotpMessage(_) => {
                    &&& r == Err::<(), ManagerError>(ManagerError::Unimplemented)
                    &&& *final(self) == *old(self)
                    &&& final(filters)@ == old(filters)@
                    &&& final(outbox)@ == old(outbox)@
                },
                ParsedBleMessage::ConfigureIsotpFilter(ref c) => {
                    &&& final(outbox)@ == old(outbox)@
                    &&& final(self).spec_staging() == old(self).spec_staging()
                    &&& configure_post(
                        *old(self),
                        *final(self),
                        *c,
                        *old(filters),
                        *final(filters),
                        r,
                    )
                },
            },
    {
        match parsed {
            ParsedBleMessage::UploadIsotpChunk(command) => self.handle_upload_chunk(command),
            ParsedBleMessage::SendIsotpBuffer(command) => self.handle_send_buffer(
                command.total_length,
                outbox,
            ),
            ParsedBleMessage::StartPeriodicIsotpMessage(_) => Err(ManagerError::Unimplemented),
            ParsedBleMessage::StopPeriodicIsotpMessage(_) => Err(ManagerError::Unimplemented),
            ParsedBleMessage::ConfigureIsotpFilter(command) => self.handle_configure_filter(
                command,
                filters,
            ),
        }
    }
}

/// Everything [`IsotpBleBridge::handle_send_buffer`] promises: which error
/// comes back on which staging contents, and how the named session, the
/// egress queue and the staging buffer move.
pub open spec fn send_buffer_post(
    pre: IsotpBleBridge,
    post: IsotpBleBridge,
    total_length: u16,
    outbox_pre: CanFrameQueue,
    outbox_post: CanFrameQueue,
    r: Result<(), ManagerError>,
) -> bool {
    let staging = pre.spec_staging();
    let req = be32(staging[0], staging[1], staging[2], staging[3]);
    let rep = be32(staging[4], staging[5], staging[6], staging[7]);
    let pdu = staging.skip(8);
    if staging.len() < 8 || staging.len() != total_length {
        &&& r == Err::<(), ManagerError>(ManagerError::InvalidPayloadLength)
        &&& post == pre
        &&& outbox_post == outbox_pre
    } else {
        match find_session(pre.spec_sessions(), req, rep) {
            None => {
                &&& r == Err::<(), ManagerError>(ManagerError::FilterNotFound)
                &&& post == pre
                &&& outbox_post == outbox_pre
            },
            Some(i) => {
                &&& (forall|j: int|
                    0 <= j < pre.spec_sessions().len() && j != i
                        ==> #[trigger] post.spec_sessions()[j] == pre.spec_sessions()[j])
                &&& post.spec_sessions()[i].spec_request_id() == req
                &&& post.spec_sessions()[i].spec_reply_id() == rep
                &&& if pdu.len() == 0 {
                    &&& r == Err::<(), ManagerError>(ManagerError::FailedToSendMessage)
                    &&& post.spec_sessions() == pre.spec_sessions()
                    &&& post.spec_staging() == pre.spec_staging()
                    &&& outbox_post == outbox_pre
                } else if pdu.len() <= 7 {
                    if outbox_pre@.len() < outbox_pre.spec_capacity() {
                        &&& r == Ok::<(), ManagerError>(())
                        &&& outbox_post@ == outbox_pre@ + seq![(req, sf_frame(pdu))]
                        &&& post.spec_staging() == Seq::<u8>::empty()
                        &&& post.spec_sessions() == pre.spec_sessions()
                    } else {
                        &&& r == Err::<(), ManagerError>(ManagerError::FailedToSendMessage)
                        &&& post.spec_sessions() == pre.spec_sessions()
                        &&& post.spec_staging() == pre.spec_staging()
                        &&& outbox_post@ == outbox_pre@
                    }
                } else {
                    if outbox_pre@.len() < outbox_pre.spec_capacity() {
                        &&& r == Ok::<(), ManagerError>(())
                        &&& outbox_post@ == outbox_pre@ + seq![(req, ff_frame(pdu))]
                        &&& post.spec_staging() == Seq::<u8>::empty()
                        &&& post.spec_sessions()[i].tx_state() == TxState {
                            phase: TxPhase::WaitFc,
                            pdu: pdu,
                            offset: 6,
                            sn: 1,
                            credit: 0,
                            st_min: pre.spec_sessions()[i].tx_state().st_min,
                            block_size: pre.spec_sessions()[i].tx_state().block_size,
                        }
                        &&& post.spec_sessions()[i].rx_state() == pre.spec_sessions()[i].rx_state()
                        &&& post.spec_sessions()[i].tx_id() == req
                    } else {
                        &&& r == Err::<(), ManagerError>(ManagerError::FailedToSendMessage)
                        &&& outbox_post@ == outbox_pre@
                        &&& post.spec_staging() == pre.spec_staging()
                        &&& post.spec_sessions()[i].tx_state() == tx_idle_state(
                            pre.spec_sessions()[i].tx_state().st_min,
                            pre.spec_sessions()[i].tx_state().block_size,
                        )
                        &&& post.spec_sessions()[i].rx_state() == pre.spec_sessions()[i].rx_state()
                    }
                }
            },
        }
    }
}

/// Everything [`IsotpBleBridge::handle_configure_filter`] promises: a
/// duplicate filter id is refused untouched; a full CAN filter table or a
/// full registry is reported; otherwise the session is appended and the
/// filter id bound to its position.
pub open spec fn configure_post(
    pre: IsotpBleBridge,
    post: IsotpBleBridge,
    command: ConfigureIsotpFilterCommand,
    filters_pre: CanFilterTable,
    filters_post: CanFilterTable,
    r: Result<(), ManagerError>,
) -> bool {
    if pre.spec_registry().dom().contains(command.filter_id) {
        &&& r == Err::<(), ManagerError>(ManagerError::FilterAlreadyExists)
        &&& post == pre
        &&& filters_post@ == filters_pre@
    } else if filters_pre@.len() >= crate::can_manager::MAX_FILTERS {
        &&& r == Err::<(), ManagerError>(ManagerError::FailedToInsertFilter)
        &&& post == pre
        &&& filters_post@ == filters_pre@
    } else if pre.spec_sessions().len() >= MAX_HANDLERS {
        &&& r == Err::<(), ManagerError>(ManagerError::FailedToInsertFilter)
        &&& post == pre
        &&& filters_post@ == filters_pre@ + seq![command.reply_arbitration_id]
    } else {
        &&& r == Ok::<(), ManagerError>(())
        &&& filters_post@ == filters_pre@ + seq![command.reply_arbitration_id]
        &&& post.spec_registry() == pre.spec_registry().insert(
            command.filter_id,
            pre.spec_sessions().len() as usize,
        )
        &&& post.spec_sessions().len() == pre.spec_sessions().len() + 1
        &&& (forall|j: int|
            0 <= j < pre.spec_sessions().len() ==> #[trigger] post.spec_sessions()[j]
                == pre.spec_sessions()[j])
        &&& post.spec_sessions().last().spec_request_id() == command.request_arbitration_id
        &&& post.spec_sessions().last().spec_reply_id() == command.reply_arbitration_id
        &&& post.spec_sessions().last().rx_state() == crate::isotp_handler::rx_idle()
        &&& post.spec_sessions().last().tx_state() == tx_idle_state(
            DEFAULT_ST_MIN,
            DEFAULT_BLOCK_SIZE,
        )
        &&& post.spec_staging() == pre.spec_staging()
    }
}

} // verus!
