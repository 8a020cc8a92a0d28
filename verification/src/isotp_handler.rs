//! The per-session ISO-TP state machine.
//!
//! A session binds one pair of arbitration ids. Its two halves run
//! independently: the receive half reassembles single and multi-frame PDUs
//! and answers a first frame with a flow-control frame; the transmit half
//! segments a PDU into a first frame and paced consecutive frames, obeying
//! the receiver's block size and separation time.
//!
//! The session does no I/O and never waits: every function returns the
//! frames to put on the bus and the delays to respect, and the caller
//! performs them. The ghost types [`RxState`] and [`TxState`] are the
//! mathematical model; every step of the machine is pinned to the spec
//! transitions [`session_step`] and [`tx_next`].

use vstd::prelude::*;

use crate::ble_protocol::IsoTpMessage;
use crate::can_manager::CanMessage;
use crate::frames::{
    cf_frame, fc_frame, next_sn, build_single_frame, build_first_frame, build_consecutive_frame,
    build_flow_control, FS_CONTINUE_TO_SEND, FS_WAIT, FS_OVERFLOW,
};
use crate::heapless_buffer::{
    buffer_bytes, buffer_new, buffer_len, buffer_clear, buffer_extend, buffer_to_vec,
};

verus! {

/// Default separation time a new session asks of its peer: 10 ms.
pub const DEFAULT_ST_MIN: u8 = 0x0A;

/// Default block size a new session asks of its peer: 0, "send all".
pub const DEFAULT_BLOCK_SIZE: u8 = 0x00;

/// State of the transmit half.
#[derive(Debug, Clone, Copy, PartialEq, Eq, Structural)]
pub enum TxPhase {
    /// Nothing in flight.
    Idle,
    /// A first frame went out, or the block credit ran out: consecutive
    /// frames wait for a flow-control frame with "continue to send".
    WaitFc,
    /// Consecutive frames may be emitted.
    Sending,
}

/// Model of the receive half.
pub ghost struct RxState {
    /// A multi-frame reassembly is in flight.
    pub active: bool,
    /// The length the first frame declared.
    pub expected: int,
    /// The sequence number the next consecutive frame must carry.
    pub next_sn: int,
    /// The payload bytes collected so far.
    pub buf: Seq<u8>,
}

/// Model of the transmit half.
pub ghost struct TxState {
    pub phase: TxPhase,
    /// The whole PDU being sent (empty when idle).
    pub pdu: Seq<u8>,
    /// Index of the next payload byte to send.
    pub offset: int,
    /// Sequence number of the next consecutive frame.
    pub sn: int,
    /// Consecutive frames left before the sender must pause; meaningful
    /// only while sending with a positive block size.
    pub credit: int,
    /// Separation time the peer asked for.
    pub st_min: u8,
    /// Block size the peer asked for.
    pub block_size: u8,
}

/// The receive half with nothing in flight.
pub open spec fn rx_idle() -> RxState {
    RxState { active: false, expected: 0, next_sn: 0, buf: Seq::empty() }
}

/// What one incoming frame did.
pub ghost enum OutcomeModel {
    /// Dropped: empty, malformed, unknown type, stray consecutive frame,
    /// a "wait" flow status, or a reserved flow status.
    Ignored,
    /// A complete PDU was assembled.
    Pdu(Seq<u8>),
    /// A first frame was accepted; a flow-control frame must go out.
    Fc,
    /// A consecutive frame in sequence was absorbed.
    Progress,
    /// A consecutive frame out of sequence aborted the reassembly.
    Aborted,
    /// A "continue to send" released the paused transmit half.
    Resumed,
    /// An "overflow" flow status aborted the transmission in flight.
    TxAborted,
}

/// Joint result of one step of the session machine.
pub ghost struct SessionStep {
    pub rx: RxState,
    pub tx: TxState,
    pub out: OutcomeModel,
}

/// The smaller of two integers.
pub open spec fn min_int(a: int, b: int) -> int {
    if a <= b {
        a
    } else {
        b
    }
}

/// Step of the receive half on a single frame (type 0): a valid length
/// delivers the payload and replaces any reassembly in flight.
pub open spec fn rx_on_single_frame(rx: RxState, data: Seq<u8>) -> (RxState, OutcomeModel) {
    let len = (data[0] % 16) as int;
    if 1 <= len <= 7 && len <= data.len() - 1 {
        (rx_idle(), OutcomeModel::Pdu(data.subrange(1, 1 + len)))
    } else {
        (rx, OutcomeModel::Ignored)
    }
}

/// Step of the receive half on a first frame (type 1): a declared length
/// within 8..=4095 restarts reassembly with the frame's payload bytes and
/// asks for a flow-control answer.
pub open spec fn rx_on_first_frame(rx: RxState, data: Seq<u8>) -> (RxState, OutcomeModel) {
    if data.len() < 2 {
        (rx, OutcomeModel::Ignored)
    } else {
        let total = (data[0] % 16) * 256 + data[1];
        if 8 <= total <= 4095 {
            (
                RxState { active: true, expected: total as int, next_sn: 1, buf: data.skip(2) },
                OutcomeModel::Fc,
            )
        } else {
            (rx, OutcomeModel::Ignored)
        }
    }
}

/// Step of the receive half on a consecutive frame (type 2): in sequence,
/// its payload is absorbed, capped at the declared length, and the PDU is
/// delivered once that length is reached; out of sequence, the reassembly
/// is abandoned.
pub open spec fn rx_on_consecutive_frame(rx: RxState, data: Seq<u8>) -> (RxState, OutcomeModel) {
    if !rx.active || data.len() < 2 {
        (rx, OutcomeModel::Ignored)
    } else {
        let sn = (data[0] % 16) as int;
        if sn != rx.next_sn {
            (rx_idle(), OutcomeModel::Aborted)
        } else {
            let take = min_int(data.len() - 1, rx.expected - rx.buf.len());
            let collected = rx.buf + data.subrange(1, 1 + take);
            if collected.len() == rx.expected {
                (rx_idle(), OutcomeModel::Pdu(collected))
            } else {
                (
                    RxState {
                        active: true,
                        expected: rx.expected,
                        next_sn: next_sn(sn),
                        buf: collected,
                    },
                    OutcomeModel::Progress,
                )
            }
        }
    }
}

/// Step of the transmit half on a flow-control frame (type 3):
/// "continue to send" adopts the peer's parameters and releases a paused
/// transmitter with a fresh block credit; "wait" leaves it paused;
/// "overflow" abandons the transmission; anything else is dropped.
pub open spec fn tx_on_flow_control(tx: TxState, data: Seq<u8>) -> (TxState, OutcomeModel) {
    if data.len() < 3 {
        (tx, OutcomeModel::Ignored)
    } else {
        let fs = data[0] % 16;
        let bs = data[1];
        let st = data[2];
        if fs == FS_CONTINUE_TO_SEND {
            let resumed = tx.phase is WaitFc;
            (
                TxState {
                    phase: if resumed {
                        TxPhase::Sending
                    } else {
                        tx.phase
                    },
                    credit: bs as int,
                    st_min: st,
                    block_size: bs,
                    ..tx
                },
                if resumed {
                    OutcomeModel::Resumed
                } else {
                    OutcomeModel::Ignored
                },
            )
        } else if fs == FS_WAIT {
            (tx, OutcomeModel::Ignored)
        } else if fs == FS_OVERFLOW {
            if tx.phase is Idle {
                (tx, OutcomeModel::Ignored)
            } else {
                (tx_idle_state(tx.st_min, tx.block_size), OutcomeModel::TxAborted)
            }
        } else {
            (tx, OutcomeModel::Ignored)
        }
    }
}

/// The transmit half with nothing in flight, keeping the adopted timing
/// parameters.
pub open spec fn tx_idle_state(st_min: u8, block_size: u8) -> TxState {
    TxState {
        phase: TxPhase::Idle,
        pdu: Seq::empty(),
        offset: 0,
        sn: 0,
        credit: 0,
        st_min: st_min,
        block_size: block_size,
    }
}

/// One step of the whole session machine on an incoming frame.
pub open spec fn session_step(rx: RxState, tx: TxState, data: Seq<u8>) -> SessionStep {
    if data.len() == 0 {
        SessionStep { rx, tx, out: OutcomeModel::Ignored }
    } else {
        let ft = data[0] / 16;
        if ft == 0 {
            let (rx2, out) = rx_on_single_frame(rx, data);
            SessionStep { rx: rx2, tx, out }
        } else if ft == 1 {
            let (rx2, out) = rx_on_first_frame(rx, data);
            SessionStep { rx: rx2, tx, out }
        } else if ft == 2 {
            let (rx2, out) = rx_on_consecutive_frame(rx, data);
            SessionStep { rx: rx2, tx, out }
        } else if ft == 3 {
            let (tx2, out) = tx_on_flow_control(tx, data);
            SessionStep { rx, tx: tx2, out }
        } else {
            SessionStep { rx, tx, out: OutcomeModel::Ignored }
        }
    }
}

/// The delay, in milliseconds, that a separation-time byte demands between
/// consecutive frames: 0x00..=0x7F are milliseconds; 0xF1..=0xF9 encode
/// 100..900 microseconds and are rounded up to 1 ms; the remaining,
/// reserved values are taken at face value as milliseconds.
pub open spec fn st_min_delay_ms(st: u8) -> u8 {
    if 0xF1 <= st <= 0xF9 {
        1
    } else {
        st
    }
}

/// What one transmit step emits: the consecutive frame, and the delay to
/// respect before putting it on the bus.
pub ghost struct TxEmission {
    pub post: TxState,
    pub frame: Seq<u8>,
    pub delay_ms: u8,
}

/// One step of the transmit half while sending: the next chunk of up to 7
/// bytes leaves as a consecutive frame; exhausting the PDU returns the
/// half to idle; exhausting the block credit pauses it until the next
/// flow-control frame.
pub open spec fn tx_next(tx: TxState) -> TxEmission {
    let take = min_int(7, tx.pdu.len() - tx.offset);
    let chunk = tx.pdu.subrange(tx.offset, tx.offset + take);
    let done = tx.offset + take == tx.pdu.len();
    let credit_left = if tx.block_size > 0 {
        tx.credit - 1
    } else {
        tx.credit
    };
    let post = if done {
        tx_idle_state(tx.st_min, tx.block_size)
    } else if tx.block_size > 0 && credit_left == 0 {
        TxState { phase: TxPhase::WaitFc, offset: tx.offset + take, sn: next_sn(tx.sn), credit: 0, ..tx }
    } else {
        TxState {
            phase: TxPhase::Sending,
            offset: tx.offset + take,
            sn: next_sn(tx.sn),
            credit: credit_left,
            ..tx
        }
    };
    TxEmission { post, frame: cf_frame(tx.sn, chunk), delay_ms: st_min_delay_ms(tx.st_min) }
}

/// What an incoming frame made the session do.
#[derive(Debug)]
pub enum FrameOutcome {
    /// The frame was dropped without effect on the session.
    Ignored,
    /// A complete PDU was assembled and is ready for the host.
    PduReceived(IsoTpMessage),
    /// A first frame was accepted; the returned flow-control frame must be
    /// transmitted on the request arbitration id.
    FlowControlNeeded(CanMessage),
    /// A consecutive frame in sequence was absorbed; reassembly continues.
    ReassemblyProgress,
    /// A consecutive frame out of sequence aborted the reassembly.
    ReassemblyAborted,
    /// The transmit half may emit consecutive frames again.
    TransmitResumed,
    /// The transmission in flight was aborted by the peer.
    TransmitAborted,
}

/// The exec outcome `r` renders the model outcome `m` for a session with
/// the given ids.
pub open spec fn outcome_matches(r: FrameOutcome, m: OutcomeModel, req: u32, rep: u32) -> bool {
    match m {
        OutcomeModel::Ignored => r is Ignored,
        OutcomeModel::Pdu(p) => {
            &&& r matches FrameOutcome::PduReceived(msg)
            &&& msg.request_arbitration_id == req
            &&& msg.reply_arbitration_id == rep
            &&& msg.pdu@ == p
        },
        OutcomeModel::Fc => {
            &&& r matches FrameOutcome::FlowControlNeeded(f)
            &&& f.id == req
            &&& f.data@ == fc_frame(FS_CONTINUE_TO_SEND, DEFAULT_BLOCK_SIZE, DEFAULT_ST_MIN)
        },
        OutcomeModel::Progress => r is ReassemblyProgress,
        OutcomeModel::Aborted => r is ReassemblyAborted,
        OutcomeModel::Resumed => r is TransmitResumed,
        OutcomeModel::TxAborted => r is TransmitAborted,
    }
}

/// One ISO-TP session.
pub struct IsotpHandler {
    pub request_arbitration_id: u32,
    pub reply_arbitration_id: u32,
    rx_buffer: heapless::Vec<u8, 4096>,
    rx_expected_length: u16,
    rx_expected_sn: u8,
    rx_active: bool,
    tx_buffer: heapless::Vec<u8, 4096>,
    tx_offset: usize,
    tx_sn: u8,
    tx_credit: u8,
    tx_phase: TxPhase,
    tx_can_id: u32,
    st_min: u8,
    block_size: u8,
}

impl IsotpHandler {
    /// The model of the receive half.
    pub closed spec fn rx_state(&self) -> RxState {
        RxState {
            active: self.rx_active,
            expected: self.rx_expected_length as int,
            next_sn: self.rx_expected_sn as int,
            buf: buffer_bytes(self.rx_buffer),
        }
    }

    /// The model of the transmit half.
    pub closed spec fn tx_state(&self) -> TxState {
        TxState {
            phase: self.tx_phase,
            pdu: buffer_bytes(self.tx_buffer),
            offset: self.tx_offset as int,
            sn: self.tx_sn as int,
            credit: self.tx_credit as int,
            st_min: self.st_min,
            block_size: self.block_size,
        }
    }

    /// The arbitration id on which the transmit half emits its frames.
    pub closed spec fn tx_id(&self) -> u32 {
        self.tx_can_id
    }

    /// The id this session transmits requests on.
    pub closed spec fn spec_request_id(&self) -> u32 {
        self.request_arbitration_id
    }

    /// The id this session expects replies on.
    pub closed spec fn spec_reply_id(&self) -> u32 {
        self.reply_arbitration_id
    }

    pub fn request_id(&self) -> (r: u32)
        ensures
            r == self.spec_request_id(),
    {
        self.request_arbitration_id
    }

    pub fn reply_id(&self) -> (r: u32)
        ensures
            r == self.spec_reply_id(),
    {
        self.reply_arbitration_id
    }

    /// Internal consistency: bounds that every operation preserves.
    pub closed spec fn wf(&self) -> bool {
        &&& self.rx_expected_sn < 16
        &&& (self.rx_active ==> {
            &&& 8 <= self.rx_expected_length <= 4095
            &&& buffer_bytes(self.rx_buffer).len() < self.rx_expected_length
        })
        &&& (!self.rx_active ==> self.rx_expected_length == 0 && self.rx_expected_sn == 0
            && buffer_bytes(self.rx_buffer).len() == 0)
        &&& self.wf_tx_only()
    }

    /// A fresh session for one pair of arbitration ids, with the default
    /// timing parameters and both halves idle.
    pub fn new(request_arbitration_id: u32, reply_arbitration_id: u32) -> (r: IsotpHandler)
        ensures
            r.wf(),
            r.spec_request_id() == request_arbitration_id,
            r.spec_reply_id() == reply_arbitration_id,
            r.rx_state() == rx_idle(),
            r.tx_state() == tx_idle_state(DEFAULT_ST_MIN, DEFAULT_BLOCK_SIZE),
    {
        let r = IsotpHandler {
            request_arbitration_id,
            reply_arbitration_id,
            rx_buffer: buffer_new(),
            rx_expected_length: 0,
            rx_expected_sn: 0,
            rx_active: false,
            tx_buffer: buffer_new(),
            tx_offset: 0,
            tx_sn: 0,
            tx_credit: 0,
            tx_phase: TxPhase::Idle,
            tx_can_id: request_arbitration_id,
            st_min: DEFAULT_ST_MIN,
            block_size: DEFAULT_BLOCK_SIZE,
        };
        assert(r.rx_state() =~= rx_idle());
        assert(r.tx_state() =~= tx_idle_state(DEFAULT_ST_MIN, DEFAULT_BLOCK_SIZE));
        r
    }

    /// Whether the transmit half is idle.
    pub fn is_tx_idle(&self) -> (r: bool)
        ensures
            r == (self.tx_state().phase is Idle),
    {
        match self.tx_phase {
            TxPhase::Idle => true,
            _ => false,
        }
    }

    /// Whether a reassembly is in flight.
    pub fn is_rx_active(&self) -> (r: bool)
        ensures
            r == self.rx_state().active,
    {
        self.rx_active
    }

    /// Abandons any transmission in flight.
    pub fn abort_transmission(&mut self)
        requires
            old(self).wf(),
        ensures
            final(self).wf(),
            final(self).rx_state() == old(self).rx_state(),
            final(self).tx_state() == tx_idle_state(
                old(self).tx_state().st_min,
                old(self).tx_state().block_size,
            ),
            final(self).spec_request_id() == old(self).spec_request_id(),
            final(self).spec_reply_id() == old(self).spec_reply_id(),
            final(self).tx_id() == old(self).tx_id(),
    {
        self.tx_phase = TxPhase::Idle;
        buffer_clear(&mut self.tx_buffer);
        self.tx_offset = 0;
        self.tx_sn = 0;
        self.tx_credit = 0;
        assert(self.tx_state() =~= tx_idle_state(self.st_min, self.block_size));
    }

    /// Feeds one incoming CAN frame to the session. The effect on both
    /// halves is exactly one [`session_step`]; the outcome says what, if
    /// anything, must leave the device in response.
    pub fn handle_received_can_frame(&mut self, data: &[u8]) -> (r: FrameOutcome)
        requires
            old(self).wf(),
            data@.len() <= 8,
        ensures
            final(self).wf(),
            final(self).spec_request_id() == old(self).spec_request_id(),
            final(self).spec_reply_id() == old(self).spec_reply_id(),
            final(self).tx_id() == old(self).tx_id(),
            ({
                let step = session_step(old(self).rx_state(), old(self).tx_state(), data@);
                &&& final(self).rx_state() == step.rx
                &&& final(self).tx_state() == step.tx
                &&& outcome_matches(
                    r,
                    step.out,
                    old(self).spec_request_id(),
                    old(self).spec_reply_id(),
                )
            }),
    {
        if data.len() == 0 {
            return FrameOutcome::Ignored;
        }
        let frame_type = data[0] / 16;
        if frame_type == 0 {
            self.handle_single_frame(data)
        } else if frame_type == 1 {
            self.handle_first_frame(data)
        } else if frame_type == 2 {
            self.handle_consecutive_frame(data)
        } else if frame_type == 3 {
            self.handle_flow_control(data)
        } else {
            FrameOutcome::Ignored
        }
    }

    fn handle_single_frame(&mut self, data: &[u8]) -> (r: FrameOutcome)
        requires
            old(self).wf(),
            data@.len() >= 1,
            data@.len() <= 8,
            data@[0] / 16 == 0,
        ensures
            final(self).wf(),
            final(self).spec_request_id() == old(self).spec_request_id(),
            final(self).spec_reply_id() == old(self).spec_reply_id(),
            final(self).tx_id() == old(self).tx_id(),
            final(self).tx_state() == old(self).tx_state(),
            ({
                let step = rx_on_single_frame(old(self).rx_state(), data@);
                final(self).rx_state() == step.0 && outcome_matches(
                    r,
                    step.1,
                    old(self).spec_request_id(),
                    old(self).spec_reply_id(),
                )
            }),
    {
        let length = (data[0] % 16) as usize;
        if length < 1 || length > 7 || length > data.len() - 1 {
            return FrameOutcome::Ignored;
        }
        self.reset_rx();
        let pdu = vstd::slice::slice_to_vec(vstd::slice::slice_subrange(data, 1, 1 + length));
        assert(pdu@ =~= data@.subrange(1, 1 + length as int));
        FrameOutcome::PduReceived(
            IsoTpMessage {
                request_arbitration_id: self.request_arbitration_id,
                reply_arbitration_id: self.reply_arbitration_id,
                pdu,
            },
        )
    }

    fn handle_first_frame(&mut self, data: &[u8]) -> (r: FrameOutcome)
        requires
            old(self).wf(),
            data@.len() >= 1,
            data@.len() <= 8,
            data@[0] / 16 == 1,
        ensures
            final(self).wf(),
            final(self).spec_request_id() == old(self).spec_request_id(),
            final(self).spec_reply_id() == old(self).spec_reply_id(),
            final(self).tx_id() == old(self).tx_id(),
            final(self).tx_state() == old(self).tx_state(),
            ({
                let step = rx_on_first_frame(old(self).rx_state(), data@);
                final(self).rx_state() == step.0 && outcome_matches(
                    r,
                    step.1,
                    old(self).spec_request_id(),
                    old(self).spec_reply_id(),
                )
            }),
    {
        if data.len() < 2 {
            return FrameOutcome::Ignored;
        }
        let total: u16 = ((data[0] % 16) as u16) * 256 + (data[1] as u16);
        if total < 8 || total > 4095 {
            return FrameOutcome::Ignored;
        }
        buffer_clear(&mut self.rx_buffer);
        buffer_extend(&mut self.rx_buffer, vstd::slice::slice_subrange(data, 2, data.len()));
        self.rx_expected_length = total;
        self.rx_expected_sn = 1;
        self.rx_active = true;
        proof {
            let (rx2, _) = rx_on_first_frame(old(self).rx_state(), data@);
            assert(Seq::<u8>::empty() + data@.subrange(2, data@.len() as int) =~= data@.skip(2));
            assert(self.rx_state() =~= rx2);
        }
        let fc = build_flow_control(FS_CONTINUE_TO_SEND, DEFAULT_BLOCK_SIZE, DEFAULT_ST_MIN);
        FrameOutcome::FlowControlNeeded(CanMessage { id: self.request_arbitration_id, data: fc })
    }

    fn handle_consecutive_frame(&mut self, data: &[u8]) -> (r: FrameOutcome)
        requires
            old(self).wf(),
            data@.len() >= 1,
            data@.len() <= 8,
            data@[0] / 16 == 2,
        ensures
            final(self).wf(),
            final(self).spec_request_id() == old(self).spec_request_id(),
            final(self).spec_reply_id() == old(self).spec_reply_id(),
            final(self).tx_id() == old(self).tx_id(),
            final(self).tx_state() == old(self).tx_state(),
            ({
                let step = rx_on_consecutive_frame(old(self).rx_state(), data@);
                final(self).rx_state() == step.0 && outcome_matches(
                    r,
                    step.1,
                    old(self).spec_request_id(),
                    old(self).spec_reply_id(),
                )
            }),
    {
        if !self.rx_active || data.len() < 2 {
            return FrameOutcome::Ignored;
        }
        let sequence_number = data[0] % 16;
        if sequence_number != self.rx_expected_sn {
            self.reset_rx();
            return FrameOutcome::ReassemblyAborted;
        }
        let have = buffer_len(&self.rx_buffer);
        let needed = self.rx_expected_length as usize - have;
        let take = if data.len() - 1 <= needed {
            data.len() - 1
        } else {
            needed
        };
        buffer_extend(&mut self.rx_buffer, vstd::slice::slice_subrange(data, 1, 1 + take));
        proof {
            assert(buffer_bytes(self.rx_buffer) =~= old(self).rx_state().buf + data@.subrange(
                1,
                1 + take as int,
            ));
        }
        if buffer_len(&self.rx_buffer) == self.rx_expected_length as usize {
            let pdu = buffer_to_vec(&self.rx_buffer);
            self.reset_rx();
            return FrameOutcome::PduReceived(
                IsoTpMessage {
                    request_arbitration_id: self.request_arbitration_id,
                    reply_arbitration_id: self.reply_arbitration_id,
                    pdu,
                },
            );
        }
        self.rx_expected_sn = if sequence_number == 0x0F {
            0
        } else {
            sequence_number + 1
        };
        FrameOutcome::ReassemblyProgress
    }

    fn handle_flow_control(&mut self, data: &[u8]) -> (r: FrameOutcome)
        requires
            old(self).wf(),
            data@.len() >= 1,
            data@.len() <= 8,
            data@[0] / 16 == 3,
        ensures
            final(self).wf(),
            final(self).spec_request_id() == old(self).spec_request_id(),
            final(self).spec_reply_id() == old(self).spec_reply_id(),
            final(self).tx_id() == old(self).tx_id(),
            final(self).rx_state() == old(self).rx_state(),
            ({
                let step = tx_on_flow_control(old(self).tx_state(), data@);
                final(self).tx_state() == step.0 && outcome_matches(
                    r,
                    step.1,
                    old(self).spec_request_id(),
                    old(self).spec_reply_id(),
                )
            }),
    {
        if data.len() < 3 {
            return FrameOutcome::Ignored;
        }
        let flow_status = data[0] % 16;
        if flow_status == FS_CONTINUE_TO_SEND {
            let resumed = match self.tx_phase {
                TxPhase::WaitFc => true,
                _ => false,
            };
            self.block_size = data[1];
            self.st_min = data[2];
            self.tx_credit = data[1];
            if resumed {
                self.tx_phase = TxPhase::Sending;
                FrameOutcome::TransmitResumed
            } else {
                FrameOutcome::Ignored
            }
        } else if flow_status == FS_WAIT {
            FrameOutcome::Ignored
        } else if flow_status == FS_OVERFLOW {
            match self.tx_phase {
                TxPhase::Idle => FrameOutcome::Ignored,
                _ => {
                    self.tx_phase = TxPhase::Idle;
                    buffer_clear(&mut self.tx_buffer);
                    self.tx_offset = 0;
                    self.tx_sn = 0;
                    self.tx_credit = 0;
                    assert(self.tx_state() =~= tx_idle_state(self.st_min, self.block_size));
                    FrameOutcome::TransmitAborted
                },
            }
        } else {
            FrameOutcome::Ignored
        }
    }

    /// Clears the receive half back to idle.
    fn reset_rx(&mut self)
        ensures
            final(self).rx_state() == rx_idle(),
            final(self).tx_state() == old(self).tx_state(),
            final(self).spec_request_id() == old(self).spec_request_id(),
            final(self).spec_reply_id() == old(self).spec_reply_id(),
            final(self).tx_id() == old(self).tx_id(),
            final(self).wf() == old(self).wf_tx_only(),
    {
        buffer_clear(&mut self.rx_buffer);
        self.rx_expected_length = 0;
        self.rx_expected_sn = 0;
        self.rx_active = false;
        assert(self.rx_state() =~= rx_idle());
    }

    /// The transmit-half part of [`IsotpHandler::wf`].
    pub closed spec fn wf_tx_only(&self) -> bool {
        &&& (self.tx_phase is Idle ==> {
            &&& buffer_bytes(self.tx_buffer).len() == 0
            &&& self.tx_offset == 0
            &&& self.tx_sn == 0
        })
        &&& (!(self.tx_phase is Idle) ==> {
            &&& 8 <= buffer_bytes(self.tx_buffer).len() <= 4095
            &&& 6 <= self.tx_offset < buffer_bytes(self.tx_buffer).len()
            &&& self.tx_sn < 16
        })
        &&& (self.tx_phase is Sending && self.block_size > 0 ==> self.tx_credit >= 1)
    }

    /// Starts sending `data` on arbitration id `id`: a short PDU leaves as
    /// one single frame and the session stays as it was; a long PDU leaves
    /// with its first frame and the transmit half then waits for the
    /// peer's flow control. An empty or oversized PDU is refused.
    pub fn send_message(&mut self, id: u32, data: &[u8]) -> (r: Option<CanMessage>)
        requires
            old(self).wf(),
        ensures
            final(self).wf(),
            final(self).spec_request_id() == old(self).spec_request_id(),
            final(self).spec_reply_id() == old(self).spec_reply_id(),
            final(self).rx_state() == old(self).rx_state(),
            r is None <==> (data@.len() == 0 || data@.len() > 4095),
            r is None ==> *final(self) == *old(self),
            1 <= data@.len() <= 7 ==> {
                &&& r matches Some(f) && f.id == id && f.data@ == crate::frames::sf_frame(data@)
                &&& *final(self) == *old(self)
            },
            8 <= data@.len() <= 4095 ==> {
                &&& r matches Some(f) && f.id == id && f.data@ == crate::frames::ff_frame(data@)
                &&& final(self).tx_state() == TxState {
                    phase: TxPhase::WaitFc,
                    pdu: data@,
                    offset: 6,
                    sn: 1,
                    credit: 0,
                    st_min: old(self).tx_state().st_min,
                    block_size: old(self).tx_state().block_size,
                }
                &&& final(self).tx_id() == id
            },
    {
        if data.len() == 0 || data.len() > 4095 {
            return None;
        }
        if data.len() <= 7 {
            let frame = build_single_frame(data);
            Some(CanMessage { id, data: frame })
        } else {
            let frame = build_first_frame(data);
            buffer_clear(&mut self.tx_buffer);
            buffer_extend(&mut self.tx_buffer, data);
            self.tx_offset = 6;
            self.tx_sn = 1;
            self.tx_credit = 0;
            self.tx_phase = TxPhase::WaitFc;
            self.tx_can_id = id;
            proof {
                assert(buffer_bytes(self.tx_buffer) =~= data@);
            }
            Some(CanMessage { id, data: frame })
        }
    }

    /// Emits the next consecutive frame while the transmit half is
    /// sending; the returned delay must pass before the frame goes on the
    /// bus. Returns nothing when the half is idle or paused.
    pub fn next_consecutive_frame(&mut self) -> (r: Option<(CanMessage, u8)>)
        requires
            old(self).wf(),
        ensures
            final(self).wf(),
            final(self).spec_request_id() == old(self).spec_request_id(),
            final(self).spec_reply_id() == old(self).spec_reply_id(),
            final(self).rx_state() == old(self).rx_state(),
            final(self).tx_id() == old(self).tx_id(),
            !(old(self).tx_state().phase is Sending) ==> r is None && *final(self) == *old(
                self,
            ),
            old(self).tx_state().phase is Sending ==> {
                let emission = tx_next(old(self).tx_state());
                &&& r matches Some(e)
                &&& e.0.id == old(self).tx_id()
                &&& e.0.data@ == emission.frame
                &&& e.1 == emission.delay_ms
                &&& final(self).tx_state() == emission.post
            },
    {
        match self.tx_phase {
            TxPhase::Sending => {},
            _ => {
                return None;
            },
        }
        let total = buffer_len(&self.tx_buffer);
        let remaining = total - self.tx_offset;
        let take = if remaining <= 7 {
            remaining
        } else {
            7
        };
        let whole = buffer_to_vec(&self.tx_buffer);
        let chunk = vstd::slice::slice_subrange(whole.as_slice(), self.tx_offset, self.tx_offset + take);
        let frame = build_consecutive_frame(self.tx_sn, chunk);
        let delay = if 0xF1 <= self.st_min && self.st_min <= 0xF9 {
            1
        } else {
            self.st_min
        };
        let message = CanMessage { id: self.tx_can_id, data: frame };
        let sn_next = if self.tx_sn == 0x0F {
            0
        } else {
            self.tx_sn + 1
        };
        if take == remaining {
            self.tx_phase = TxPhase::Idle;
            buffer_clear(&mut self.tx_buffer);
            self.tx_offset = 0;
            self.tx_sn = 0;
            self.tx_credit = 0;
            assert(self.tx_state() =~= tx_next(old(self).tx_state()).post);
            return Some((message, delay));
        }
        self.tx_offset = self.tx_offset + take;
        self.tx_sn = sn_next;
        if self.block_size > 0 {
            self.tx_credit = self.tx_credit - 1;
            if self.tx_credit == 0 {
                self.tx_phase = TxPhase::WaitFc;
            }
        }
        assert(self.tx_state() =~= tx_next(old(self).tx_state()).post);
        Some((message, delay))
    }
}

} // verus!
