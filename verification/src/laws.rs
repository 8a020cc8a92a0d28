//! Laws of the ISO-TP core, proved once and for all inputs: the shape of a
//! segmented transmission, the symmetry of segmentation and reassembly,
//! sequence discipline, pacing, block-size pauses, upload accumulation,
//! filter uniqueness, and routing.

use vstd::prelude::*;

use crate::frames::{
    cf_frame, cf_frames, ff_frame, next_sn, sf_frame, tx_frames, TX_PAD_BYTE,
};
use crate::isotp_ble_bridge::{
    configure_post, matches_route, route_outputs, staged_after_upload, IsotpBleBridge,
    ManagerError, MAX_HANDLERS,
};
use crate::isotp_handler::{
    min_int, rx_idle, session_step, st_min_delay_ms, tx_next, tx_on_flow_control, IsotpHandler,
    OutcomeModel, RxState, TxPhase, TxState,
};
use crate::ble_protocol::ConfigureIsotpFilterCommand;
use crate::can_manager::CanFilterTable;

verus! {

/// The least number of chunks of size `b` that cover `a` bytes.
pub open spec fn ceil_div(a: int, b: int) -> int {
    (a + b - 1) / b
}

/// A short PDU is carried by exactly one frame: 8 bytes long, the length
/// in its first byte, the payload next, pad bytes to the end.
pub proof fn lemma_single_frame_roundtrip(pdu: Seq<u8>)
    requires
        1 <= pdu.len() <= 7,
    ensures
        tx_frames(pdu) == seq![sf_frame(pdu)],
        sf_frame(pdu).len() == 8,
        sf_frame(pdu)[0] == pdu.len() as u8,
        forall|i: int| 0 <= i < pdu.len() ==> sf_frame(pdu)[i + 1] == pdu[i],
        forall|i: int| pdu.len() < i < 8 ==> sf_frame(pdu)[i] == TX_PAD_BYTE,
{
    assert(sf_frame(pdu).len() == 8);
}

/// Every consecutive frame that carries `rest`, the first labelled `sn`:
/// there are exactly as many as 7-byte chunks are needed; the `k`-th is 8
/// bytes, labelled `(sn + k) % 16`, and carries the `k`-th chunk.
pub proof fn lemma_cf_frames_shape(rest: Seq<u8>, sn: int)
    requires
        rest.len() >= 1,
        0 <= sn < 16,
    ensures
        cf_frames(rest, sn).len() == ceil_div(rest.len() as int, 7),
        forall|k: int|
            0 <= k < cf_frames(rest, sn).len() ==> #[trigger] cf_frames(rest, sn)[k] == cf_frame(
                (sn + k) % 16,
                rest.subrange(7 * k, min_int(7 * (k + 1), rest.len() as int)),
            ),
    decreases rest.len(),
{
    if rest.len() <= 7 {
        assert(sn % 16 == sn);
        assert(rest.subrange(0, min_int(7, rest.len() as int)) =~= rest);
    } else {
        lemma_cf_frames_shape(rest.skip(7), next_sn(sn));
        assert(rest.take(7) =~= rest.subrange(0, min_int(7, rest.len() as int)));
        assert(sn % 16 == sn);
        assert forall|k: int| 1 <= k < cf_frames(rest, sn).len() implies #[trigger] cf_frames(
            rest,
            sn,
        )[k] == cf_frame(
            (sn + k) % 16,
            rest.subrange(7 * k, min_int(7 * (k + 1), rest.len() as int)),
        ) by {
            let tail = rest.skip(7);
            assert(cf_frames(rest, sn)[k] == cf_frames(tail, next_sn(sn))[k - 1]);
            assert((next_sn(sn) + (k - 1)) % 16 == (sn + k) % 16);
            assert(tail.subrange(7 * (k - 1), min_int(7 * k, tail.len() as int)) =~= rest.subrange(
                7 * k,
                min_int(7 * (k + 1), rest.len() as int),
            ));
        }
    }
}

/// A long PDU is carried by a first frame and then exactly
/// `ceil((L - 6) / 7)` consecutive frames, numbered `1, 2, ..., 15, 0, 1,
/// ...`, each with at most 7 payload bytes.
pub proof fn lemma_multi_frame_segmentation(pdu: Seq<u8>)
    requires
        8 <= pdu.len() <= 4095,
    ensures
        tx_frames(pdu).len() == 1 + ceil_div(pdu.len() - 6, 7),
        tx_frames(pdu)[0] == ff_frame(pdu),
        forall|k: int|
            1 <= k < tx_frames(pdu).len() ==> #[trigger] tx_frames(pdu)[k] == cf_frame(
                (1 + (k - 1)) % 16,
                pdu.skip(6).subrange(
                    7 * (k - 1),
                    min_int(7 * k, pdu.len() - 6),
                ),
            ),
        forall|k: int| 0 <= k < tx_frames(pdu).len() ==> (#[trigger] tx_frames(pdu)[k]).len() == 8,
{
    lemma_cf_frames_shape(pdu.skip(6), 1);
    assert(ff_frame(pdu).len() == 8);
    assert forall|k: int| 1 <= k < tx_frames(pdu).len() implies (#[trigger] tx_frames(pdu)[k]).len()
        == 8 by {
        assert(tx_frames(pdu)[k] == cf_frames(pdu.skip(6), 1)[k - 1]);
        let chunk = pdu.skip(6).subrange(7 * (k - 1), min_int(7 * k, pdu.len() - 6));
        assert(cf_frame((1 + (k - 1)) % 16, chunk).len() == 8);
    }
}

/// Feeds a list of frames through the session machine, collecting every
/// completed PDU in order.
pub open spec fn feed_frames(rx: RxState, tx: TxState, frames: Seq<Seq<u8>>) -> (
    RxState,
    Seq<Seq<u8>>,
)
    decreases frames.len(),
{
    if frames.len() == 0 {
        (rx, Seq::empty())
    } else {
        let step = session_step(rx, tx, frames[0]);
        let rest = feed_frames(step.rx, step.tx, frames.skip(1));
        (
            rest.0,
            (match step.out {
                OutcomeModel::Pdu(p) => seq![p],
                _ => Seq::empty(),
            }) + rest.1,
        )
    }
}

/// Feeding the consecutive frames of `rest` into a reassembly that still
/// misses exactly `rest` completes it with the whole PDU, and only then.
proof fn lemma_feed_consecutive(expected: int, buf: Seq<u8>, rest: Seq<u8>, sn: int, tx: TxState)
    requires
        buf.len() + rest.len() == expected,
        rest.len() >= 1,
        8 <= expected <= 4095,
        0 <= sn < 16,
    ensures
        feed_frames(RxState { active: true, expected, next_sn: sn, buf }, tx, cf_frames(rest, sn))
            == (rx_idle(), seq![buf + rest]),
    decreases rest.len(),
{
    let s = RxState { active: true, expected, next_sn: sn, buf };
    if rest.len() <= 7 {
        let frame = cf_frame(sn, rest);
        assert(frame.len() == 8);
        assert(frame[0] == (0x20 + sn) as u8);
        assert(frame[0] / 16 == 2 && frame[0] % 16 == sn);
        let take = min_int(frame.len() - 1, expected - buf.len());
        assert(take == rest.len());
        assert(frame.subrange(1, 1 + take) =~= rest);
        let step = session_step(s, tx, frame);
        assert(step.rx == rx_idle() && step.out == OutcomeModel::Pdu(buf + rest));
        assert(cf_frames(rest, sn).skip(1) =~= Seq::<Seq<u8>>::empty());
        assert(feed_frames(step.rx, step.tx, Seq::<Seq<u8>>::empty()) == (
            step.rx,
            Seq::<Seq<u8>>::empty(),
        ));
        assert(cf_frames(rest, sn)[0] == frame);
        assert(seq![buf + rest] + Seq::<Seq<u8>>::empty() =~= seq![buf + rest]);
    } else {
        let chunk = rest.take(7);
        let frame = cf_frame(sn, chunk);
        assert(frame.len() == 8);
        assert(frame[0] == (0x20 + sn) as u8);
        assert(frame[0] / 16 == 2 && frame[0] % 16 == sn);
        let take = min_int(frame.len() - 1, expected - buf.len());
        assert(take == 7);
        assert(frame.subrange(1, 1 + take) =~= chunk);
        let collected = buf + chunk;
        assert(collected.len() < expected);
        let step = session_step(s, tx, frame);
        assert(step.rx == RxState {
            active: true,
            expected,
            next_sn: next_sn(sn),
            buf: collected,
        });
        assert(step.out == OutcomeModel::Progress);
        lemma_feed_consecutive(expected, collected, rest.skip(7), next_sn(sn), step.tx);
        assert(cf_frames(rest, sn)[0] == frame);
        assert(cf_frames(rest, sn).skip(1) =~= cf_frames(rest.skip(7), next_sn(sn)));
        assert(collected + rest.skip(7) =~= buf + rest);
        assert(Seq::<Seq<u8>>::empty() + seq![buf + rest] =~= seq![buf + rest]);
    }
}

/// Reassembly symmetry: feeding the frames a transmission of `pdu`
/// produces into a receiver, in order, delivers exactly `pdu` and leaves
/// the receiver idle — from any prior receive state.
pub proof fn lemma_reassembly_roundtrip(pdu: Seq<u8>, rx0: RxState, tx: TxState)
    requires
        8 <= pdu.len() <= 4095,
    ensures
        feed_frames(rx0, tx, tx_frames(pdu)) == (rx_idle(), seq![pdu]),
{
    let ff = ff_frame(pdu);
    let len = pdu.len() as int;
    assert(ff.len() == 8);
    assert(ff[0] == (0x10 + len / 256) as u8);
    assert(0 <= len / 256 < 16);
    assert(ff[0] / 16 == 1 && ff[0] % 16 == len / 256);
    assert(ff[1] == (len % 256) as u8);
    assert((len / 256) * 256 + len % 256 == len);
    let step = session_step(rx0, tx, ff);
    assert(ff.skip(2) =~= pdu.take(6));
    assert(step.rx == RxState { active: true, expected: len, next_sn: 1, buf: pdu.take(6) });
    lemma_feed_consecutive(len, pdu.take(6), pdu.skip(6), 1, step.tx);
    assert(tx_frames(pdu)[0] == ff);
    assert(tx_frames(pdu).skip(1) =~= cf_frames(pdu.skip(6), 1));
    assert(pdu.take(6) + pdu.skip(6) =~= pdu);
    assert(Seq::<Seq<u8>>::empty() + seq![pdu] =~= seq![pdu]);
}

/// Sequence discipline: a consecutive frame whose sequence number is not
/// the expected one aborts the reassembly and delivers nothing; further
/// consecutive frames fall on an idle receiver and are dropped.
pub proof fn lemma_bad_sn_aborts(s: RxState, tx: TxState, data: Seq<u8>)
    requires
        s.active,
        2 <= data.len() <= 8,
        data[0] / 16 == 2,
        (data[0] % 16) as int != s.next_sn,
    ensures
        session_step(s, tx, data).rx == rx_idle(),
        session_step(s, tx, data).out == OutcomeModel::Aborted,
        forall|later: Seq<u8>|
            later.len() >= 1 && (#[trigger] later[0]) / 16 == 2 ==> session_step(
                rx_idle(),
                tx,
                later,
            ).out == OutcomeModel::Ignored && session_step(rx_idle(), tx, later).rx == rx_idle(),
{
}

/// Pacing: while the peer's separation time is a plain millisecond value,
/// every consecutive-frame emission demands exactly that delay; the
/// microsecond encodings demand 1 ms.
pub proof fn lemma_pacing_delay(tx: TxState)
    ensures
        tx.st_min <= 0x7F ==> tx_next(tx).delay_ms == tx.st_min,
        0xF1 <= tx.st_min <= 0xF9 ==> tx_next(tx).delay_ms == 1,
        tx_next(tx).delay_ms == st_min_delay_ms(tx.st_min),
{
}

/// How many consecutive frames the transmitter can emit before it stops
/// on its own: by finishing, or by pausing for flow control.
pub open spec fn emissions_before_stop(tx: TxState) -> int
    decreases (if tx.phase is Sending && 0 <= tx.offset < tx.pdu.len() {
        tx.pdu.len() - tx.offset
    } else {
        0
    }),
{
    if tx.phase is Sending && 0 <= tx.offset < tx.pdu.len() {
        1 + emissions_before_stop(tx_next(tx).post)
    } else {
        0
    }
}

/// Block-size pause: a transmitter sending with a positive block size and
/// `credit` frames of credit emits at most `credit` consecutive frames
/// before it stops; and a "continue to send" releases a paused
/// transmitter with a fresh credit.
pub proof fn lemma_block_size_pause(tx: TxState)
    requires
        tx.phase is Sending,
        0 <= tx.offset < tx.pdu.len(),
        tx.block_size > 0,
        tx.credit >= 1,
    ensures
        emissions_before_stop(tx) <= tx.credit,
    decreases tx.pdu.len() - tx.offset,
{
    let post = tx_next(tx).post;
    if post.phase is Sending && 0 <= post.offset < post.pdu.len() {
        lemma_block_size_pause(post);
    } else {
        assert(emissions_before_stop(post) == 0);
    }
}

/// The release: a flow-control frame with "continue to send" moves a
/// paused transmitter back to sending, with the credit it carries.
pub proof fn lemma_cts_resumes(tx: TxState, data: Seq<u8>)
    requires
        tx.phase is WaitFc,
        data.len() >= 3,
        data[0] % 16 == 0,
    ensures
        tx_on_flow_control(tx, data).0.phase is Sending,
        tx_on_flow_control(tx, data).0.credit == data[1] as int,
        tx_on_flow_control(tx, data).0.st_min == data[2],
        tx_on_flow_control(tx, data).1 == OutcomeModel::Resumed,
{
}


/// The consecutive frames a transmitter emits, one `tx_next` step at a
/// time, until it stops on its own.
pub open spec fn tx_emitted(tx: TxState) -> Seq<Seq<u8>>
    decreases (if tx.phase is Sending && 0 <= tx.offset < tx.pdu.len() {
        tx.pdu.len() - tx.offset
    } else {
        0
    }),
{
    if tx.phase is Sending && 0 <= tx.offset < tx.pdu.len() {
        seq![tx_next(tx).frame] + tx_emitted(tx_next(tx).post)
    } else {
        Seq::empty()
    }
}

/// With block size 0 ("send all"), a sending transmitter emits exactly
/// the consecutive frames of its remaining payload, correctly numbered.
pub proof fn lemma_transmitter_matches_segmentation(tx: TxState)
    requires
        tx.phase is Sending,
        tx.block_size == 0,
        0 <= tx.offset < tx.pdu.len(),
        0 <= tx.sn < 16,
    ensures
        tx_emitted(tx) == cf_frames(tx.pdu.skip(tx.offset), tx.sn),
    decreases tx.pdu.len() - tx.offset,
{
    let rest = tx.pdu.skip(tx.offset);
    let take = min_int(7, tx.pdu.len() - tx.offset);
    let post = tx_next(tx).post;
    if tx.pdu.len() - tx.offset <= 7 {
        assert(tx.pdu.subrange(tx.offset, tx.offset + take) =~= rest);
        assert(tx_emitted(post) =~= Seq::<Seq<u8>>::empty());
        assert(seq![tx_next(tx).frame] + Seq::<Seq<u8>>::empty() =~= seq![tx_next(tx).frame]);
    } else {
        lemma_transmitter_matches_segmentation(post);
        assert(tx.pdu.subrange(tx.offset, tx.offset + 7) =~= rest.take(7));
        assert(post.pdu.skip(post.offset) =~= rest.skip(7));
    }
}

/// The whole multi-frame transmission: the first frame, then — once a
/// "continue to send" with block size 0 arrives — the emitted consecutive
/// frames, together are exactly the frames of the segmentation.
pub proof fn lemma_transmission_completes(pdu: Seq<u8>, st: u8, st0: u8, bs0: u8)
    requires
        8 <= pdu.len() <= 4095,
    ensures
        ({
            let after_ff = TxState {
                phase: TxPhase::WaitFc,
                pdu: pdu,
                offset: 6,
                sn: 1,
                credit: 0,
                st_min: st0,
                block_size: bs0,
            };
            let resumed = tx_on_flow_control(after_ff, crate::frames::fc_frame(0, 0, st)).0;
            seq![ff_frame(pdu)] + tx_emitted(resumed) == tx_frames(pdu)
        }),
{
    let after_ff = TxState {
        phase: TxPhase::WaitFc,
        pdu: pdu,
        offset: 6,
        sn: 1,
        credit: 0,
        st_min: st0,
        block_size: bs0,
    };
    let fc = crate::frames::fc_frame(0, 0, st);
    assert(fc.len() == 8);
    assert(fc[0] == 0x30 && fc[0] % 16 == 0 && fc[1] == 0 && fc[2] == st);
    let resumed = tx_on_flow_control(after_ff, fc).0;
    assert(resumed.phase is Sending && resumed.block_size == 0);
    lemma_transmitter_matches_segmentation(resumed);
    assert(seq![ff_frame(pdu)] + cf_frames(pdu.skip(6), 1) =~= tx_frames(pdu));
}

/// Upload accumulation: two uploads that tile an empty staging buffer
/// leave exactly their concatenation, so a following send consumes bytes
/// 0..8 as the two ids and the rest as the PDU.
pub proof fn lemma_uploads_accumulate(first: Seq<u8>, second: Seq<u8>)
    requires
        first.len() + second.len() <= 4096,
    ensures
        staged_after_upload(
            staged_after_upload(Seq::empty(), 0, first),
            first.len() as int,
            second,
        ) == first + second,
{
    assert(staged_after_upload(Seq::empty(), 0, first) =~= first);
    assert(staged_after_upload(first, first.len() as int, second) =~= first + second);
}

/// Uploads at distinct offsets do not disturb each other: after a second
/// upload beyond the first, the first chunk's bytes still read back.
pub proof fn lemma_uploads_disjoint(staging: Seq<u8>, off1: int, c1: Seq<u8>, off2: int, c2: Seq<
    u8,
>)
    requires
        0 <= off1,
        off1 + c1.len() <= off2,
        off2 + c2.len() <= 4096,
    ensures
        forall|j: int|
            off1 <= j < off1 + c1.len() ==> staged_after_upload(
                staged_after_upload(staging, off1, c1),
                off2,
                c2,
            )[j] == c1[j - off1],
{
    let once = staged_after_upload(staging, off1, c1);
    assert forall|j: int| off1 <= j < off1 + c1.len() implies staged_after_upload(once, off2, c2)[j]
        == c1[j - off1] by {
        assert(once[j] == c1[j - off1]);
    }
}

/// Filter uniqueness: configuring the same filter id twice fails the
/// second time with `FilterAlreadyExists` and changes nothing; and a
/// bridge whose registry is full refuses a fresh filter id with
/// `FailedToInsertFilter`.
pub proof fn lemma_filter_uniqueness(
    pre: IsotpBleBridge,
    mid: IsotpBleBridge,
    post: IsotpBleBridge,
    first: ConfigureIsotpFilterCommand,
    second: ConfigureIsotpFilterCommand,
    f0: CanFilterTable,
    f1: CanFilterTable,
    f2: CanFilterTable,
    r2: Result<(), ManagerError>,
)
    requires
        configure_post(pre, mid, first, f0, f1, Ok(())),
        configure_post(mid, post, second, f1, f2, r2),
        second.filter_id == first.filter_id,
    ensures
        r2 == Err::<(), ManagerError>(ManagerError::FilterAlreadyExists),
        post == mid,
        f2@ == f1@,
{
    assert(mid.spec_registry().dom().contains(first.filter_id));
}

/// The capacity half of filter uniqueness: with the registry full, a
/// fresh filter id is refused.
pub proof fn lemma_registry_capacity(
    pre: IsotpBleBridge,
    post: IsotpBleBridge,
    command: ConfigureIsotpFilterCommand,
    f0: CanFilterTable,
    f1: CanFilterTable,
    r: Result<(), ManagerError>,
)
    requires
        configure_post(pre, post, command, f0, f1, r),
        !pre.spec_registry().dom().contains(command.filter_id),
        f0@.len() < crate::can_manager::MAX_FILTERS,
        pre.spec_sessions().len() >= MAX_HANDLERS,
    ensures
        r == Err::<(), ManagerError>(ManagerError::FailedToInsertFilter),
        post == pre,
{
}

/// Routing: a frame whose arbitration id matches no session produces no
/// flow-control frame and delivers no PDU.
pub proof fn lemma_unrouted_frame(sessions: Seq<IsotpHandler>, id: u32, data: Seq<u8>)
    requires
        forall|j: int| 0 <= j < sessions.len() ==> !matches_route(#[trigger] sessions[j], id),
    ensures
        route_outputs(sessions, id, data).0 == Seq::<(u32, Seq<u8>)>::empty(),
        route_outputs(sessions, id, data).1 == Seq::<(u32, u32, Seq<u8>)>::empty(),
    decreases sessions.len(),
{
    if sessions.len() > 0 {
        assert(!matches_route(sessions[0], id));
        assert forall|j: int| 0 <= j < sessions.skip(1).len() implies !matches_route(
            #[trigger] sessions.skip(1)[j],
            id,
        ) by {
            assert(sessions.skip(1)[j] == sessions[j + 1]);
        }
        lemma_unrouted_frame(sessions.skip(1), id, data);
    }
}

} // verus!
