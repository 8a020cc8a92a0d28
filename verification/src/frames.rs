//! The ISO-TP frame layer on classic CAN.
//!
//! The upper nibble of the first byte names the frame type: 0 single frame
//! (SF), 1 first frame (FF), 2 consecutive frame (CF), 3 flow control (FC).
//! Every frame the transmitter emits is padded to 8 bytes with `0x55`.

use vstd::prelude::*;

verus! {

/// Byte used to pad transmitted frames to 8 bytes.
pub const TX_PAD_BYTE: u8 = 0x55;

/// Largest PDU a single frame can carry.
pub const SF_MAX_LEN: usize = 7;

/// Largest PDU a first frame can announce.
pub const FF_MAX_LEN: usize = 4095;

/// Payload bytes a consecutive frame can carry.
pub const CF_MAX_LEN: usize = 7;

/// Flow status: continue to send.
pub const FS_CONTINUE_TO_SEND: u8 = 0x00;

/// Flow status: wait for a further flow-control frame.
pub const FS_WAIT: u8 = 0x01;

/// Flow status: receiver overflow, abort the transmission.
pub const FS_OVERFLOW: u8 = 0x02;

/// `s`, padded to 8 bytes with the pad byte. Meaningful for `s.len() <= 8`.
pub open spec fn pad8(s: Seq<u8>) -> Seq<u8> {
    s + Seq::new((8 - s.len()) as nat, |i: int| TX_PAD_BYTE)
}

/// The single frame that carries `pdu` (of length 1..=7).
pub open spec fn sf_frame(pdu: Seq<u8>) -> Seq<u8> {
    pad8(seq![pdu.len() as u8] + pdu)
}

/// The first frame of `pdu` (of length 8..=4095): the 12-bit length, then
/// the first 6 payload bytes.
pub open spec fn ff_frame(pdu: Seq<u8>) -> Seq<u8> {
    seq![(0x10 + pdu.len() / 256) as u8, (pdu.len() % 256) as u8] + pdu.take(6)
}

/// The consecutive frame with sequence number `sn` (0..=15) carrying
/// `chunk` (of length 1..=7).
pub open spec fn cf_frame(sn: int, chunk: Seq<u8>) -> Seq<u8> {
    pad8(seq![(0x20 + sn) as u8] + chunk)
}

/// The flow-control frame with flow status `fs` (0..=15), block size `bs`
/// and separation time `st`.
pub open spec fn fc_frame(fs: u8, bs: u8, st: u8) -> Seq<u8> {
    pad8(seq![(0x30 + fs) as u8, bs, st])
}

/// The sequence number after `sn`: they wrap within 0..=15.
pub open spec fn next_sn(sn: int) -> int {
    if sn == 15 {
        0
    } else {
        sn + 1
    }
}

/// The consecutive frames that carry `rest`, the first labelled `sn`:
/// 7 bytes each, the last one shorter when less is left.
pub open spec fn cf_frames(rest: Seq<u8>, sn: int) -> Seq<Seq<u8>>
    decreases rest.len(),
{
    if rest.len() == 0 {
        Seq::empty()
    } else if rest.len() <= 7 {
        seq![cf_frame(sn, rest)]
    } else {
        seq![cf_frame(sn, rest.take(7))] + cf_frames(rest.skip(7), next_sn(sn))
    }
}

/// Every frame a transmission of `pdu` emits, in order: one single frame
/// for a short PDU, else the first frame and then the consecutive frames
/// of the remainder, numbered from 1.
pub open spec fn tx_frames(pdu: Seq<u8>) -> Seq<Seq<u8>> {
    if pdu.len() <= 7 {
        seq![sf_frame(pdu)]
    } else {
        seq![ff_frame(pdu)] + cf_frames(pdu.skip(6), 1)
    }
}

/// Appends pad bytes until the frame is 8 bytes long.
pub fn pad_to_8(frame: &mut Vec<u8>)
    requires
        old(frame)@.len() <= 8,
    ensures
        final(frame)@ == pad8(old(frame)@),
{
    while frame.len() < 8
        invariant
            old(frame)@.len() <= frame@.len() <= 8,
            frame@.subrange(0, old(frame)@.len() as int) == old(frame)@,
            forall|i: int| old(frame)@.len() <= i < frame@.len() ==> frame@[i] == TX_PAD_BYTE,
        decreases 8 - frame@.len(),
    {
        frame.push(TX_PAD_BYTE);
    }
    assert(frame@ =~= pad8(old(frame)@));
}

/// Appends `s` to `out`.
pub fn append_bytes(out: &mut Vec<u8>, s: &[u8])
    ensures
        final(out)@ == old(out)@ + s@,
{
    out.extend_from_slice(s);
    proof {
        assert forall|i: int| 0 <= i < out@.len() implies out@[i] == (old(out)@ + s@)[i] by {
            if i >= old(out)@.len() {
                assert(cloned::<u8>(s@[i - old(out)@.len()], out@[i]));
            }
        }
        assert(out@ =~= old(out)@ + s@);
    }
}

/// Builds the single frame for a short PDU.
pub fn build_single_frame(pdu: &[u8]) -> (r: Vec<u8>)
    requires
        1 <= pdu@.len() <= 7,
    ensures
        r@ == sf_frame(pdu@),
        r@.len() == 8,
{
    let mut frame: Vec<u8> = Vec::new();
    frame.push(pdu.len() as u8);
    append_bytes(&mut frame, pdu);
    pad_to_8(&mut frame);
    assert(seq![pdu@.len() as u8] + pdu@ =~= seq![pdu@.len() as u8].add(pdu@));
    frame
}

/// Builds the first frame of a long PDU.
pub fn build_first_frame(pdu: &[u8]) -> (r: Vec<u8>)
    requires
        8 <= pdu@.len() <= 4095,
    ensures
        r@ == ff_frame(pdu@),
        r@.len() == 8,
{
    let mut frame: Vec<u8> = Vec::new();
    frame.push((0x10 + pdu.len() / 256) as u8);
    frame.push((pdu.len() % 256) as u8);
    append_bytes(&mut frame, vstd::slice::slice_subrange(pdu, 0, 6));
    assert(frame@ =~= ff_frame(pdu@));
    frame
}

/// Builds the consecutive frame labelled `sn` carrying `chunk`.
pub fn build_consecutive_frame(sn: u8, chunk: &[u8]) -> (r: Vec<u8>)
    requires
        sn < 16,
        1 <= chunk@.len() <= 7,
    ensures
        r@ == cf_frame(sn as int, chunk@),
        r@.len() == 8,
{
    let mut frame: Vec<u8> = Vec::new();
    frame.push(0x20 + sn);
    append_bytes(&mut frame, chunk);
    pad_to_8(&mut frame);
    assert(seq![(0x20 + sn) as u8] + chunk@ =~= seq![(0x20 + sn as int) as u8].add(chunk@));
    frame
}

/// Builds the flow-control frame `(fs, bs, st)`.
pub fn build_flow_control(fs: u8, bs: u8, st: u8) -> (r: Vec<u8>)
    requires
        fs < 16,
    ensures
        r@ == fc_frame(fs, bs, st),
        r@.len() == 8,
{
    let mut frame: Vec<u8> = Vec::new();
    frame.push(0x30 + fs);
    frame.push(bs);
    frame.push(st);
    pad_to_8(&mut frame);
    assert(seq![(0x30 + fs) as u8, bs, st] =~= seq![(0x30 + fs) as u8].add(seq![bs]).add(
        seq![st],
    ));
    frame
}

} // verus!
