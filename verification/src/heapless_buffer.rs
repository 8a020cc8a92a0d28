//! Trusted interface to the bounded byte buffer of the `heapless` crate.
//!
//! The reassembly buffers, the segmentation buffer and the staging buffer
//! all live in fixed-capacity `heapless::Vec<u8, 4096>` values, as befits a
//! firmware that must not allocate. Verus sees the type as opaque; the
//! functions here give each operation the contract that the crate's source
//! shows, phrased over [`buffer_bytes`], the bytes the buffer holds.

use vstd::prelude::*;

verus! {

#[verifier::external_type_specification]
#[verifier::external_body]
#[verifier::reject_recursive_types(T)]
pub struct ExHeaplessVec<T, const N: usize>(heapless::Vec<T, N>);

/// The bytes a bounded buffer holds, in order.
pub uninterp spec fn buffer_bytes(v: heapless::Vec<u8, 4096>) -> Seq<u8>;

/// Relies on heapless::Vec::new: the new buffer is empty.
#[verifier::external_body]
pub fn buffer_new() -> (r: heapless::Vec<u8, 4096>)
    ensures
        buffer_bytes(r) == Seq::<u8>::empty(),
{
    heapless::Vec::new()
}

/// Relies on heapless::Vec::len; the length never exceeds the capacity.
#[verifier::external_body]
pub fn buffer_len(v: &heapless::Vec<u8, 4096>) -> (r: usize)
    ensures
        r == buffer_bytes(*v).len(),
        r <= 4096,
{
    v.len()
}

/// Relies on heapless::Vec::clear: all elements are dropped.
#[verifier::external_body]
pub fn buffer_clear(v: &mut heapless::Vec<u8, 4096>)
    ensures
        buffer_bytes(*final(v)) == Seq::<u8>::empty(),
{
    v.clear()
}

/// Relies on heapless::Vec::extend_from_slice: appends `s` in order; the
/// precondition rules out the full-buffer error.
#[verifier::external_body]
pub fn buffer_extend(v: &mut heapless::Vec<u8, 4096>, s: &[u8])
    requires
        buffer_bytes(*old(v)).len() + s@.len() <= 4096,
    ensures
        buffer_bytes(*final(v)) == buffer_bytes(*old(v)) + s@,
{
    let _ = v.extend_from_slice(s);
}

/// Relies on heapless::Vec::resize: grows with the fill value or truncates;
/// the precondition rules out the over-capacity error.
#[verifier::external_body]
pub fn buffer_resize(v: &mut heapless::Vec<u8, 4096>, new_len: usize, fill: u8)
    requires
        new_len <= 4096,
    ensures
        new_len <= buffer_bytes(*old(v)).len() ==> buffer_bytes(*final(v)) == buffer_bytes(
            *old(v),
        ).take(new_len as int),
        new_len > buffer_bytes(*old(v)).len() ==> buffer_bytes(*final(v)) == buffer_bytes(*old(v))
            + Seq::new((new_len - buffer_bytes(*old(v)).len()) as nat, |i: int| fill),
{
    let _ = v.resize(new_len, fill);
}

/// Relies on the slice view of heapless::Vec (Deref) and
/// slice::copy_from_slice: overwrites the bytes at `offset..offset + chunk.len()`.
#[verifier::external_body]
pub fn buffer_write_at(v: &mut heapless::Vec<u8, 4096>, offset: usize, chunk: &[u8])
    requires
        offset + chunk@.len() <= buffer_bytes(*old(v)).len(),
    ensures
        buffer_bytes(*final(v)) == buffer_bytes(*old(v)).take(offset as int) + chunk@
            + buffer_bytes(*old(v)).skip(offset as int + chunk@.len() as int),
{
    v[offset..offset + chunk.len()].copy_from_slice(chunk)
}

/// Relies on the slice view of heapless::Vec (Deref) and usize indexing.
#[verifier::external_body]
pub fn buffer_byte_at(v: &heapless::Vec<u8, 4096>, i: usize) -> (r: u8)
    requires
        i < buffer_bytes(*v).len(),
    ensures
        r == buffer_bytes(*v)[i as int],
{
    v[i]
}

/// Relies on heapless::Vec::as_slice and slice::to_vec: copies the bytes out.
#[verifier::external_body]
pub fn buffer_to_vec(v: &heapless::Vec<u8, 4096>) -> (r: Vec<u8>)
    ensures
        r@ == buffer_bytes(*v),
{
    v.as_slice().to_vec()
}

} // verus!
