//! Trusted boundary to `heapless::Vec`, the fixed-capacity vector that
//! encoded frames are returned in. The verified encoder only ever appends
//! bytes and reads the filled portion back, so three operations suffice.

use vstd::prelude::*;

verus! {

#[verifier::external_type_specification]
#[verifier::external_body]
#[verifier::reject_recursive_types(T)]
pub struct ExHeaplessVec<T, const N: usize>(heapless::Vec<T, N>);

/// The bytes a packet buffer holds, in order.
pub uninterp spec fn packet_bytes(v: heapless::Vec<u8, 255>) -> Seq<u8>;

/// Relies on heapless::Vec::new: a freshly constructed vector is empty.
#[verifier::external_body]
pub(crate) fn packet_new() -> (v: heapless::Vec<u8, 255>)
    ensures
        packet_bytes(v) == Seq::<u8>::empty(),
{
    heapless::Vec::new()
}

/// Relies on heapless::Vec::push: below capacity, it appends the item to the
/// back and returns Ok.
#[verifier::external_body]
pub(crate) fn packet_push(v: &mut heapless::Vec<u8, 255>, b: u8)
    requires
        packet_bytes(*old(v)).len() < 255,
    ensures
        packet_bytes(*final(v)) == packet_bytes(*old(v)).push(b),
{
    let _ = v.push(b);
}

/// Relies on heapless::Vec::as_slice: the filled portion of the buffer,
/// in order.
#[verifier::external_body]
pub(crate) fn packet_as_slice(v: &heapless::Vec<u8, 255>) -> (s: &[u8])
    ensures
        s@ == packet_bytes(*v),
{
    v.as_slice()
}

} // verus!
