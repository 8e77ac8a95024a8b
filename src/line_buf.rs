//! The bounded buffer that holds the line being typed: a `heapless::Vec`
//! with room for 128 bytes, reached through the wrappers below.
use vstd::prelude::*;

verus! {

#[verifier::external_type_specification]
#[verifier::external_body]
#[verifier::reject_recursive_types(T)]
pub struct ExHeaplessVec<T, const N: usize>(heapless::Vec<T, N>);

/// The bytes that a line buffer holds, in order.
pub uninterp spec fn line_bytes(v: heapless::Vec<u8, 128>) -> Seq<u8>;

/// Relies on `heapless::Vec::new`: a new vector is empty.
#[verifier::external_body]
pub(crate) fn line_new() -> (r: heapless::Vec<u8, 128>)
    ensures
        line_bytes(r) == Seq::<u8>::empty(),
{
    heapless::Vec::new()
}

/// Relies on `heapless::Vec::push`: the byte is appended while the length is
/// under the capacity `N`; otherwise it is handed back and nothing changes.
#[verifier::external_body]
pub(crate) fn line_push(v: &mut heapless::Vec<u8, 128>, b: u8) -> (r: Result<(), u8>)
    ensures
        line_bytes(*old(v)).len() < 128 ==> r.is_ok() && line_bytes(*final(v))
            == line_bytes(*old(v)).push(b),
        line_bytes(*old(v)).len() >= 128 ==> r.is_err() && line_bytes(*final(v))
            == line_bytes(*old(v)),
{
    v.push(b)
}

/// Relies on `heapless::Vec::pop`: removes and returns the last byte, or
/// returns `None` on an empty vector.
#[verifier::external_body]
pub(crate) fn line_pop(v: &mut heapless::Vec<u8, 128>) -> (r: Option<u8>)
    ensures
        line_bytes(*old(v)).len() > 0 ==> r == Some(line_bytes(*old(v)).last())
            && line_bytes(*final(v)) == line_bytes(*old(v)).drop_last(),
        line_bytes(*old(v)).len() == 0 ==> r == None::<u8> && line_bytes(*final(v))
            == line_bytes(*old(v)),
{
    v.pop()
}

/// Relies on `heapless::Vec::clear`: the vector is left empty.
#[verifier::external_body]
pub(crate) fn line_clear(v: &mut heapless::Vec<u8, 128>)
    ensures
        line_bytes(*final(v)) == Seq::<u8>::empty(),
{
    v.clear()
}

/// Relies on `heapless::Vec::as_slice`: the slice holds the vector's bytes.
#[verifier::external_body]
pub(crate) fn line_as_slice(v: &heapless::Vec<u8, 128>) -> (r: &[u8])
    ensures
        r@ == line_bytes(*v),
{
    v.as_slice()
}

} // verus!
