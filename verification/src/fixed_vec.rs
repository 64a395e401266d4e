//! The fixed-capacity vectors of `tinyvec` that the display code stores its
//! bytes and page flags in.
//!
//! `tinyvec::ArrayVec` is opaque to the verifier. Each of the three
//! instantiations in use gets a name for the elements it currently holds, and
//! the few methods the library calls get a contract over that name. None of
//! these contracts is proved: they restate what the `tinyvec` source does.

use tinyvec::ArrayVec;
use vstd::prelude::*;

verus! {

/// `tinyvec::ArrayVec`, a vector that lives in an array of fixed size. Nothing
/// is known of a value but what the names below say it holds.
#[verifier::external_type_specification]
#[verifier::external_body]
#[verifier::reject_recursive_types(A)]
pub struct ExArrayVec<A>(tinyvec::ArrayVec<A>);

/// The bytes of an encoded display command, first to last.
pub uninterp spec fn command_bytes(v: ArrayVec<[u8; 8]>) -> Seq<u8>;

/// The bytes a screen buffer holds, first to last.
pub uninterp spec fn buffer_bytes(v: ArrayVec<[u8; 1024]>) -> Seq<u8>;

/// The flags a page list holds, first to last.
pub uninterp spec fn page_flags(v: ArrayVec<[bool; 8]>) -> Seq<bool>;

/// `ArrayVec::from_array_len` for a command: the vector holds the first `len`
/// elements of `data`. The call panics when `len` exceeds the capacity.
#[verifier::external_body]
pub(crate) fn command_from_array_len(data: [u8; 8], len: usize) -> (v: ArrayVec<[u8; 8]>)
    requires
        len <= 8,
    ensures
        command_bytes(v) == data@.subrange(0, len as int),
{
    ArrayVec::from_array_len(data, len)
}

/// `ArrayVec::from_array_len` for a screen buffer: the vector holds the first
/// `len` elements of `data`. The call panics when `len` exceeds the capacity.
#[verifier::external_body]
pub(crate) fn buffer_from_array_len(data: [u8; 1024], len: usize) -> (v: ArrayVec<[u8; 1024]>)
    requires
        len <= 1024,
    ensures
        buffer_bytes(v) == data@.subrange(0, len as int),
{
    ArrayVec::from_array_len(data, len)
}

/// Assigning through an index of a screen buffer (`ArrayVec`'s `IndexMut`):
/// the element at `i` is replaced, the others stay. Out of range it panics.
#[verifier::external_body]
pub(crate) fn buffer_set(v: &mut ArrayVec<[u8; 1024]>, i: usize, b: u8)
    requires
        i < buffer_bytes(*old(v)).len(),
    ensures
        buffer_bytes(*final(v)) == buffer_bytes(*old(v)).update(i as int, b),
{
    v[i] = b;
}

/// `ArrayVec::as_slice` for a screen buffer: the held elements as a slice.
#[verifier::external_body]
pub(crate) fn buffer_as_slice(v: &ArrayVec<[u8; 1024]>) -> (s: &[u8])
    ensures
        s@ == buffer_bytes(*v),
{
    v.as_slice()
}

/// `ArrayVec::from_array_len` for a page list: the vector holds the first `len`
/// elements of `data`. The call panics when `len` exceeds the capacity.
#[verifier::external_body]
pub(crate) fn flags_from_array_len(data: [bool; 8], len: usize) -> (v: ArrayVec<[bool; 8]>)
    requires
        len <= 8,
    ensures
        page_flags(v) == data@.subrange(0, len as int),
{
    ArrayVec::from_array_len(data, len)
}

/// Indexing a page list (`ArrayVec`'s `Index`): the element at `i`. Out of
/// range it panics.
#[verifier::external_body]
pub(crate) fn flags_get(v: &ArrayVec<[bool; 8]>, i: usize) -> (b: bool)
    requires
        i < page_flags(*v).len(),
    ensures
        b == page_flags(*v)[i as int],
{
    v[i]
}

/// Assigning through an index of a page list (`ArrayVec`'s `IndexMut`): the
/// element at `i` is replaced, the others stay. Out of range it panics.
#[verifier::external_body]
pub(crate) fn flags_set(v: &mut ArrayVec<[bool; 8]>, i: usize, b: bool)
    requires
        i < page_flags(*old(v)).len(),
    ensures
        page_flags(*final(v)) == page_flags(*old(v)).update(i as int, b),
{
    v[i] = b;
}

} // verus!
