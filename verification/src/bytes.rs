//! The non-empty byte slices and byte vectors of the `non_empty_slice` crate.
//!
//! Their contents are hidden from the verifier, so each type gets a name for
//! the bytes that it holds, and each function that is called here a wrapper
//! whose contract is stated over those names. The contracts are not proved:
//! they restate what the source of the crate shows.

use non_empty_slice::{EmptyBoxedSlice, EmptySlice, EmptyVec, NonEmptySlice, NonEmptyVec};
use vstd::prelude::*;

verus! {

/// A slice that is never empty.
#[verifier::external_type_specification]
#[verifier::external_body]
#[verifier::reject_recursive_types(T)]
pub struct ExNonEmptySlice<T>(NonEmptySlice<T>);

/// A vector that is never empty.
#[verifier::external_type_specification]
#[verifier::external_body]
#[verifier::reject_recursive_types(T)]
pub struct ExNonEmptyVec<T>(NonEmptyVec<T>);

/// The error of a slice that is empty.
#[verifier::external_type_specification]
#[verifier::external_body]
pub struct ExEmptySlice(EmptySlice);

/// The error of a vector that is empty; it holds that vector.
#[verifier::external_type_specification]
#[verifier::external_body]
#[verifier::reject_recursive_types(T)]
pub struct ExEmptyVec<T>(EmptyVec<T>);

/// The error of a boxed slice that is empty; it holds that boxed slice.
#[verifier::external_type_specification]
#[verifier::external_body]
#[verifier::reject_recursive_types(T)]
pub struct ExEmptyBoxedSlice<T>(EmptyBoxedSlice<T>);

/// The bytes of a non-empty byte slice.
pub uninterp spec fn slice_bytes(slice: &NonEmptySlice<u8>) -> Seq<u8>;

/// The bytes of a non-empty byte vector.
pub uninterp spec fn vec_bytes(vec: &NonEmptyVec<u8>) -> Seq<u8>;

/// The bytes of the vector that an `EmptyVec` holds.
pub uninterp spec fn rejected_bytes(error: &EmptyVec<u8>) -> Seq<u8>;

/// `NonEmptySlice::try_from_slice`: the same bytes as a non-empty slice, or
/// `EmptySlice` if there are none.
#[verifier::external_body]
pub(crate) fn non_empty_slice_from(bytes: &[u8]) -> (r: Result<&NonEmptySlice<u8>, EmptySlice>)
    ensures
        r is Ok <==> bytes@.len() > 0,
        r is Ok ==> slice_bytes(r->Ok_0) == bytes@,
{
    NonEmptySlice::try_from_slice(bytes)
}

/// `NonEmptySlice::as_slice`: the bytes of the slice, of which there is at
/// least one.
#[verifier::external_body]
pub(crate) fn non_empty_slice_as_slice(slice: &NonEmptySlice<u8>) -> (r: &[u8])
    ensures
        r@ == slice_bytes(slice),
        r@.len() > 0,
{
    slice.as_slice()
}

/// `NonEmptySlice::try_from_mut_slice`: the same bytes as a non-empty slice
/// that can be changed, or `EmptySlice` if there are none. What becomes of
/// the non-empty slice becomes of the bytes.
#[verifier::external_body]
pub(crate) fn non_empty_slice_from_mut(bytes: &mut [u8]) -> (r: Result<
    &mut NonEmptySlice<u8>,
    EmptySlice,
>)
    ensures
        r is Ok <==> old(bytes)@.len() > 0,
        r is Ok ==> slice_bytes(r->Ok_0) == old(bytes)@,
        r is Ok ==> final(bytes)@ == slice_bytes(final(r->Ok_0)),
        r is Err ==> final(bytes)@ == old(bytes)@,
{
    NonEmptySlice::try_from_mut_slice(bytes)
}

/// `NonEmptySlice::as_mut_slice`: the bytes of the slice, of which there is
/// at least one, to be changed. What becomes of them becomes of the
/// non-empty slice.
#[verifier::external_body]
pub(crate) fn non_empty_slice_as_mut_slice(slice: &mut NonEmptySlice<u8>) -> (r: &mut [u8])
    ensures
        r@ == slice_bytes(old(slice)),
        r@.len() > 0,
        slice_bytes(final(slice)) == final(r)@,
{
    slice.as_mut_slice()
}

/// `NonEmptyVec::new`: the same bytes as a non-empty vector, or an `EmptyVec`
/// that holds the vector if it has none.
#[verifier::external_body]
pub(crate) fn non_empty_vec_from(bytes: Vec<u8>) -> (r: Result<NonEmptyVec<u8>, EmptyVec<u8>>)
    ensures
        r is Ok <==> bytes@.len() > 0,
        r is Ok ==> vec_bytes(&r->Ok_0) == bytes@,
        r is Err ==> rejected_bytes(&r->Err_0) == bytes@,
{
    NonEmptyVec::new(bytes)
}

/// `NonEmptyVec::into_vec`: the bytes of the vector, of which there is at
/// least one.
#[verifier::external_body]
pub(crate) fn non_empty_vec_into_vec(vec: NonEmptyVec<u8>) -> (r: Vec<u8>)
    ensures
        r@ == vec_bytes(&vec),
        r@.len() > 0,
{
    vec.into_vec()
}

/// `NonEmptyVec::as_non_empty_slice`: the bytes of the vector as a slice.
#[verifier::external_body]
pub(crate) fn non_empty_vec_as_slice(vec: &NonEmptyVec<u8>) -> (r: &NonEmptySlice<u8>)
    ensures
        slice_bytes(r) == vec_bytes(vec),
{
    vec.as_non_empty_slice()
}

/// `NonEmptySlice::from_boxed_slice`: the same bytes as a boxed non-empty
/// slice, or an `EmptyBoxedSlice` if there are none.
#[verifier::external_body]
pub(crate) fn non_empty_boxed_slice_from(bytes: Box<[u8]>) -> (r: Result<
    Box<NonEmptySlice<u8>>,
    EmptyBoxedSlice<u8>,
>)
    ensures
        r is Ok <==> bytes@.len() > 0,
        r is Ok ==> slice_bytes(&*r->Ok_0) == bytes@,
{
    NonEmptySlice::from_boxed_slice(bytes)
}

} // verus!
