//! The byte layout of `N` contiguous elements of a type.
use vstd::layout::size_of;
use vstd::prelude::*;

pub use std::alloc::LayoutError;

verus! {

/// Declares `std::alloc::Layout`, the (size, alignment) pair that
/// `Layout::array` returns; it is only carried, never looked into.
#[verifier::external_type_specification]
#[verifier::external_body]
pub struct ExLayout(std::alloc::Layout);

/// Declares `std::alloc::LayoutError`, the error of `Layout::array`, which
/// the allocation functions hand on unchanged.
#[verifier::external_type_specification]
#[verifier::external_body]
pub struct ExLayoutError(std::alloc::LayoutError);

/// `n` elements of `T` laid out one after another take no more than
/// `isize::MAX` bytes: the largest allocation the platform admits.
///
/// The size of a type is a multiple of its alignment, so no padding is
/// added to the product, and no rounding can push it past the limit.
pub open spec fn array_fits<T>(n: nat) -> bool {
    size_of::<T>() * n <= isize::MAX
}

/// Relies on `Layout::array`, documented to fail exactly on arithmetic
/// overflow or when the total size would exceed `isize::MAX`.
pub assume_specification<T>[ std::alloc::Layout::array::<T> ](n: usize) -> (r: Result<
    std::alloc::Layout,
    std::alloc::LayoutError,
>)
    ensures
        r is Ok <==> array_fits::<T>(n as nat),
;

} // verus!
