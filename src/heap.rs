//! Allocation of `[T; N]` on the heap: left uninitialized, filled with
//! clones of one value, or filled with default values.
use crate::array::{HeapArray, UninitArray};
use crate::layout::{array_fits, LayoutError};
use vstd::pervasive::strictly_cloned;
use vstd::prelude::*;

verus! {

/// Every element of `s` is a clone of `v`.
pub open spec fn all_cloned<T: Clone>(s: Seq<T>, v: T) -> bool {
    forall|i: int| 0 <= i < s.len() ==> cloned(v, #[trigger] s[i])
}

/// Every element of `s` is a value that `T::default` may return.
pub open spec fn all_default<T: Default>(s: Seq<T>) -> bool {
    forall|i: int| 0 <= i < s.len() ==> call_ensures(T::default, (), #[trigger] s[i])
}

/// Where cloning a `T` always gives a value equal to the original, an array
/// whose elements are all clones of `v` holds `v` in every slot, and after
/// the element at slot `i` is replaced by `x` every other slot still holds
/// `v`: the slots share nothing.
pub proof fn lemma_clones_equal_and_independent<T: Clone>(s: Seq<T>, v: T, i: int, x: T)
    requires
        all_cloned(s, v),
        forall|a: T, b: T| #[trigger] strictly_cloned(a, b) ==> a == b,
        0 <= i < s.len(),
    ensures
        forall|j: int| 0 <= j < s.len() ==> s[j] == v,
        forall|j: int| 0 <= j < s.len() && j != i ==> #[trigger] s.update(i, x)[j] == v,
        s.update(i, x)[i] == x,
{
    assert forall|j: int| 0 <= j < s.len() implies s[j] == v by {
        assert(cloned(v, s[j]));
    }
}

/// Reserves heap memory for `N` elements of `T` without initializing any.
///
/// The layout of `N` elements is computed first; where it does not exist
/// (its size would exceed `isize::MAX` bytes) the error is returned and no
/// memory is requested. If the allocator cannot provide the memory, the
/// process aborts, as for any other allocation. An empty array, or one of a
/// zero-sized type, needs no memory and is returned like any other.
pub fn new_uninit<T, const N: usize>() -> (r: Result<UninitArray<T, N>, LayoutError>)
    ensures
        r is Ok <==> array_fits::<T>(N as nat),
        r matches Ok(a) ==> a@.len() == 0,
{
    match std::alloc::Layout::array::<T>(N) {
        Ok(_) => Ok(UninitArray::reserve()),
        Err(e) => Err(e),
    }
}

/// Allocates `[T; N]` on the heap and sets each element, in slot order, to
/// a clone of `initial`.
///
/// Fails, without cloning, exactly where [`new_uninit`] fails.
pub fn new<T: Clone, const N: usize>(initial: &T) -> (r: Result<HeapArray<T, N>, LayoutError>)
    ensures
        r is Ok <==> array_fits::<T>(N as nat),
        r matches Ok(a) ==> a@.len() == N && all_cloned(a@, *initial),
{
    let mut slots = match new_uninit::<T, N>() {
        Ok(s) => s,
        Err(e) => return Err(e),
    };
    let mut i: usize = 0;
    while i < N
        invariant
            i <= N,
            slots@.len() == i,
            all_cloned(slots@, *initial),
        decreases N - i,
    {
        slots.write(i, initial.clone());
        i = i + 1;
    }
    Ok(slots.assume_init())
}

/// Allocates `[T; N]` on the heap and sets each element, in slot order, to
/// its own `T::default()`: the default is made once per slot, not cloned.
///
/// Fails exactly where [`new_uninit`] fails.
pub fn new_default<T: Default, const N: usize>() -> (r: Result<HeapArray<T, N>, LayoutError>)
    ensures
        r is Ok <==> array_fits::<T>(N as nat),
        r matches Ok(a) ==> a@.len() == N && all_default(a@),
{
    let mut slots = match new_uninit::<T, N>() {
        Ok(s) => s,
        Err(e) => return Err(e),
    };
    let mut i: usize = 0;
    while i < N
        invariant
            i <= N,
            slots@.len() == i,
            all_default(slots@),
        decreases N - i,
    {
        slots.write(i, T::default());
        i = i + 1;
    }
    Ok(slots.assume_init())
}

} // verus!
