//! Owning handles to `N` heap slots of `T`.
use vstd::prelude::*;

verus! {

/// An array of exactly `N` values of `T` that lives on the heap and owns its
/// memory. Dropping it drops every element and frees the memory.
pub struct HeapArray<T, const N: usize> {
    items: Box<[T]>,
}

/// `N` heap slots of `T` of which the first few hold values and the others
/// are not initialized yet.
///
/// The memory for all `N` slots is reserved when the handle is made. Slots
/// are initialized in order: a write goes to a slot that already holds a
/// value, or to the first one that does not. Once all `N` hold values,
/// [`UninitArray::assume_init`] turns the handle into a [`HeapArray`].
pub struct UninitArray<T, const N: usize> {
    filled: Vec<T>,
}

impl<T, const N: usize> View for HeapArray<T, N> {
    type V = Seq<T>;

    closed spec fn view(&self) -> Seq<T> {
        self.items@
    }
}

impl<T, const N: usize> View for UninitArray<T, N> {
    type V = Seq<T>;

    /// The values of the initialized slots, in slot order.
    closed spec fn view(&self) -> Seq<T> {
        self.filled@
    }
}

/// What a write of `v` at slot `i` makes of the initialized slots `s`: the
/// value at `i` is replaced, or, where `i` is the first slot without a
/// value, `v` becomes its value.
pub open spec fn written<T>(s: Seq<T>, i: int, v: T) -> Seq<T> {
    if i < s.len() {
        s.update(i, v)
    } else {
        s.push(v)
    }
}

/// A write of `v` at slot `i`, where the slots before `i` hold values,
/// reads back as `v` at `i`, leaves every other initialized slot as it was,
/// and leaves `i + 1` slots initialized at least.
pub proof fn lemma_write_then_read<T>(s: Seq<T>, i: int, v: T)
    requires
        0 <= i <= s.len(),
    ensures
        written(s, i, v)[i] == v,
        forall|j: int| 0 <= j < s.len() && j != i ==> #[trigger] written(s, i, v)[j] == s[j],
        written(s, i, v).len() == if i < s.len() { s.len() } else { s.len() + 1 },
{
}

/// Relies on `Vec::into_boxed_slice`: the same elements, in the same order,
/// in a boxed slice of their exact length.
#[verifier::external_body]
fn boxed_slice_of<T>(v: Vec<T>) -> (r: Box<[T]>)
    ensures
        r@ == v@,
{
    v.into_boxed_slice()
}

/// Relies on `TryFrom<Box<[T]>> for Box<[T; N]>`: the conversion succeeds
/// exactly when the slice has `N` elements, keeps the allocation and its
/// elements, and otherwise hands the slice back.
#[verifier::external_body]
fn boxed_array_of<T, const N: usize>(b: Box<[T]>) -> (r: Result<Box<[T; N]>, Box<[T]>>)
    ensures
        r is Ok <==> b@.len() == N,
        r matches Ok(a) ==> a@ == b@,
        r matches Err(e) ==> e@ == b@,
{
    b.try_into()
}

impl<T, const N: usize> HeapArray<T, N> {
    #[verifier::type_invariant]
    closed spec fn inv(&self) -> bool {
        self.items@.len() == N
    }

    /// The number of elements: always `N`.
    pub fn len(&self) -> (r: usize)
        ensures
            r == N,
            self@.len() == N,
    {
        proof {
            use_type_invariant(self);
        }
        self.items.len()
    }

    /// The element at slot `i`.
    pub fn get(&self, i: usize) -> (r: &T)
        requires
            i < N,
        ensures
            *r == self@[i as int],
    {
        proof {
            use_type_invariant(self);
        }
        &self.items[i]
    }

    /// Replaces the element at slot `i` by `v`; every other slot keeps its
    /// element.
    pub fn set(&mut self, i: usize, v: T)
        requires
            i < N,
        ensures
            final(self)@ == old(self)@.update(i as int, v),
            final(self)@.len() == N,
    {
        proof {
            use_type_invariant(&*self);
        }
        self.items[i] = v;
    }

    /// The elements as a slice of length `N`.
    pub fn as_slice(&self) -> (r: &[T])
        ensures
            r@ == self@,
            r@.len() == N,
    {
        proof {
            use_type_invariant(self);
        }
        &self.items
    }

    /// Gives up the handle for the boxed array it manages, with the same
    /// elements in the same memory.
    pub fn into_boxed_array(self) -> (r: Box<[T; N]>)
        ensures
            r@ == self@,
    {
        proof {
            use_type_invariant(&self);
        }
        match boxed_array_of::<T, N>(self.items) {
            Ok(a) => a,
            Err(_) => unreached(),
        }
    }
}

impl<T, const N: usize> UninitArray<T, N> {
    /// A handle over `N` reserved slots of which none is initialized.
    ///
    /// The caller has checked that `N` elements of `T` fit the platform's
    /// largest allocation, so reserving them cannot fail on the layout.
    pub(crate) fn reserve() -> (r: Self)
        requires
            crate::layout::array_fits::<T>(N as nat),
        ensures
            r@.len() == 0,
    {
        UninitArray { filled: Vec::with_capacity(N) }
    }

    /// The number of slots that hold a value; they are the first ones.
    pub fn initialized(&self) -> (r: usize)
        ensures
            r == self@.len(),
    {
        self.filled.len()
    }

    /// Writes `v` to slot `i`, which either holds a value already (and
    /// loses it) or is the first slot that does not.
    pub fn write(&mut self, i: usize, v: T)
        requires
            i < N,
            i <= old(self)@.len(),
        ensures
            final(self)@ == written(old(self)@, i as int, v),
    {
        if i < self.filled.len() {
            self.filled[i] = v;
        } else {
            self.filled.push(v);
        }
    }

    /// The value at slot `i`, which must be initialized.
    pub fn get(&self, i: usize) -> (r: &T)
        requires
            i < self@.len(),
        ensures
            *r == self@[i as int],
    {
        &self.filled[i]
    }

    /// Turns a handle whose `N` slots all hold values into the array of
    /// those values.
    pub fn assume_init(self) -> (r: HeapArray<T, N>)
        requires
            self@.len() == N,
        ensures
            r@ == self@,
    {
        HeapArray { items: boxed_slice_of(self.filled) }
    }
}

} // verus!
