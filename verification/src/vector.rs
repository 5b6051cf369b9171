//! The vector type itself: its model, how one is built, and how its elements are reached.

use core::ops::Index;
use core::ops::IndexMut;
use vstd::prelude::*;
use vstd::std_specs::cmp::PartialEqSpec;
use vstd::std_specs::convert::FromSpec;

verus! {

/// An ordered group of exactly `N` elements of type `T`.
///
/// The count is part of the type, so two vectors of different counts cannot be
/// combined, and it never changes while the value lives. A vector owns its
/// elements: a copy shares nothing with the value it was made from.
#[derive(Copy, Debug)]
pub struct Vector<T, const N: usize> {
    values: [T; N],
}

/// Says that a position lies outside a vector's range of positions.
#[derive(Clone, Copy, Debug, PartialEq, Eq, Structural)]
pub struct OutOfRange {
    /// The position that was asked for.
    pub index: usize,
    /// The number of elements of the vector; its positions are `0 .. count`.
    pub count: usize,
}

impl<T, const N: usize> View for Vector<T, N> {
    type V = Seq<T>;

    /// The elements in order: position 0 first, position `N - 1` last.
    closed spec fn view(&self) -> Seq<T> {
        self.values@
    }
}

impl<T, const N: usize> Vector<T, N> {
    /// The vector that holds the elements of `elements`, in their order.
    /// It says something only of a sequence of `N` elements.
    pub closed spec fn of(elements: Seq<T>) -> Self
        recommends
            elements.len() == N,
    {
        choose|vector: Self| vector@ == elements
    }

    /// A vector has exactly `N` elements.
    pub proof fn lemma_len(self)
        ensures
            self@.len() == N,
    {
    }

    /// Two vectors with the same elements are the same vector.
    pub proof fn lemma_same_elements(self, other: Self)
        requires
            self@ == other@,
        ensures
            self == other,
    {
        assert(self.values =~= other.values);
    }

    /// Every sequence of `N` elements is held by a vector, namely by `of` of it.
    pub proof fn lemma_of(elements: Seq<T>)
        requires
            elements.len() == N,
        ensures
            Self::of(elements)@ == elements,
    {
        let values = Self::array_holding(elements, N as nat);
        let witness = Vector { values };
        assert(witness@ =~= elements);
    }

    /// A vector is the one that `of` gives for its own elements.
    pub proof fn lemma_of_own(self)
        ensures
            Self::of(self@) == self,
    {
        Self::lemma_of(self@);
        self.lemma_same_elements(Self::of(self@));
    }

    /// An array whose first `count` elements are those of `elements`.
    proof fn array_holding(elements: Seq<T>, count: nat) -> (values: [T; N])
        requires
            count <= N,
            elements.len() == N,
        ensures
            forall|i: int| 0 <= i < count ==> values@[i] == elements[i],
        decreases count,
    {
        if count == 0 {
            arbitrary()
        } else {
            let shorter = Self::array_holding(elements, (count - 1) as nat);
            let last = count - 1;
            vstd::array::axiom_spec_array_update(shorter, last, elements[last]);
            vstd::array::spec_array_update(shorter, last, elements[last])
        }
    }
}

impl<T: Clone, const N: usize> Clone for Vector<T, N> {
    /// A copy holds, at each position, a clone of the element at that position.
    fn clone(&self) -> (copy: Self)
        ensures
            forall|i: int| 0 <= i < N ==> cloned::<T>(#[trigger] self@[i], copy@[i]),
    {
        Vector { values: self.values.clone() }
    }
}

impl<T: Copy, const N: usize> vstd::std_specs::convert::FromSpecImpl<[T; N]> for Vector<T, N> {
    open spec fn obeys_from_spec() -> bool {
        true
    }

    closed spec fn from_spec(values: [T; N]) -> Self {
        Vector { values }
    }
}

impl<T: Copy, const N: usize> From<[T; N]> for Vector<T, N> {
    /// Builds the vector whose element at each position is the array's element
    /// at that position.
    fn from(values: [T; N]) -> (vector: Self)
        ensures
            vector@ == values@,
    {
        Vector { values }
    }
}

impl<T, const N: usize> vstd::std_specs::core::IndexSpecImpl<usize> for Vector<T, N> {
    /// A position can be read when it lies in `0 .. N`.
    open spec fn index_req(&self, index: &usize) -> bool {
        *index < N
    }
}

impl<T, const N: usize> Index<usize> for Vector<T, N> {
    type Output = T;

    /// The element at position `index`.
    fn index(&self, index: usize) -> (element: &T)
        ensures
            *element == self@[index as int],
    {
        &self.values[index]
    }
}

impl<T, const N: usize> IndexMut<usize> for Vector<T, N> {
    /// A handle on the element at position `index`. What is written through it
    /// becomes that element; every other element stays as it was.
    fn index_mut(&mut self, index: usize) -> (element: &mut T)
        requires
            index < N,
        ensures
            *element == old(self)@[index as int],
            final(self)@ == old(self)@.update(index as int, *final(element)),
    {
        &mut self.values[index]
    }
}

impl<T, const N: usize> Vector<T, N> {
    /// Reads the element at position `index`, or reports that the position is
    /// outside `0 .. N`.
    pub fn get(&self, index: usize) -> (found: Result<&T, OutOfRange>)
        ensures
            index < N ==> found == Ok::<&T, OutOfRange>(&self@[index as int]),
            index >= N ==> found == Err::<&T, OutOfRange>((OutOfRange { index, count: N })),
    {
        if index < N {
            Ok(&self.values[index])
        } else {
            Err(OutOfRange { index, count: N })
        }
    }

    /// Replaces the element at position `index` by `value`, or reports that the
    /// position is outside `0 .. N` and leaves the vector as it was.
    pub fn set(&mut self, index: usize, value: T) -> (done: Result<(), OutOfRange>)
        ensures
            index < N ==> done == Ok::<(), OutOfRange>(()) && final(self)@ == old(self)@.update(
                index as int,
                value,
            ),
            index >= N ==> done == Err::<(), OutOfRange>((OutOfRange { index, count: N }))
                && *final(self) == *old(self),
    {
        if index < N {
            self.values[index] = value;
            Ok(())
        } else {
            Err(OutOfRange { index, count: N })
        }
    }
}

impl<T: PartialEq, const N: usize> vstd::std_specs::cmp::PartialEqSpecImpl for Vector<T, N> {
    /// Equality of vectors is as good as equality of their elements.
    open spec fn obeys_eq_spec() -> bool {
        T::obeys_eq_spec()
    }

    /// Two vectors are equal when the elements at each position are.
    open spec fn eq_spec(&self, other: &Self) -> bool {
        forall|i: int| 0 <= i < N ==> (#[trigger] self@[i]).eq_spec(&other@[i])
    }
}

impl<T: PartialEq, const N: usize> PartialEq for Vector<T, N> {
    /// Compares position by position, from the first on, up to the first pair of
    /// elements that are not equal. The vectors are equal when no such pair is
    /// found.
    fn eq(&self, other: &Self) -> (equal: bool)
        ensures
            equal ==> forall|i: int|
                0 <= i < N ==> call_ensures(T::eq, (&#[trigger] self@[i], &other@[i]), true),
            !equal ==> exists|i: int|
                0 <= i < N && call_ensures(T::eq, (&#[trigger] self@[i], &other@[i]), false),
    {
        for index in 0..N
            invariant
                forall|i: int|
                    0 <= i < index ==> call_ensures(
                        T::eq,
                        (&#[trigger] self@[i], &other@[i]),
                        true,
                    ),
                T::obeys_eq_spec() ==> forall|i: int|
                    0 <= i < index ==> (#[trigger] self@[i]).eq_spec(&other@[i]),
        {
            if !(self.values[index] == other.values[index]) {
                assert(call_ensures(T::eq, (&self@[index as int], &other@[index as int]), false));
                assert(T::obeys_eq_spec() ==> !self@[index as int].eq_spec(&other@[index as int]));
                return false;
            }
        }
        true
    }
}

/// Building a vector from an array and then reading a position gives the
/// array's element at that position.
pub proof fn lemma_from_then_read<T: Copy, const N: usize>(values: [T; N], i: int)
    requires
        0 <= i < N,
    ensures
        Vector::<T, N>::from_spec(values)@.len() == N,
        Vector::<T, N>::from_spec(values)@[i] == values@[i],
{
}

/// Where a clone of an element is always the same as the element, a clone of a
/// vector is the same as the vector.
pub proof fn lemma_clone_is_same<T: Clone, const N: usize>(a: Vector<T, N>, copy: Vector<T, N>)
    requires
        forall|x: T, y: T| #[trigger] cloned::<T>(x, y) ==> x == y,
        forall|i: int| 0 <= i < N ==> cloned::<T>(#[trigger] a@[i], copy@[i]),
    ensures
        copy == a,
{
    a.lemma_len();
    copy.lemma_len();
    assert(a@ =~= copy@);
    a.lemma_same_elements(copy);
}

/// Where two elements compare equal exactly when they are the same, two vectors
/// compare equal exactly when they are the same, that is, when they hold the
/// same elements in the same order.
pub proof fn lemma_equal_is_same<T: PartialEq, const N: usize>(a: Vector<T, N>, b: Vector<T, N>)
    requires
        forall|x: T, y: T| #[trigger] x.eq_spec(&y) <==> x == y,
    ensures
        a.eq_spec(&b) <==> a == b,
        a == b <==> a@ == b@,
{
    a.lemma_len();
    b.lemma_len();
    if a.eq_spec(&b) {
        assert forall|i: int| 0 <= i < N implies a@[i] == b@[i] by {
            assert(a@[i].eq_spec(&b@[i]));
        }
        assert(a@ =~= b@);
    }
    if a@ == b@ {
        a.lemma_same_elements(b);
    }
}

} // verus!
