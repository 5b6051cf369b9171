//! Componentwise addition and subtraction of vectors, each as an operator that
//! gives a new vector and as one that changes its left operand in place.
//!
//! What the sum or the difference of two elements is, and when it may be taken,
//! is the element type's own affair: the contracts here speak of it through
//! `add_spec`, `add_req`, `sub_spec` and `sub_req` of the element type.

use crate::vector::Vector;
use core::ops::Add;
use core::ops::AddAssign;
use core::ops::IndexMut;
use core::ops::Sub;
use core::ops::SubAssign;
use vstd::prelude::*;
use vstd::std_specs::ops::AddSpec;
use vstd::std_specs::ops::SubSpec;

verus! {

/// Says that at each position the element of `left` and that of `right` may be
/// added.
pub open spec fn addable<T: Add<Output = T>>(left: Seq<T>, right: Seq<T>) -> bool {
    forall|i: int| 0 <= i < left.len() ==> (#[trigger] left[i]).add_req(right[i])
}

/// Says that at each position the element of `right` may be subtracted from
/// that of `left`.
pub open spec fn subtractable<T: Sub<Output = T>>(left: Seq<T>, right: Seq<T>) -> bool {
    forall|i: int| 0 <= i < left.len() ==> (#[trigger] left[i]).sub_req(right[i])
}

/// The sums of the elements of `left` and `right`, position by position.
pub open spec fn sums<T: Add<Output = T>>(left: Seq<T>, right: Seq<T>) -> Seq<T> {
    Seq::new(left.len(), |i: int| left[i].add_spec(right[i]))
}

/// The differences of the elements of `left` and `right`, position by position.
pub open spec fn differences<T: Sub<Output = T>>(left: Seq<T>, right: Seq<T>) -> Seq<T> {
    Seq::new(left.len(), |i: int| left[i].sub_spec(right[i]))
}

impl<T: Copy + Add<Output = T>, const N: usize> vstd::std_specs::ops::AddSpecImpl for Vector<T, N> {
    /// The sum of two vectors is as well defined as the sum of two elements.
    open spec fn obeys_add_spec() -> bool {
        T::obeys_add_spec()
    }

    /// Two vectors may be added when the elements at each position may be.
    open spec fn add_req(self, rhs: Self) -> bool {
        addable(self@, rhs@)
    }

    /// The vector of the sums of the elements at each position.
    open spec fn add_spec(self, rhs: Self) -> Self {
        Vector::of(sums(self@, rhs@))
    }
}

impl<T: Copy + Sub<Output = T>, const N: usize> vstd::std_specs::ops::SubSpecImpl for Vector<T, N> {
    /// The difference of two vectors is as well defined as that of two elements.
    open spec fn obeys_sub_spec() -> bool {
        T::obeys_sub_spec()
    }

    /// Two vectors may be subtracted when the elements at each position may be.
    open spec fn sub_req(self, rhs: Self) -> bool {
        subtractable(self@, rhs@)
    }

    /// The vector of the differences of the elements at each position.
    open spec fn sub_spec(self, rhs: Self) -> Self {
        Vector::of(differences(self@, rhs@))
    }
}

impl<T: Copy + Add<Output = T>, const N: usize> Add for Vector<T, N> {
    type Output = Self;

    /// `self + rhs`: a new vector whose element at each position is the sum of
    /// the operands' elements at that position. The sums are taken from
    /// position 0 upwards.
    fn add(self, rhs: Self) -> (sum: Self)
        ensures
            sum@.len() == N,
            forall|i: int|
                0 <= i < N ==> call_ensures(T::add, (self@[i], rhs@[i]), #[trigger] sum@[i]),
            T::obeys_add_spec() ==> sum@ == sums(self@, rhs@),
    {
        let mut output = self;
        proof {
            self.lemma_len();
        }
        for index in 0..N
            invariant
                addable(self@, rhs@),
                self@.len() == N,
                output@.len() == N,
                forall|i: int| index <= i < N ==> output@[i] == self@[i],
                forall|i: int|
                    0 <= i < index ==> call_ensures(
                        T::add,
                        (self@[i], rhs@[i]),
                        #[trigger] output@[i],
                    ),
                T::obeys_add_spec() ==> forall|i: int|
                    0 <= i < index ==> output@[i] == self@[i].add_spec(rhs@[i]),
        {
            let element = output[index] + rhs[index];
            *output.index_mut(index) = element;
        }
        proof {
            if T::obeys_add_spec() {
                assert(output@ =~= sums(self@, rhs@));
                output.lemma_of_own();
            }
        }
        output
    }
}

impl<T: Copy + Add<Output = T>, const N: usize> AddAssign for Vector<T, N> {
    /// `self += rhs`: each element of `self` becomes the sum of what it was and
    /// the element of `rhs` at its position. The sums are taken from position 0
    /// upwards. The vector ends as `self + rhs` would have it.
    fn add_assign(&mut self, rhs: Self)
        requires
            old(self).add_req(rhs),
        ensures
            final(self)@.len() == N,
            forall|i: int|
                0 <= i < N ==> call_ensures(
                    T::add,
                    (old(self)@[i], rhs@[i]),
                    #[trigger] final(self)@[i],
                ),
            T::obeys_add_spec() ==> final(self)@ == sums(old(self)@, rhs@),
            T::obeys_add_spec() ==> *final(self) == old(self).add_spec(rhs),
    {
        proof {
            self.lemma_len();
        }
        for index in 0..N
            invariant
                addable(old(self)@, rhs@),
                old(self)@.len() == N,
                self@.len() == N,
                forall|i: int| index <= i < N ==> self@[i] == old(self)@[i],
                forall|i: int|
                    0 <= i < index ==> call_ensures(
                        T::add,
                        (old(self)@[i], rhs@[i]),
                        #[trigger] self@[i],
                    ),
                T::obeys_add_spec() ==> forall|i: int|
                    0 <= i < index ==> self@[i] == old(self)@[i].add_spec(rhs@[i]),
        {
            let element = self[index] + rhs[index];
            *self.index_mut(index) = element;
        }
        proof {
            if T::obeys_add_spec() {
                assert(self@ =~= sums(old(self)@, rhs@));
                self.lemma_of_own();
            }
        }
    }
}

impl<T: Copy + Sub<Output = T>, const N: usize> Sub for Vector<T, N> {
    type Output = Self;

    /// `self - rhs`: a new vector whose element at each position is the
    /// difference of the operands' elements at that position. The differences
    /// are taken from position 0 upwards.
    fn sub(self, rhs: Self) -> (difference: Self)
        ensures
            difference@.len() == N,
            forall|i: int|
                0 <= i < N ==> call_ensures(
                    T::sub,
                    (self@[i], rhs@[i]),
                    #[trigger] difference@[i],
                ),
            T::obeys_sub_spec() ==> difference@ == differences(self@, rhs@),
    {
        let mut output = self;
        proof {
            self.lemma_len();
        }
        for index in 0..N
            invariant
                subtractable(self@, rhs@),
                self@.len() == N,
                output@.len() == N,
                forall|i: int| index <= i < N ==> output@[i] == self@[i],
                forall|i: int|
                    0 <= i < index ==> call_ensures(
                        T::sub,
                        (self@[i], rhs@[i]),
                        #[trigger] output@[i],
                    ),
                T::obeys_sub_spec() ==> forall|i: int|
                    0 <= i < index ==> output@[i] == self@[i].sub_spec(rhs@[i]),
        {
            let element = output[index] - rhs[index];
            *output.index_mut(index) = element;
        }
        proof {
            if T::obeys_sub_spec() {
                assert(output@ =~= differences(self@, rhs@));
                output.lemma_of_own();
            }
        }
        output
    }
}

impl<T: Copy + Sub<Output = T>, const N: usize> SubAssign for Vector<T, N> {
    /// `self -= rhs`: each element of `self` becomes the difference of what it
    /// was and the element of `rhs` at its position. The differences are taken
    /// from position 0 upwards. The vector ends as `self - rhs` would have it.
    fn sub_assign(&mut self, rhs: Self)
        requires
            old(self).sub_req(rhs),
        ensures
            final(self)@.len() == N,
            forall|i: int|
                0 <= i < N ==> call_ensures(
                    T::sub,
                    (old(self)@[i], rhs@[i]),
                    #[trigger] final(self)@[i],
                ),
            T::obeys_sub_spec() ==> final(self)@ == differences(old(self)@, rhs@),
            T::obeys_sub_spec() ==> *final(self) == old(self).sub_spec(rhs),
    {
        proof {
            self.lemma_len();
        }
        for index in 0..N
            invariant
                subtractable(old(self)@, rhs@),
                old(self)@.len() == N,
                self@.len() == N,
                forall|i: int| index <= i < N ==> self@[i] == old(self)@[i],
                forall|i: int|
                    0 <= i < index ==> call_ensures(
                        T::sub,
                        (old(self)@[i], rhs@[i]),
                        #[trigger] self@[i],
                    ),
                T::obeys_sub_spec() ==> forall|i: int|
                    0 <= i < index ==> self@[i] == old(self)@[i].sub_spec(rhs@[i]),
        {
            let element = self[index] - rhs[index];
            *self.index_mut(index) = element;
        }
        proof {
            if T::obeys_sub_spec() {
                assert(self@ =~= differences(old(self)@, rhs@));
                self.lemma_of_own();
            }
        }
    }
}

/// Adding zeros changes nothing: `a + zeros` is `a`.
///
/// `zero` is a zero of the element type's addition, that is, `x + zero` may be
/// taken and is `x` for every element `x`; and every element of `zeros` is
/// `zero`.
pub proof fn lemma_add_zeros<T: Copy + Add<Output = T>, const N: usize>(
    a: Vector<T, N>,
    zeros: Vector<T, N>,
    zero: T,
)
    requires
        forall|x: T| x.add_req(zero) && #[trigger] x.add_spec(zero) == x,
        forall|i: int| 0 <= i < N ==> zeros@[i] == zero,
    ensures
        a.add_req(zeros),
        a.add_spec(zeros) == a,
{
    a.lemma_len();
    zeros.lemma_len();
    assert forall|i: int| 0 <= i < N implies (#[trigger] a@[i]).add_req(zeros@[i]) by {
        assert(a@[i].add_spec(zero) == a@[i]);
    }
    assert(sums(a@, zeros@) =~= a@);
    a.lemma_of_own();
}

/// Subtracting zeros changes nothing: `a - zeros` is `a`.
///
/// `zero` is a zero of the element type's subtraction, that is, `x - zero` may
/// be taken and is `x` for every element `x`; and every element of `zeros` is
/// `zero`.
pub proof fn lemma_sub_zeros<T: Copy + Sub<Output = T>, const N: usize>(
    a: Vector<T, N>,
    zeros: Vector<T, N>,
    zero: T,
)
    requires
        forall|x: T| x.sub_req(zero) && #[trigger] x.sub_spec(zero) == x,
        forall|i: int| 0 <= i < N ==> zeros@[i] == zero,
    ensures
        a.sub_req(zeros),
        a.sub_spec(zeros) == a,
{
    a.lemma_len();
    zeros.lemma_len();
    assert forall|i: int| 0 <= i < N implies (#[trigger] a@[i]).sub_req(zeros@[i]) by {
        assert(a@[i].sub_spec(zero) == a@[i]);
    }
    assert(differences(a@, zeros@) =~= a@);
    a.lemma_of_own();
}

/// Subtraction undoes addition: `(a + b) - b` is `a`.
///
/// `a + b` may be taken, and the element type's subtraction undoes its
/// addition: wherever `x + y` may be taken, `(x + y) - y` may be taken and is
/// `x`.
pub proof fn lemma_add_then_sub<T: Copy + Add<Output = T> + Sub<Output = T>, const N: usize>(
    a: Vector<T, N>,
    b: Vector<T, N>,
)
    requires
        a.add_req(b),
        forall|x: T, y: T|
            x.add_req(y) ==> (#[trigger] x.add_spec(y)).sub_req(y) && x.add_spec(y).sub_spec(y)
                == x,
    ensures
        a.add_spec(b).sub_req(b),
        a.add_spec(b).sub_spec(b) == a,
{
    a.lemma_len();
    b.lemma_len();
    let sum = a.add_spec(b);
    Vector::<T, N>::lemma_of(sums(a@, b@));
    assert forall|i: int| 0 <= i < N implies (#[trigger] sum@[i]).sub_req(b@[i]) && sum@[i].sub_spec(
        b@[i],
    ) == a@[i] by {
        assert(a@[i].add_req(b@[i]));
        assert(sum@[i] == a@[i].add_spec(b@[i]));
    }
    assert(differences(sum@, b@) =~= a@);
    a.lemma_of_own();
}

/// Addition of vectors commutes where addition of elements does: `a + b` is
/// `b + a`.
pub proof fn lemma_add_commutes<T: Copy + Add<Output = T>, const N: usize>(
    a: Vector<T, N>,
    b: Vector<T, N>,
)
    requires
        forall|x: T, y: T| #[trigger] x.add_spec(y) == y.add_spec(x),
    ensures
        a.add_spec(b) == b.add_spec(a),
{
    a.lemma_len();
    b.lemma_len();
    assert(sums(a@, b@) =~= sums(b@, a@));
}

} // verus!
