//! The arithmetic operations: `sum` and in-place `scale`.
//!
//! Both are written once, generic over [`Element`], and carry exact
//! contracts: `sum` is the left-to-right wrapping fold seeded at the
//! type's additive identity, and `scale` replaces each element by its
//! wrapping product with the factor.

use crate::element::Element;
use vstd::prelude::*;

verus! {

/// The left-to-right fold of `+` over `s`, seeded at the type's
/// additive identity, wrapping at each step.
pub open spec fn sum_spec<T: Element>(s: Seq<T>) -> T
    decreases s.len(),
{
    if s.len() == 0 {
        T::zero_spec()
    } else {
        sum_spec(s.drop_last()).add_spec(s.last())
    }
}

/// The sum of an empty buffer is the element type's additive identity,
/// not an error.
pub proof fn lemma_sum_empty<T: Element>()
    ensures
        sum_spec::<T>(Seq::empty()) == T::zero_spec(),
{
}

/// Sum every element of the buffer, left to right, seeded at the
/// type's additive identity, wrapping on overflow.
pub fn sum<T: Element>(v: &Vec<T>) -> (r: T)
    ensures
        r == sum_spec(v@),
{
    let mut acc = T::zero();
    let mut j: usize = 0;
    while j < v.len()
        invariant
            j <= v.len(),
            acc == sum_spec(v@.take(j as int)),
        decreases v.len() - j,
    {
        acc = acc.add_wrap(v[j]);
        proof {
            assert(v@.take(j + 1 as int).drop_last() =~= v@.take(j as int));
            assert(v@.take(j + 1 as int).last() == v@[j as int]);
        }
        j += 1;
    }
    proof {
        assert(v@.take(v.len() as int) =~= v@);
    }
    acc
}

/// Scale the buffer in place: each element becomes its wrapping
/// product with `factor`. Mutates the buffer; no allocation.
pub fn scale<T: Element>(v: &mut Vec<T>, factor: T)
    ensures
        final(v).len() == old(v).len(),
        forall|i: int| 0 <= i < old(v).len() ==> final(v)@[i] == old(v)@[i].mul_spec(factor),
{
    let mut j: usize = 0;
    while j < v.len()
        invariant
            j <= v.len(),
            v.len() == old(v).len(),
            forall|i: int| 0 <= i < j ==> v@[i] == old(v)@[i].mul_spec(factor),
            forall|i: int| j <= i < v.len() ==> v@[i] == old(v)@[i],
        decreases v.len() - j,
    {
        let x = v[j];
        v[j] = x.mul_wrap(factor);
        j += 1;
    }
}

} // verus!
