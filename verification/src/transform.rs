//! The callback-bearing operations: `map`, `map_inplace`, `filter`,
//! and `reduce`.
//!
//! Each invokes a caller-supplied callable once per visited element, in
//! forward index order, and aborts the remaining iteration on the first
//! callable failure, propagating that failure unchanged. The callable
//! is opaque: the contracts speak of it only through `call_ensures`, so
//! whatever the host's callbacks do, the verified loops place their
//! results where the contracts say. Element values are handed to the
//! callable as copies or moves, never as live views into a buffer.

use crate::errors::OpError;
use vstd::prelude::*;

verus! {

/// Produce a new buffer in which element `i` is what the callable made
/// of source element `i`. Preserves length and order; the first
/// callable failure aborts the iteration and is returned unchanged.
pub fn map<A, F: Fn(&A) -> Result<A, OpError>>(elems: &Vec<A>, f: &F) -> (r: Result<
    Vec<A>,
    OpError,
>)
    requires
        forall|i: int| 0 <= i < elems.len() ==> call_requires(f, (&elems[i],)),
    ensures
        (r matches Ok(out) ==> {
            &&& out.len() == elems.len()
            &&& forall|i: int|
                0 <= i < elems.len() ==> call_ensures(
                    f,
                    (&elems[i],),
                    Ok(#[trigger] out[i]),
                )
        }),
        (r matches Err(e) ==> exists|i: int|
            0 <= i < elems.len() && #[trigger] call_ensures(f, (&elems[i],), Err(e))),
        elems.len() == 0 ==> r is Ok,
        (forall|x: (&A,), y: Result<A, OpError>| call_ensures(f, x, y) ==> y is Ok) ==> r is Ok,
{
    let mut out: Vec<A> = Vec::new();
    let mut j: usize = 0;
    while j < elems.len()
        invariant
            j <= elems.len(),
            out.len() == j,
            forall|i: int| 0 <= i < elems.len() ==> call_requires(f, (&elems[i],)),
            forall|i: int|
                0 <= i < j ==> call_ensures(f, (&elems[i],), Ok(#[trigger] out[i])),
        decreases elems.len() - j,
    {
        match f(&elems[j]) {
            Ok(y) => {
                out.push(y);
            },
            Err(e) => {
                return Err(e);
            },
        }
        j += 1;
    }
    Ok(out)
}

/// Replace each element of the buffer, in place, by what the callable
/// made of it. The first callable failure aborts the iteration and is
/// returned unchanged; the elements already visited keep their new
/// values, the rest keep their old ones. The buffer must not be
/// mutated reentrantly from within the callable.
pub fn map_inplace<A, F: Fn(&A) -> Result<A, OpError>>(v: &mut Vec<A>, f: &F) -> (r: Result<
    (),
    OpError,
>)
    requires
        forall|i: int| 0 <= i < old(v).len() ==> call_requires(f, (&old(v)[i],)),
    ensures
        final(v).len() == old(v).len(),
        (r is Ok ==> forall|i: int|
            0 <= i < old(v).len() ==> call_ensures(f, (&old(v)[i],), Ok(#[trigger] final(v)[i]))),
        (r matches Err(e) ==> exists|k: int|
            {
                &&& 0 <= k < old(v).len()
                &&& #[trigger] call_ensures(f, (&old(v)[k],), Err(e))
                &&& forall|i: int|
                    0 <= i < k ==> call_ensures(f, (&old(v)[i],), Ok(#[trigger] final(v)[i]))
                &&& forall|i: int| k <= i < old(v).len() ==> final(v)[i] == old(v)[i]
            }),
        old(v).len() == 0 ==> r is Ok,
        (forall|x: (&A,), y: Result<A, OpError>| call_ensures(f, x, y) ==> y is Ok) ==> r is Ok,
{
    let mut j: usize = 0;
    while j < v.len()
        invariant
            j <= v.len(),
            v.len() == old(v).len(),
            forall|i: int| 0 <= i < old(v).len() ==> call_requires(f, (&old(v)[i],)),
            forall|i: int| 0 <= i < j ==> call_ensures(f, (&old(v)[i],), Ok(#[trigger] v[i])),
            forall|i: int| j <= i < v.len() ==> v@[i] == old(v)@[i],
        decreases v.len() - j,
    {
        match f(&v[j]) {
            Ok(y) => {
                v[j] = y;
            },
            Err(e) => {
                return Err(e);
            },
        }
        j += 1;
    }
    Ok(())
}

/// The elements of `s` selected, in order, by the positions at which
/// `mask` holds.
pub open spec fn select_spec<A>(s: Seq<A>, mask: Seq<bool>) -> Seq<A>
    recommends
        s.len() == mask.len(),
    decreases s.len(),
{
    if s.len() == 0 {
        Seq::empty()
    } else if mask.last() {
        select_spec(s.drop_last(), mask.drop_last()).push(s.last())
    } else {
        select_spec(s.drop_last(), mask.drop_last())
    }
}

/// A selection never has more elements than its source.
pub proof fn lemma_select_spec_len<A>(s: Seq<A>, mask: Seq<bool>)
    ensures
        select_spec(s, mask).len() <= s.len(),
    decreases s.len(),
{
    if s.len() > 0 {
        lemma_select_spec_len(s.drop_last(), mask.drop_last());
    }
}

/// Produce a new buffer holding, in original relative order, exactly
/// those source elements the predicate accepted: the result is the
/// selection of the source by the mask of the predicate's verdicts.
/// The first predicate failure aborts the iteration and is returned
/// unchanged.
pub fn filter<A, F: Fn(&A) -> Result<bool, OpError>>(elems: Vec<A>, pred: &F) -> (r: Result<
    Vec<A>,
    OpError,
>)
    requires
        forall|i: int| 0 <= i < elems.len() ==> call_requires(pred, (&elems[i],)),
    ensures
        (r matches Ok(out) ==> {
            &&& out.len() <= elems.len()
            &&& exists|mask: Seq<bool>|
                {
                    &&& mask.len() == elems.len()
                    &&& out@ == select_spec(elems@, mask)
                    &&& forall|i: int|
                        0 <= i < elems.len() ==> call_ensures(
                            pred,
                            (&elems[i],),
                            Ok(#[trigger] mask[i]),
                        )
                }
        }),
        (r matches Err(e) ==> exists|i: int|
            0 <= i < elems.len() && #[trigger] call_ensures(pred, (&elems[i],), Err(e))),
        elems.len() == 0 ==> r is Ok,
        (forall|x: (&A,), y: Result<bool, OpError>| call_ensures(pred, x, y) ==> y is Ok) ==> r
            is Ok,
{
    let ghost all = elems@;
    let mut rest = elems;
    let mut out: Vec<A> = Vec::new();
    let ghost mut mask: Seq<bool> = Seq::empty();
    while rest.len() > 0
        invariant
            all == elems@,
            mask.len() <= all.len(),
            rest@ == all.skip(mask.len() as int),
            out@ == select_spec(all.take(mask.len() as int), mask),
            forall|i: int| 0 <= i < all.len() ==> call_requires(pred, (&all[i],)),
            forall|i: int|
                0 <= i < mask.len() ==> call_ensures(pred, (&all[i],), Ok(#[trigger] mask[i])),
        decreases rest.len(),
    {
        proof {
            assert(mask.len() < all.len());
            assert(all[mask.len() as int] == rest@[0]);
        }
        let x = rest.remove(0);
        let keep = match pred(&x) {
            Ok(b) => b,
            Err(e) => {
                proof {
                    let j = mask.len() as int;
                    assert(call_ensures(pred, (&all[j],), Err::<bool, OpError>(e)));
                }
                return Err(e);
            },
        };
        if keep {
            out.push(x);
        }
        proof {
            let j = mask.len() as int;
            let mask0 = mask;
            mask = mask.push(keep);
            assert(all.take(j + 1).drop_last() =~= all.take(j));
            assert(all.take(j + 1).last() == all[j]);
            assert(mask.drop_last() =~= mask0);
            assert(rest@ =~= all.skip(j + 1));
        }
    }
    proof {
        assert(all.take(mask.len() as int) =~= all);
        lemma_select_spec_len(all, mask);
    }
    Ok(out)
}

/// The sequence a left fold runs over: every element when a seed is
/// given, every element after the first when the first element itself
/// is the seed.
pub open spec fn fold_src<A>(elems: Seq<A>, initial: Option<A>) -> Seq<A> {
    if initial is Some {
        elems
    } else {
        elems.skip(1)
    }
}

/// The seed of a left fold: the given initial value, or else the first
/// element.
pub open spec fn fold_seed<A>(elems: Seq<A>, initial: Option<A>) -> A
    recommends
        initial is Some || elems.len() > 0,
{
    if initial is Some {
        initial->0
    } else {
        elems[0]
    }
}

/// `res` is a possible result of folding the callable left to right
/// over all of `s`, starting from `seed`: some chain of accumulator
/// values starts at `seed`, steps through one successful call per
/// element, and ends at `res`.
pub open spec fn fold_ok<A, F: Fn(A, A) -> Result<A, OpError>>(
    f: &F,
    seed: A,
    s: Seq<A>,
    res: A,
) -> bool {
    exists|accs: Seq<A>|
        {
            &&& #[trigger] accs.len() == s.len() + 1
            &&& accs[0] == seed
            &&& accs.last() == res
            &&& forall|k: int|
                0 <= k < s.len() ==> #[trigger] call_ensures(f, (accs[k], s[k]), Ok(accs[k + 1]))
        }
}

/// Folding the callable left to right over `s` from `seed` can abort
/// with `e`: some chain of successful calls reaches an element on which
/// the callable fails with `e`.
pub open spec fn fold_err<A, F: Fn(A, A) -> Result<A, OpError>>(
    f: &F,
    seed: A,
    s: Seq<A>,
    e: OpError,
) -> bool {
    exists|accs: Seq<A>|
        {
            &&& 1 <= #[trigger] accs.len() <= s.len()
            &&& accs[0] == seed
            &&& forall|k: int|
                0 <= k < accs.len() - 1 ==> #[trigger] call_ensures(
                    f,
                    (accs[k], s[k]),
                    Ok(accs[k + 1]),
                )
            &&& call_ensures(f, (accs.last(), s[accs.len() - 1]), Err::<A, OpError>(e))
        }
}

/// Fold the callable left to right over the buffer. With a seed value,
/// the fold starts there and visits every element; without one, the
/// first element is the seed and the fold visits the rest. An empty
/// buffer returns the seed unchanged, or fails with
/// [`OpError::EmptyReduceNoInitial`] when there is none. The first
/// callable failure aborts the iteration and is returned unchanged.
pub fn reduce<A, F: Fn(A, A) -> Result<A, OpError>>(
    elems: Vec<A>,
    f: &F,
    initial: Option<A>,
) -> (r: Result<A, OpError>)
    requires
        forall|acc: A, i: int|
            0 <= i < elems.len() ==> #[trigger] call_requires(f, (acc, elems[i])),
    ensures
        (elems.len() == 0 && initial is None ==> r == Err::<A, OpError>(
            OpError::EmptyReduceNoInitial,
        )),
        (elems.len() == 0 && initial is Some ==> r == Ok::<A, OpError>(initial->0)),
        (elems.len() == 1 && initial is None ==> r == Ok::<A, OpError>(elems[0])),
        ((elems.len() > 0 || initial is Some) ==> (r matches Ok(res) ==> fold_ok(
            f,
            fold_seed(elems@, initial),
            fold_src(elems@, initial),
            res,
        ))),
        ((elems.len() > 0 || initial is Some) && (forall|x: (A, A), y: Result<A, OpError>|
            call_ensures(f, x, y) ==> y is Ok) ==> r is Ok),
        ((elems.len() > 0 || initial is Some) ==> (r matches Err(e) ==> fold_err(
            f,
            fold_seed(elems@, initial),
            fold_src(elems@, initial),
            e,
        ))),
{
    let ghost all = elems@;
    let mut rest = elems;
    if rest.len() == 0 {
        match initial {
            Some(seed) => {
                proof {
                    let waccs = seq![seed];
                    assert(all =~= Seq::<A>::empty());
                    assert(waccs.len() == fold_src(all, Some(seed)).len() + 1);
                    assert(fold_ok(f, seed, fold_src(all, Some(seed)), seed));
                }
                return Ok(seed);
            },
            None => {
                return Err(OpError::EmptyReduceNoInitial);
            },
        }
    }
    let ghost s = fold_src(all, initial);
    let mut acc: A;
    match initial {
        Some(seed) => {
            acc = seed;
        },
        None => {
            acc = rest.remove(0);
        },
    }
    let ghost seed0 = acc;
    let ghost mut accs: Seq<A> = seq![seed0];
    proof {
        assert(seed0 == fold_seed(all, initial));
        assert(rest@ =~= s.skip(0));
        assert forall|a: A, i: int| 0 <= i < s.len() implies #[trigger] call_requires(
            f,
            (a, s[i]),
        ) by {
            if initial is Some {
                assert(s[i] == all[i]);
            } else {
                assert(s[i] == all[i + 1]);
            }
        };
    }
    while rest.len() > 0
        invariant
            all == elems@,
            all.len() > 0,
            s == fold_src(all, initial),
            seed0 == fold_seed(all, initial),
            1 <= accs.len() <= s.len() + 1,
            accs[0] == seed0,
            acc == accs.last(),
            rest@ == s.skip(accs.len() - 1),
            forall|a: A, i: int| 0 <= i < s.len() ==> #[trigger] call_requires(f, (a, s[i])),
            forall|k: int|
                0 <= k < accs.len() - 1 ==> #[trigger] call_ensures(
                    f,
                    (accs[k], s[k]),
                    Ok(accs[k + 1]),
                ),
        decreases rest.len(),
    {
        proof {
            assert(accs.len() - 1 < s.len());
            assert(s[accs.len() - 1] == rest@[0]);
        }
        let x = rest.remove(0);
        match f(acc, x) {
            Ok(a2) => {
                proof {
                    accs = accs.push(a2);
                    assert(rest@ =~= s.skip(accs.len() - 1));
                }
                acc = a2;
            },
            Err(e) => {
                proof {
                    assert(call_ensures(
                        f,
                        (accs.last(), s[accs.len() - 1]),
                        Err::<A, OpError>(e),
                    ));
                    assert(fold_err(f, seed0, s, e));
                }
                return Err(e);
            },
        }
    }
    proof {
        assert(accs.len() == s.len() + 1);
        assert(fold_ok(f, seed0, s, acc));
    }
    Ok(acc)
}

} // verus!
