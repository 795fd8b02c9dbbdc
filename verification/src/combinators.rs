//! Sequence combinators: map a function over a sequence, fold a
//! sequence strictly from the left, and materialize a sequence into a
//! vector. Each is usable on its own or as the function of a call
//! node. The combining functions may be nondeterministic in their
//! contracts, so the results are described by relations over every
//! value such a function may return.

use vstd::prelude::*;

verus! {

/// Holds when `t` is an elementwise image of `s` under `f`, in order:
/// the two have the same length and the element of `t` at each
/// position is a possible result of `f` on the element of `s` there.
pub open spec fn maps_to<E, R, F: Fn(E) -> R>(f: F, s: Seq<E>, t: Seq<R>) -> bool {
    &&& t.len() == s.len()
    &&& forall|k: int| 0 <= k < s.len() ==> call_ensures(f, (s[k],), #[trigger] t[k])
}

/// Every element of `s` may be passed to `f`.
pub open spec fn map_calls_ok<E, R, F: Fn(E) -> R>(f: F, s: Seq<E>) -> bool {
    forall|k: int| 0 <= k < s.len() ==> call_requires(f, (#[trigger] s[k],))
}

/// Holds when `accs` traces the accumulators of a strict left fold of
/// `f` over `s`: it starts with the initial accumulator, and each
/// later entry is a possible result of combining the entry before it
/// with the element of `s` at that position.
pub open spec fn fold_trace<E, R, F: Fn(R, E) -> R>(f: F, s: Seq<E>, accs: Seq<R>) -> bool {
    &&& accs.len() == s.len() + 1
    &&& forall|k: int| 0 <= k < s.len() ==> call_ensures(f, (accs[k], s[k]), #[trigger] accs[k + 1])
}

/// Holds when `r` is a possible strict left fold of `f` over `s`
/// starting from `init`: some trace of accumulators leads from `init`
/// through every element of `s`, in order, first element first, and
/// ends at `r`.
pub open spec fn folds<E, R, F: Fn(R, E) -> R>(f: F, init: R, s: Seq<E>, r: R) -> bool {
    exists|accs: Seq<R>|
        {
            &&& #[trigger] fold_trace(f, s, accs)
            &&& accs.first() == init
            &&& accs.last() == r
        }
}

/// Every call a strict left fold of `f` over `s` from `init` may make
/// is permitted: whenever a trace of accumulators from `init` covers
/// the first `k` elements, its last accumulator may be combined with
/// the element at position `k`.
pub open spec fn fold_calls_ok<E, R, F: Fn(R, E) -> R>(f: F, init: R, s: Seq<E>) -> bool {
    forall|k: int, accs: Seq<R>|
        0 <= k < s.len() && #[trigger] fold_trace(f, s.take(k), accs) && accs.first() == init
            ==> call_requires(f, (accs.last(), s[k]))
}

/// Apply `f` to each element of a sequence, in order, producing the
/// sequence of results.
pub fn map<E, R, F: Fn(E) -> R>(f: F, i: Vec<E>) -> (r: Vec<R>)
    requires
        map_calls_ok(f, i@),
    ensures
        maps_to(f, i@, r@),
{
    let ghost orig = i@;
    let mut rest = i;
    let mut out: Vec<R> = Vec::new();
    while rest.len() > 0
        invariant
            map_calls_ok(f, orig),
            out@.len() + rest@.len() == orig.len(),
            rest@ == orig.subrange(out@.len() as int, orig.len() as int),
            forall|k: int| 0 <= k < out@.len() ==> call_ensures(f, (orig[k],), #[trigger] out@[k]),
        decreases rest.len(),
    {
        let ghost done = out@.len() as int;
        let x = rest.remove(0);
        proof {
            assert(x == orig[done]);
            assert(rest@ =~= orig.subrange(done + 1, orig.len() as int));
        }
        let y = f(x);
        out.push(y);
    }
    out
}

/// Fold a sequence strictly from the left: combine `init` with the
/// first element, the result with the second, and so on through the
/// last, returning the final accumulator.
pub fn reduce<E, R, F: Fn(R, E) -> R>(init: R, f: F, i: Vec<E>) -> (r: R)
    requires
        fold_calls_ok(f, init, i@),
    ensures
        folds(f, init, i@, r),
{
    let ghost g_init = init;
    let ghost orig = i@;
    let ghost mut trace = Seq::<R>::empty().push(init);
    let mut acc = init;
    let mut rest = i;
    proof {
        assert(orig.take(0) =~= Seq::<E>::empty());
    }
    while rest.len() > 0
        invariant
            fold_calls_ok(f, g_init, orig),
            rest@.len() <= orig.len(),
            rest@ == orig.subrange(orig.len() - rest@.len(), orig.len() as int),
            trace.len() == orig.len() - rest@.len() + 1,
            fold_trace(f, orig.take(orig.len() - rest@.len()), trace),
            trace.first() == g_init,
            trace.last() == acc,
        decreases rest.len(),
    {
        let ghost done = (orig.len() - rest@.len()) as int;
        let ghost prev_trace = trace;
        let x = rest.remove(0);
        proof {
            assert(x == orig[done]);
            assert(rest@ =~= orig.subrange(done + 1, orig.len() as int));
            assert(call_requires(f, (trace.last(), orig[done])));
        }
        let next = f(acc, x);
        proof {
            trace = trace.push(next);
            assert(orig.take(done + 1) =~= orig.take(done).push(orig[done]));
            assert forall|k: int| 0 <= k < done + 1 implies call_ensures(
                f,
                (trace[k], orig.take(done + 1)[k]),
                #[trigger] trace[k + 1],
            ) by {
                if k < done {
                    assert(trace[k] == prev_trace[k]);
                    assert(trace[k + 1] == prev_trace[k + 1]);
                    assert(call_ensures(f, (prev_trace[k], orig.take(done)[k]), prev_trace[k + 1]));
                } else {
                    assert(trace[k] == prev_trace.last());
                }
            }
            assert(fold_trace(f, orig.take(done + 1), trace));
        }
        acc = next;
    }
    proof {
        assert(orig.take(orig.len() as int) =~= orig);
        assert(fold_trace(f, orig, trace));
    }
    acc
}

/// Materialize a sequence into an ordered, indexable vector, keeping
/// every element in its place.
pub fn to_vec<E>(i: Vec<E>) -> (r: Vec<E>)
    ensures
        r@ == i@,
{
    i
}

/// A combining function that may always be called may fold any
/// sequence from any start: the calls a fold makes then need no
/// further justification.
pub proof fn lemma_fold_calls_ok_total<E, R, F: Fn(R, E) -> R>(f: F, init: R, s: Seq<E>)
    requires
        forall|a: R, x: E| call_requires(f, (a, x)),
    ensures
        fold_calls_ok(f, init, s),
{
}

/// Materializing a mapped sequence gives the elementwise image: when
/// `mapped` is an image of `xs` under `f` and materializing keeps the
/// sequence as it is, the materialized sequence is that same image.
pub proof fn lemma_to_vec_of_map<E, R, F: Fn(E) -> R>(
    f: F,
    xs: Seq<E>,
    mapped: Seq<R>,
    materialized: Seq<R>,
)
    requires
        maps_to(f, xs, mapped),
        materialized == mapped,
    ensures
        maps_to(f, xs, materialized),
{
}

/// When every result of `f` agrees with the pure function `g`, an
/// elementwise image under `f` is exactly the sequence of the values
/// of `g`, in order: the ordered sequence of `g` applied to each
/// element.
pub proof fn lemma_maps_to_is_map<E, R, F: Fn(E) -> R>(
    f: F,
    g: spec_fn(E) -> R,
    s: Seq<E>,
    t: Seq<R>,
)
    requires
        maps_to(f, s, t),
        forall|x: E, y: R| call_ensures(f, (x,), y) ==> y == g(x),
    ensures
        t == s.map_values(g),
{
    assert forall|k: int| 0 <= k < s.len() implies t[k] == g(s[k]) by {
        assert(call_ensures(f, (s[k],), t[k]));
    }
    assert(t =~= s.map_values(g));
}

/// When every result of `f` agrees with the pure function `g`, a
/// strict left fold of `f` is the iterative left fold of `g`:
/// combining from the first element to the last.
pub proof fn lemma_folds_is_fold_left<E, R, F: Fn(R, E) -> R>(
    f: F,
    g: spec_fn(R, E) -> R,
    init: R,
    s: Seq<E>,
    r: R,
)
    requires
        folds(f, init, s, r),
        forall|a: R, x: E, b: R| call_ensures(f, (a, x), b) ==> b == g(a, x),
    ensures
        r == s.fold_left(init, g),
    decreases s.len(),
{
    let accs = choose|accs: Seq<R>|
        {
            &&& #[trigger] fold_trace(f, s, accs)
            &&& accs.first() == init
            &&& accs.last() == r
        };
    if s.len() == 0 {
        assert(accs.first() == accs.last());
    } else {
        let n = s.len() as int;
        let short = accs.drop_last();
        assert forall|k: int| 0 <= k < n - 1 implies call_ensures(
            f,
            (short[k], s.drop_last()[k]),
            #[trigger] short[k + 1],
        ) by {
            assert(short[k] == accs[k]);
            assert(short[k + 1] == accs[k + 1]);
            assert(call_ensures(f, (accs[k], s[k]), accs[k + 1]));
        }
        assert(fold_trace(f, s.drop_last(), short));
        assert(short.last() == accs[n - 1]);
        assert(folds(f, init, s.drop_last(), accs[n - 1]));
        lemma_folds_is_fold_left(f, g, init, s.drop_last(), accs[n - 1]);
        assert(call_ensures(f, (accs[n - 1], s[n - 1]), accs[n]));
        assert(accs[n] == g(accs[n - 1], s.last()));
    }
}

} // verus!
