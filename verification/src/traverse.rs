//! Fail-fast traversal: mapping a fallible resolver over a sequence yields
//! the mapped sequence, or the error of the first element the resolver
//! refuses. The conversion of every tree level is an instance of this one
//! scheme.

use vstd::prelude::*;
use crate::error::{GErr, PError, PResult};

verus! {

/// The converter accepts `a`: some call of it on `a` can return `Ok`.
pub open spec fn converts_ok<A, B, F: Fn(A) -> PResult<B>>(f: F, a: A) -> bool {
    exists|v: B| call_ensures(f, (a,), Ok::<B, PError>(v))
}

/// Maps a fallible converter over a vector, keeping the results in order and
/// stopping at the first element the converter refuses.
#[verifier::loop_isolation(false)]
pub fn convert_vec<A, B, F: Fn(A) -> PResult<B>>(src: Vec<A>, converter: &F) -> (r: PResult<
    Vec<B>,
>)
    requires
        forall|a: A| #[trigger] call_requires(*converter, (a,)),
    ensures
        match r {
            Ok(out) => {
                &&& out@.len() == src@.len()
                &&& forall|i: int|
                    0 <= i < src@.len() ==> #[trigger] call_ensures(
                        *converter,
                        (src@[i],),
                        Ok::<B, PError>(out@[i]),
                    )
            },
            Err(e) => exists|i: int|
                {
                    &&& 0 <= i < src@.len()
                    &&& #[trigger] call_ensures(*converter, (src@[i],), Err::<B, PError>(e))
                    &&& forall|j: int| 0 <= j < i ==> #[trigger] converts_ok(*converter, src@[j])
                },
        },
{
    let ghost orig = src@;
    let mut rest = src;
    let mut out: Vec<B> = Vec::new();
    while rest.len() > 0
        invariant
            out@.len() + rest@.len() == orig.len(),
            rest@ == orig.skip(out@.len() as int),
            forall|i: int|
                0 <= i < out@.len() ==> #[trigger] call_ensures(
                    *converter,
                    (orig[i],),
                    Ok::<B, PError>(out@[i]),
                ),
            forall|a: A| #[trigger] call_requires(*converter, (a,)),
        decreases rest@.len(),
    {
        let ghost k = out@.len() as int;
        let a = rest.remove(0);
        proof {
            assert(a == orig[k]);
            assert(rest@ =~= orig.skip(k + 1));
        }
        match (*converter)(a) {
            Ok(b) => out.push(b),
            Err(e) => {
                proof {
                    assert forall|j: int| 0 <= j < k implies #[trigger] converts_ok(
                        *converter,
                        orig[j],
                    ) by {
                        assert(call_ensures(*converter, (orig[j],), Ok::<B, PError>(out@[j])));
                    }
                    assert(0 <= k < orig.len());
                    assert(call_ensures(*converter, (orig[k],), Err::<B, PError>(e)));
                }
                return Err(e);
            },
        }
    }
    Ok(out)
}


/// The models of a sequence's elements.
pub open spec fn view_elems<A: View>(s: Seq<A>) -> Seq<<A as View>::V> {
    s.map_values(|a: A| a@)
}

/// A converter `cl` behaves as the model resolver `f`: every call's outcome
/// is the resolver's outcome on the argument's model.
pub open spec fn behaves_as<A: View, B: View, F: Fn(A) -> PResult<B>>(
    cl: F,
    f: spec_fn(<A as View>::V) -> Result<<B as View>::V, GErr>,
) -> bool {
    forall|a: A, rr: PResult<B>|
        #[trigger] call_ensures(cl, (a,), rr) ==> match f(a@) {
            Ok(gb) => rr matches Ok(b) && b@ == gb,
            Err(ge) => rr matches Err(pe) && pe@ == ge,
        }
}

/// Pointwise successes of a well-behaved converter give the mapped model.
pub proof fn lemma_pointwise_ok<A: View, B: View, F: Fn(A) -> PResult<B>>(
    cl: F,
    f: spec_fn(<A as View>::V) -> Result<<B as View>::V, GErr>,
    src: Seq<A>,
    out: Seq<B>,
)
    requires
        behaves_as(cl, f),
        out.len() == src.len(),
        forall|i: int|
            0 <= i < src.len() ==> #[trigger] call_ensures(cl, (src[i],), Ok::<B, PError>(out[i])),
    ensures
        sp_map_result(f, view_elems(src)) == Ok::<Seq<<B as View>::V>, GErr>(view_elems(out)),
{
    assert forall|i: int| 0 <= i < view_elems(src).len() implies (#[trigger] f(
        view_elems(src)[i],
    )) == Ok::<<B as View>::V, GErr>(view_elems(out)[i]) by {
        assert(call_ensures(cl, (src[i],), Ok::<B, PError>(out[i])));
        assert(view_elems(src)[i] == src[i]@);
        assert(view_elems(out)[i] == out[i]@);
    }
    lemma_map_result_ok(f, view_elems(src), view_elems(out));
}

/// All elements a well-behaved converter accepts map without error.
pub proof fn lemma_pointwise_all_ok<A: View, B: View, F: Fn(A) -> PResult<B>>(
    cl: F,
    f: spec_fn(<A as View>::V) -> Result<<B as View>::V, GErr>,
    src: Seq<A>,
)
    requires
        behaves_as(cl, f),
        forall|j: int| 0 <= j < src.len() ==> #[trigger] converts_ok(cl, src[j]),
    ensures
        sp_map_result(f, view_elems(src)) is Ok,
    decreases src.len(),
{
    if src.len() > 0 {
        assert(converts_ok(cl, src[0]));
        let v = choose|v: B| call_ensures(cl, (src[0],), Ok::<B, PError>(v));
        assert(f(src[0]@) is Ok);
        lemma_pointwise_all_ok(cl, f, src.drop_first());
        assert(view_elems(src).drop_first() =~= view_elems(src.drop_first()));
        assert(view_elems(src)[0] == src[0]@);
    }
}

/// A well-behaved converter's first failure is the mapped model's failure.
pub proof fn lemma_pointwise_err<A: View, B: View, F: Fn(A) -> PResult<B>>(
    cl: F,
    f: spec_fn(<A as View>::V) -> Result<<B as View>::V, GErr>,
    src: Seq<A>,
    e: PError,
)
    requires
        behaves_as(cl, f),
        exists|i: int|
            {
                &&& 0 <= i < src.len()
                &&& #[trigger] call_ensures(cl, (src[i],), Err::<B, PError>(e))
                &&& forall|j: int| 0 <= j < i ==> #[trigger] converts_ok(cl, src[j])
            },
    ensures
        sp_map_result(f, view_elems(src)) == Err::<Seq<<B as View>::V>, GErr>(e@),
{
    let i = choose|i: int|
        {
            &&& 0 <= i < src.len()
            &&& #[trigger] call_ensures(cl, (src[i],), Err::<B, PError>(e))
            &&& forall|j: int| 0 <= j < i ==> #[trigger] converts_ok(cl, src[j])
        };
    assert(view_elems(src)[i] == src[i]@);
    assert(f(src[i]@) == Err::<<B as View>::V, GErr>(e@));
    assert forall|j: int| 0 <= j < i implies (#[trigger] f(view_elems(src)[j])) is Ok by {
        assert(converts_ok(cl, src[j]));
        let v = choose|v: B| call_ensures(cl, (src[j],), Ok::<B, PError>(v));
        assert(view_elems(src)[j] == src[j]@);
    }
    lemma_map_result_err(f, view_elems(src), i, e@);
}

/// Maps `f` over `s`, stopping at the first error.
pub open spec fn sp_map_result<A, B>(
    f: spec_fn(A) -> Result<B, GErr>,
    s: Seq<A>,
) -> Result<Seq<B>, GErr>
    decreases s.len(),
{
    if s.len() == 0 {
        Ok(Seq::empty())
    } else {
        match f(s[0]) {
            Err(e) => Err(e),
            Ok(b) => match sp_map_result(f, s.drop_first()) {
                Err(e) => Err(e),
                Ok(bs) => Ok(seq![b] + bs),
            },
        }
    }
}

/// When `f` succeeds pointwise, the traversal succeeds with exactly the
/// pointwise results.
pub proof fn lemma_map_result_ok<A, B>(f: spec_fn(A) -> Result<B, GErr>, s: Seq<A>, out: Seq<B>)
    requires
        out.len() == s.len(),
        forall|i: int| 0 <= i < s.len() ==> (#[trigger] f(s[i])) == Ok::<B, GErr>(out[i]),
    ensures
        sp_map_result(f, s) == Ok::<Seq<B>, GErr>(out),
    decreases s.len(),
{
    if s.len() == 0 {
        assert(out =~= Seq::<B>::empty());
    } else {
        lemma_map_result_ok(f, s.drop_first(), out.drop_first());
        assert(out =~= seq![out[0]] + out.drop_first());
    }
}

/// When `f` fails first at index `i`, the traversal fails with that error.
pub proof fn lemma_map_result_err<A, B>(f: spec_fn(A) -> Result<B, GErr>, s: Seq<A>, i: int, e: GErr)
    requires
        0 <= i < s.len(),
        f(s[i]) == Err::<B, GErr>(e),
        forall|j: int| 0 <= j < i ==> (#[trigger] f(s[j])) is Ok,
    ensures
        sp_map_result(f, s) == Err::<Seq<B>, GErr>(e),
    decreases s.len(),
{
    if i > 0 {
        assert(f(s[0]) is Ok);
        lemma_map_result_err(f, s.drop_first(), i - 1, e);
    }
}

} // verus!
