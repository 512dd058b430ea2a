//! Laws of the composition algebra, stated over the stages' models.
use vstd::prelude::*;

use crate::chain::{steps_produce, DynPipe};
use crate::compose::{ThenPipe, ZipPipe};
use crate::error::Error;
use crate::leaf::IdPipe;
use crate::pipe::{Duplicate, Pipe};

verus! {

/// Identity law, right side: a stage followed by the identity stage may
/// yield exactly what the stage alone may yield.
pub proof fn lemma_then_identity_right<S: Pipe>(
    t: ThenPipe<S, IdPipe<S::Out>>,
    i: S::In,
    r: Result<S::Out, Error>,
)
    ensures
        t.produces(i, r) <==> t.first().produces(i, r),
{
    if t.first().produces(i, r) {
        match r {
            Ok(m) => assert(t.first().produces(i, Ok(m)) && t.second().produces(m, r)),
            Err(e) => assert(t.first().produces(i, Err(e))),
        }
    }
}

/// Identity law, left side: the identity stage followed by a stage may
/// yield exactly what the stage alone may yield.
pub proof fn lemma_then_identity_left<S: Pipe>(
    t: ThenPipe<IdPipe<S::In>, S>,
    i: S::In,
    r: Result<S::Out, Error>,
)
    ensures
        t.produces(i, r) <==> t.second().produces(i, r),
{
    if t.second().produces(i, r) {
        assert(t.first().produces(i, Ok(i)));
    }
}

/// When the first stage of a sequential composition can only fail, every
/// result of the composition is an error that the first stage itself
/// yields; the second stage plays no part.
pub proof fn lemma_then_failure_short_circuits<A: Pipe, B: Pipe<In = A::Out>>(
    t: ThenPipe<A, B>,
    i: A::In,
    r: Result<B::Out, Error>,
)
    requires
        forall|m: A::Out| !t.first().produces(i, Ok(m)),
    ensures
        t.produces(i, r) <==> (r is Err && t.first().produces(i, Err(r->Err_0))),
{
    if r is Err && t.first().produces(i, Err(r->Err_0)) {
        assert(t.first().produces(i, Err(r->Err_0)));
    }
}

/// Fan-out yields the pair `(a, b)` exactly when the source yields some
/// value `m` that the first consumer maps to `a` and the second, on that
/// same `m`, maps to `b`.
pub proof fn lemma_zip_pairs_shared_value<S, P1, P2>(
    z: ZipPipe<S, P1, P2>,
    i: S::In,
    a: P1::Out,
    b: P2::Out,
) where S: Pipe, S::Out: Duplicate, P1: Pipe<In = S::Out>, P2: Pipe<In = S::Out>
    ensures
        z.produces(i, Ok((a, b))) <==> exists|m: S::Out| #[trigger]
            z.source().produces(i, Ok(m)) && z.first().produces(m, Ok(a)) && z.second().produces(
                m,
                Ok(b),
            ),
{
    if z.produces(i, Ok((a, b))) {
        let m = choose|m: S::Out| #[trigger]
            z.source().produces(i, Ok(m)) && z.fan_out(m, Ok((a, b)));
        assert(z.first().produces(m, Ok(a)) && z.second().produces(m, Ok(b)));
    }
    if exists|m: S::Out| #[trigger]
        z.source().produces(i, Ok(m)) && z.first().produces(m, Ok(a)) && z.second().produces(
            m,
            Ok(b),
        ) {
        let m = choose|m: S::Out| #[trigger]
            z.source().produces(i, Ok(m)) && z.first().produces(m, Ok(a)) && z.second().produces(
                m,
                Ok(b),
            );
        assert(z.fan_out(m, Ok((a, b))));
    }
}

/// When the first consumer of a fan-out fails with `e` on the source's
/// value, the composition may fail with exactly `e`, whatever the second
/// consumer would do.
pub proof fn lemma_zip_first_failure_short_circuits<S, P1, P2>(
    z: ZipPipe<S, P1, P2>,
    i: S::In,
    m: S::Out,
    e: Error,
) where S: Pipe, S::Out: Duplicate, P1: Pipe<In = S::Out>, P2: Pipe<In = S::Out>
    requires
        z.source().produces(i, Ok(m)),
        z.first().produces(m, Err(e)),
    ensures
        z.produces(i, Err(e)),
{
    assert(z.fan_out(m, Err(e)));
}

/// A chain with no appended steps may yield exactly what its prefix may.
pub proof fn lemma_chain_no_steps<O, P: Pipe<Out = O>, S: Pipe<In = O, Out = O>>(
    d: DynPipe<O, P, S>,
    i: P::In,
    r: Result<O, Error>,
)
    requires
        d.steps().len() == 0,
    ensures
        d.produces(i, r) <==> d.prefix().produces(i, r),
{
    if d.prefix().produces(i, r) {
        match r {
            Ok(v) => assert(d.prefix().produces(i, Ok(v))),
            Err(e) => assert(d.prefix().produces(i, Err(e))),
        }
    }
}

/// Two chains with the same prefix and the same steps behave alike; in
/// particular, appending under a false guard changes nothing.
pub proof fn lemma_chain_guard_false<O, P: Pipe<Out = O>, S: Pipe<In = O, Out = O>>(
    d: DynPipe<O, P, S>,
    e: DynPipe<O, P, S>,
    i: P::In,
    r: Result<O, Error>,
)
    requires
        e.prefix() == d.prefix(),
        e.steps() == d.steps(),
    ensures
        e.produces(i, r) <==> d.produces(i, r),
{
}

/// Appending a step `s` under a true guard adds exactly one application of
/// `s`, after everything the chain did before; a failure before it is kept.
pub proof fn lemma_chain_guard_true<O, P: Pipe<Out = O>, S: Pipe<In = O, Out = O>>(
    d: DynPipe<O, P, S>,
    e: DynPipe<O, P, S>,
    s: S,
    i: P::In,
    r: Result<O, Error>,
)
    requires
        e.prefix() == d.prefix(),
        e.steps() == d.steps().push(s),
    ensures
        e.produces(i, r) <==> ((exists|w: O| #[trigger]
            d.produces(i, Ok(w)) && s.produces(w, r)) || (r is Err && d.produces(i, r))),
{
    assert(e.steps().drop_last() == d.steps());
    assert(e.steps().last() == s);
    if e.produces(i, r) {
        if exists|v: O| #[trigger]
            e.prefix().produces(i, Ok(v)) && steps_produce(e.steps(), v, r) {
            let v = choose|v: O| #[trigger]
                e.prefix().produces(i, Ok(v)) && steps_produce(e.steps(), v, r);
            if exists|w: O|
                steps_produce(d.steps(), v, Ok(w)) && #[trigger] s.produces(w, r) {
                let w = choose|w: O|
                    steps_produce(d.steps(), v, Ok(w)) && #[trigger] s.produces(w, r);
                assert(d.produces(i, Ok(w)));
            } else {
                assert(d.produces(i, r));
            }
        }
    }
    if exists|w: O| #[trigger] d.produces(i, Ok(w)) && s.produces(w, r) {
        let w = choose|w: O| #[trigger] d.produces(i, Ok(w)) && s.produces(w, r);
        let v = choose|v: O| #[trigger]
            d.prefix().produces(i, Ok(v)) && steps_produce(d.steps(), v, Ok(w));
        assert(steps_produce(e.steps(), v, r));
        assert(e.prefix().produces(i, Ok(v)));
    }
    if r is Err && d.produces(i, r) {
        if exists|v: O| #[trigger]
            d.prefix().produces(i, Ok(v)) && steps_produce(d.steps(), v, r) {
            let v = choose|v: O| #[trigger]
                d.prefix().produces(i, Ok(v)) && steps_produce(d.steps(), v, r);
            assert(steps_produce(e.steps(), v, r));
            assert(e.prefix().produces(i, Ok(v)));
        } else {
            assert(e.prefix().produces(i, Err(r->Err_0)));
        }
    }
}

/// Steps run in the order they were appended: a chain `e` that appends `b`
/// to a chain `c`, which appends `a` to `d`, feeds to `b` what `c` yields,
/// and `c` feeds to `a` what `d` yields.
pub proof fn lemma_chain_append_order<O, P: Pipe<Out = O>, S: Pipe<In = O, Out = O>>(
    d: DynPipe<O, P, S>,
    c: DynPipe<O, P, S>,
    e: DynPipe<O, P, S>,
    a: S,
    b: S,
    i: P::In,
    r: Result<O, Error>,
)
    requires
        c.prefix() == d.prefix(),
        c.steps() == d.steps().push(a),
        e.prefix() == c.prefix(),
        e.steps() == c.steps().push(b),
    ensures
        e.produces(i, r) <==> ((exists|w: O| #[trigger]
            c.produces(i, Ok(w)) && b.produces(w, r)) || (r is Err && c.produces(i, r))),
        c.produces(i, r) <==> ((exists|w: O| #[trigger]
            d.produces(i, Ok(w)) && a.produces(w, r)) || (r is Err && d.produces(i, r))),
{
    lemma_chain_guard_true(c, e, b, i, r);
    lemma_chain_guard_true(d, c, a, i, r);
}

} // verus!
