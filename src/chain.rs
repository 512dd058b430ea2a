use vstd::prelude::*;

use crate::error::Error;
use crate::pipe::{Pipe, Stage};

verus! {

/// Applying `steps` in order to `v`, stopping at the first failure, may
/// yield `r`.
pub open spec fn steps_produce<T, S: Pipe<In = T, Out = T>>(
    steps: Seq<S>,
    v: T,
    r: Result<T, Error>,
) -> bool
    decreases steps.len(),
{
    if steps.len() == 0 {
        r == Ok::<T, Error>(v)
    } else {
        (exists|w: T|
            steps_produce(steps.drop_last(), v, Ok(w)) && #[trigger] steps.last().produces(w, r))
            || (r is Err && steps_produce(steps.drop_last(), v, r))
    }
}

/// A statically typed prefix stage followed by any number of steps from `O`
/// to `O`, chosen while the pipeline is assembled.
///
/// All steps share the type `S`. Steps of different concrete types stand
/// together with `S = Box<dyn Stage<O>>`.
pub struct DynPipe<O, P, S> {
    inner: P,
    next: Vec<S>,
    phantom: std::marker::PhantomData<O>,
}

impl<O, P, S> DynPipe<O, P, S> {
    /// The stage that runs first.
    pub closed spec fn prefix(&self) -> P {
        self.inner
    }

    /// The appended steps, in the order they run.
    pub closed spec fn steps(&self) -> Seq<S> {
        self.next@
    }

    pub(crate) fn from_prefix(p: P) -> (r: Self)
        ensures
            r.prefix() == p,
            r.steps().len() == 0,
    {
        DynPipe { inner: p, next: Vec::new(), phantom: std::marker::PhantomData }
    }

    /// Appends `pn` as the last step when `b` holds; otherwise leaves the
    /// chain as it is.
    pub fn if_then(self, b: bool, pn: S) -> (r: Self)
        ensures
            r.prefix() == self.prefix(),
            r.steps() == if b {
                self.steps().push(pn)
            } else {
                self.steps()
            },
    {
        let mut s = self;
        if b {
            s.next.push(pn);
        }
        s
    }
}

impl<O, P: Pipe<Out = O>, S: Pipe<In = O, Out = O>> Pipe for DynPipe<O, P, S> {
    type In = P::In;
    type Out = O;

    open spec fn produces(&self, i: P::In, r: Result<O, Error>) -> bool {
        (exists|v: O| #[trigger]
            self.prefix().produces(i, Ok(v)) && steps_produce(self.steps(), v, r)) || (exists|
            e: Error,
        | #[trigger] self.prefix().produces(i, Err(e)) && r == Err::<O, Error>(e))
    }

    fn pipe(&self, i: P::In) -> (r: Result<O, Error>) {
        let mut prev = match self.inner.pipe(i) {
            Ok(v) => v,
            Err(e) => {
                assert(self.prefix().produces(i, Err(e)));
                return Err(e);
            },
        };
        let ghost v0 = prev;
        assert(self.next@.take(0) == Seq::<S>::empty());
        let mut k: usize = 0;
        while k < self.next.len()
            invariant
                k <= self.next@.len(),
                self.inner.produces(i, Ok(v0)),
                steps_produce(self.next@.take(k as int), v0, Ok(prev)),
            decreases self.next.len() - k,
        {
            proof {
                assert(self.next@.take(k + 1).drop_last() == self.next@.take(k as int));
                assert(self.next@.take(k + 1).last() == self.next@[k as int]);
            }
            let ghost before = prev;
            prev = match self.next[k].pipe(prev) {
                Ok(v) => v,
                Err(e) => {
                    proof {
                        let t = self.next@.take(k + 1);
                        assert(steps_produce(t.drop_last(), v0, Ok(before)) && t.last().produces(
                            before,
                            Err(e),
                        ));
                        assert(steps_produce(t, v0, Err(e)));
                        lemma_failure_persists(self.next@, k + 1, v0, e);
                        assert(self.prefix().produces(i, Ok(v0)));
                    }
                    return Err(e);
                },
            };
            proof {
                let t = self.next@.take(k + 1);
                assert(steps_produce(t.drop_last(), v0, Ok(before)) && t.last().produces(
                    before,
                    Ok(prev),
                ));
                assert(steps_produce(t, v0, Ok(prev)));
            }
            k = k + 1;
        }
        assert(self.next@.take(k as int) == self.next@);
        assert(self.prefix().produces(i, Ok(v0)));
        Ok(prev)
    }
}

/// Once a prefix of the steps fails with `e`, the whole sequence may fail
/// with `e`.
proof fn lemma_failure_persists<T, S: Pipe<In = T, Out = T>>(
    steps: Seq<S>,
    n: int,
    v: T,
    e: Error,
)
    requires
        0 <= n <= steps.len(),
        steps_produce(steps.take(n), v, Err(e)),
    ensures
        steps_produce(steps, v, Err(e)),
    decreases steps.len() - n,
{
    if n < steps.len() {
        let t = steps.take(n + 1);
        assert(t.drop_last() == steps.take(n));
        assert(steps_produce(t.drop_last(), v, Err(e)));
        assert(steps_produce(t, v, Err(e)));
        lemma_failure_persists(steps, n + 1, v, e);
    } else {
        assert(steps.take(n) == steps);
    }
}

/// A step held through the [`Stage`] handle runs as the stage it holds.
impl<T> Pipe for Box<dyn Stage<T>> {
    type In = T;
    type Out = T;

    open spec fn produces(&self, i: T, r: Result<T, Error>) -> bool {
        (**self).yields(i, r)
    }

    fn pipe(&self, i: T) -> (r: Result<T, Error>) {
        (**self).step(i)
    }
}

} // verus!
