use vstd::prelude::*;

use crate::error::Error;
use crate::pipe::{Duplicate, Pipe};

verus! {

/// Sequential composition: the first stage's output is the second's input.
pub struct ThenPipe<P1, P2> {
    pub(crate) first: P1,
    pub(crate) second: P2,
}

impl<P1, P2> ThenPipe<P1, P2> {
    pub(crate) fn new(first: P1, second: P2) -> (r: Self)
        ensures
            r.first() == first,
            r.second() == second,
    {
        ThenPipe { first, second }
    }

    /// The stage that runs first.
    pub closed spec fn first(&self) -> P1 {
        self.first
    }

    /// The stage that runs on the first one's output.
    pub closed spec fn second(&self) -> P2 {
        self.second
    }
}

impl<P1: Pipe, P2: Pipe<In = P1::Out>> Pipe for ThenPipe<P1, P2> {
    type In = P1::In;
    type Out = P2::Out;

    open spec fn produces(&self, i: P1::In, r: Result<P2::Out, Error>) -> bool {
        (exists|m: P1::Out| #[trigger]
            self.first().produces(i, Ok(m)) && self.second().produces(m, r)) || (exists|e: Error|
            #[trigger] self.first().produces(i, Err(e)) && r == Err::<P2::Out, Error>(e))
    }

    fn pipe(&self, i: P1::In) -> (r: Result<P2::Out, Error>) {
        match self.first.pipe(i) {
            Ok(m) => {
                let r = self.second.pipe(m);
                assert(self.first().produces(i, Ok(m)));
                r
            },
            Err(e) => {
                assert(self.first().produces(i, Err(e)));
                Err(e)
            },
        }
    }
}

/// Fan-out composition: a source stage runs once, and two stages each run
/// on their own copy of its output, the first before the second.
pub struct ZipPipe<P, P1, P2> {
    pub(crate) inner: P,
    pub(crate) first: P1,
    pub(crate) second: P2,
}

impl<P, P1, P2> ZipPipe<P, P1, P2> {
    pub(crate) fn new(inner: P, first: P1, second: P2) -> (r: Self)
        ensures
            r.source() == inner,
            r.first() == first,
            r.second() == second,
    {
        ZipPipe { inner, first, second }
    }

    /// The stage whose output is shared.
    pub closed spec fn source(&self) -> P {
        self.inner
    }

    /// The stage that yields the left half of the pair.
    pub closed spec fn first(&self) -> P1 {
        self.first
    }

    /// The stage that yields the right half of the pair.
    pub closed spec fn second(&self) -> P2 {
        self.second
    }
}

impl<P, P1, P2> ZipPipe<P, P1, P2> where
    P: Pipe,
    P1: Pipe<In = P::Out>,
    P2: Pipe<In = P::Out>,
 {
    /// Running both consumers on the one value `m` may yield `r`: the pair
    /// of their outputs, or the first consumer's error, or (when the first
    /// succeeds) the second consumer's error.
    pub open spec fn fan_out(&self, m: P::Out, r: Result<(P1::Out, P2::Out), Error>) -> bool {
        (exists|a: P1::Out, b: P2::Out| #[trigger]
            self.first().produces(m, Ok(a)) && #[trigger] self.second().produces(m, Ok(b)) && r
                == Ok::<(P1::Out, P2::Out), Error>((a, b))) || (exists|e: Error| #[trigger]
            self.first().produces(m, Err(e)) && r == Err::<(P1::Out, P2::Out), Error>(e)) || (
        exists|a: P1::Out, e: Error| #[trigger]
            self.first().produces(m, Ok(a)) && #[trigger] self.second().produces(m, Err(e)) && r
                == Err::<(P1::Out, P2::Out), Error>(e))
    }
}

impl<P, P1, P2> Pipe for ZipPipe<P, P1, P2> where
    P: Pipe,
    P::Out: Duplicate,
    P1: Pipe<In = P::Out>,
    P2: Pipe<In = P::Out>,
 {
    type In = P::In;
    type Out = (P1::Out, P2::Out);

    open spec fn produces(&self, i: P::In, r: Result<(P1::Out, P2::Out), Error>) -> bool {
        (exists|m: P::Out| #[trigger]
            self.source().produces(i, Ok(m)) && self.fan_out(m, r)) || (exists|e: Error|
                #[trigger] self.source().produces(i, Err(e)) && r == Err::<
                    (P1::Out, P2::Out),
                    Error,
                >(e))
    }

    fn pipe(&self, i: P::In) -> (r: Result<(P1::Out, P2::Out), Error>) {
        let o = match self.inner.pipe(i) {
            Ok(o) => o,
            Err(e) => {
                assert(self.source().produces(i, Err(e)));
                return Err(e);
            },
        };
        assert(self.source().produces(i, Ok(o)));
        let a = match self.first.pipe(o.duplicate()) {
            Ok(a) => a,
            Err(e) => {
                assert(self.first().produces(o, Err(e)));
                assert(self.fan_out(o, Err(e)));
                return Err(e);
            },
        };
        assert(self.first().produces(o, Ok(a)));
        let b = match self.second.pipe(o) {
            Ok(b) => b,
            Err(e) => {
                assert(self.second().produces(o, Err(e)));
                assert(self.fan_out(o, Err(e)));
                return Err(e);
            },
        };
        assert(self.second().produces(o, Ok(b)));
        assert(self.fan_out(o, Ok((a, b))));
        Ok((a, b))
    }
}

} // verus!
