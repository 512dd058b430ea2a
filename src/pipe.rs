use vstd::prelude::*;

use crate::chain::DynPipe;
use crate::compose::{ThenPipe, ZipPipe};
use crate::error::Error;

verus! {

/// A typed, fallible, single-input/single-output transformation.
///
/// `produces(i, r)` says that running the stage on `i` may yield `r`;
/// `pipe` runs it and yields such an `r`. A stage holds no state that
/// changes between calls, so the same stage value may be run any number of
/// times.
pub trait Pipe {
    type In;
    type Out;

    /// Running the stage on `i` may yield `r`. A stage that states nothing
    /// more may yield anything.
    open spec fn produces(&self, i: Self::In, r: Result<Self::Out, Error>) -> bool {
        true
    }

    /// Runs the stage on `i`.
    fn pipe(&self, i: Self::In) -> (r: Result<Self::Out, Error>)
        ensures
            self.produces(i, r),
    ;
}

/// The ways of composing stages, available on every [`Pipe`].
pub trait Compose: Pipe + Sized {
    /// Sequential composition: `self` first, then `p` on its output.
    fn then<P2: Pipe<In = Self::Out>>(self, p: P2) -> (r: ThenPipe<Self, P2>)
        ensures
            r.first() == self,
            r.second() == p,
    ;

    /// Fan-out composition: `f1` and `f2` each receive a copy of
    /// `self`'s output, and their results are paired.
    fn zip<P1: Pipe<In = Self::Out>, P2: Pipe<In = Self::Out>>(self, f1: P1, f2: P2) -> (r:
        ZipPipe<Self, P1, P2>)
        ensures
            r.source() == self,
            r.first() == f1,
            r.second() == f2,
    ;

    /// Makes `self` the fixed prefix of a chain that has no steps yet.
    fn into_dyn<S>(self) -> (r: DynPipe<Self::Out, Self, S>)
        ensures
            r.prefix() == self,
            r.steps().len() == 0,
    ;
}

impl<P: Pipe> Compose for P {
    fn then<P2: Pipe<In = P::Out>>(self, p: P2) -> (r: ThenPipe<P, P2>) {
        ThenPipe::new(self, p)
    }

    fn zip<P1: Pipe<In = P::Out>, P2: Pipe<In = P::Out>>(self, f1: P1, f2: P2) -> (r: ZipPipe<
        P,
        P1,
        P2,
    >) {
        ZipPipe::new(self, f1, f2)
    }

    fn into_dyn<S>(self) -> (r: DynPipe<P::Out, P, S>) {
        DynPipe::from_prefix(self)
    }
}

/// A stage from `T` to `T`, reached through a single handle type so that
/// stages of different concrete types can stand in one sequence.
///
/// Every [`Pipe`] with equal input and output types is one.
pub trait Stage<T> {
    /// Applying the stage to `v` may yield `r`. A stage that states nothing
    /// more may yield anything.
    open spec fn yields(&self, v: T, r: Result<T, Error>) -> bool {
        true
    }

    /// Applies the stage to `v`.
    fn step(&self, v: T) -> (r: Result<T, Error>)
        ensures
            self.yields(v, r),
    ;
}

impl<T, P: Pipe<In = T, Out = T>> Stage<T> for P {
    open spec fn yields(&self, v: T, r: Result<T, Error>) -> bool {
        self.produces(v, r)
    }

    fn step(&self, v: T) -> (r: Result<T, Error>) {
        self.pipe(v)
    }
}

/// A value that can be copied exactly: the copy equals the original, so a
/// stage that receives it cannot tell it from the original, and nothing
/// done to one copy reaches another.
pub trait Duplicate: Sized {
    fn duplicate(&self) -> (r: Self)
        ensures
            r == *self,
    ;
}

impl Duplicate for () {
    fn duplicate(&self) -> (r: ()) {
        ()
    }
}

impl Duplicate for bool {
    fn duplicate(&self) -> (r: bool) {
        *self
    }
}

impl Duplicate for char {
    fn duplicate(&self) -> (r: char) {
        *self
    }
}

impl Duplicate for u8 {
    fn duplicate(&self) -> (r: u8) {
        *self
    }
}

impl Duplicate for u16 {
    fn duplicate(&self) -> (r: u16) {
        *self
    }
}

impl Duplicate for u32 {
    fn duplicate(&self) -> (r: u32) {
        *self
    }
}

impl Duplicate for u64 {
    fn duplicate(&self) -> (r: u64) {
        *self
    }
}

impl Duplicate for usize {
    fn duplicate(&self) -> (r: usize) {
        *self
    }
}

impl Duplicate for i8 {
    fn duplicate(&self) -> (r: i8) {
        *self
    }
}

impl Duplicate for i16 {
    fn duplicate(&self) -> (r: i16) {
        *self
    }
}

impl Duplicate for i32 {
    fn duplicate(&self) -> (r: i32) {
        *self
    }
}

impl Duplicate for i64 {
    fn duplicate(&self) -> (r: i64) {
        *self
    }
}

impl Duplicate for isize {
    fn duplicate(&self) -> (r: isize) {
        *self
    }
}

impl<'a> Duplicate for &'a str {
    fn duplicate(&self) -> (r: &'a str) {
        *self
    }
}

impl Duplicate for String {
    fn duplicate(&self) -> (r: String) {
        self.clone()
    }
}

impl<A: Duplicate, B: Duplicate> Duplicate for (A, B) {
    fn duplicate(&self) -> (r: (A, B)) {
        (self.0.duplicate(), self.1.duplicate())
    }
}

} // verus!
