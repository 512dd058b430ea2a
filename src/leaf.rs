use vstd::prelude::*;

use crate::error::Error;
use crate::pipe::{Duplicate, Pipe};

verus! {

/// The stage that hands its input back unchanged and never fails.
#[derive(Default)]
pub struct IdPipe<T>(pub std::marker::PhantomData<T>);

impl<T> IdPipe<T> {
    pub fn new() -> (r: Self)
        ensures
            forall|i: T, o: Result<T, Error>| r.produces(i, o) <==> o == Ok::<T, Error>(i),
    {
        IdPipe(std::marker::PhantomData)
    }
}

impl<T> Pipe for IdPipe<T> {
    type In = T;
    type Out = T;

    open spec fn produces(&self, i: T, r: Result<T, Error>) -> bool {
        r == Ok::<T, Error>(i)
    }

    fn pipe(&self, i: T) -> (r: Result<T, Error>) {
        Ok(i)
    }
}

/// The stage that ignores its (empty) input and yields a copy of a fixed
/// value; it never fails.
#[derive(Clone)]
pub struct ConstPipe<T>(pub T);

impl<T: Duplicate> Pipe for ConstPipe<T> {
    type In = ();
    type Out = T;

    open spec fn produces(&self, i: (), r: Result<T, Error>) -> bool {
        r == Ok::<T, Error>(self.0)
    }

    fn pipe(&self, _i: ()) -> (r: Result<T, Error>) {
        Ok(self.0.duplicate())
    }
}

} // verus!
