//! Waiting on the first of two futures to finish.
use vstd::prelude::*;

verus! {

/// One of two values.
#[derive(Debug, PartialEq, Eq)]
pub enum Either<L, R> {
    Left(L),
    Right(R),
}

/// Two futures raced against each other; the first one is polled first.
#[derive(Debug)]
pub struct Select<A, B> {
    a: A,
    b: B,
}

/// Races `a` against `b`.
pub fn select<A, B>(a: A, b: B) -> (r: Select<A, B>)
    ensures
        r.first() == a,
        r.second() == b,
{
    Select { a, b }
}

impl<A, B> Select<A, B> {
    pub closed spec fn first(&self) -> A {
        self.a
    }

    pub closed spec fn second(&self) -> B {
        self.b
    }

    /// Both futures, to be polled in place.
    pub fn parts_mut(&mut self) -> (r: (&mut A, &mut B))
        ensures
            *r.0 == old(self).first(),
            *r.1 == old(self).second(),
            final(self).first() == *final(r.0),
            final(self).second() == *final(r.1),
    {
        (&mut self.a, &mut self.b)
    }
}

/// What to do after polling the first future of a race.
#[derive(Debug, PartialEq, Eq)]
pub enum FirstPolled<L, R> {
    /// The race is won by the first future; the second is not polled.
    Ready(Either<L, R>),
    /// The first future is not ready: poll the second.
    PollSecond,
}

/// One poll of a race, after its first future was polled (`Some` where it gave
/// its output): the first future's output wins; otherwise the second future
/// is to be polled, and only then.
pub fn select_first_polled<L, R>(first: Option<L>) -> (r: FirstPolled<L, R>)
    ensures
        first matches Some(x) ==> r == FirstPolled::<L, R>::Ready(Either::Left(x)),
        first is None ==> r == FirstPolled::<L, R>::PollSecond,
{
    match first {
        Some(x) => FirstPolled::Ready(Either::Left(x)),
        None => FirstPolled::PollSecond,
    }
}

/// The end of a poll in which the first future was not ready and the second
/// was polled: its output, or nothing yet.
pub fn select_second_polled<L, R>(second: Option<R>) -> (r: Option<Either<L, R>>)
    ensures
        second matches Some(y) ==> r == Some(Either::<L, R>::Right(y)),
        second is None ==> r is None,
{
    match second {
        Some(y) => Some(Either::Right(y)),
        None => None,
    }
}

} // verus!
