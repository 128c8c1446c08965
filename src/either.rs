use vstd::prelude::*;
use vstd::std_specs::convert::IntoSpec;

verus! {

/// One of two values.
#[derive(Clone, Debug, PartialEq, Eq)]
pub enum Either<L, R> {
    /// The first kind of value.
    Left(L),
    /// The second kind of value.
    Right(R),
}

impl<L, R> Either<L, R> {
    /// A left value, converted with `Into`.
    pub fn l<A: Into<L>>(a: A) -> (r: Self)
        ensures
            r is Left,
            <A as IntoSpec<L>>::obeys_into_spec() ==> r == Either::<L, R>::Left(a.into_spec()),
    {
        Either::Left(a.into())
    }

    /// A right value, converted with `Into`.
    pub fn r<B: Into<R>>(b: B) -> (r: Self)
        ensures
            r is Right,
            <B as IntoSpec<R>>::obeys_into_spec() ==> r == Either::<L, R>::Right(b.into_spec()),
    {
        Either::Right(b.into())
    }
}

impl<T> Either<T, T> {
    /// The value, whichever side it is on.
    pub fn one_type(self) -> (r: T)
        ensures
            r == match self {
                Either::Left(l) => l,
                Either::Right(v) => v,
            },
    {
        match self {
            Either::Left(l) => l,
            Either::Right(v) => v,
        }
    }
}

} // verus!
