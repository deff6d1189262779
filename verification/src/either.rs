//! A plain sum of two alternatives, used for the evaluator's outcome: either
//! a computed value or the set of dimensions still missing from the context.

use vstd::prelude::*;

use crate::domain::Domain;
use crate::value::Value;

verus! {

#[derive(Debug, PartialEq, Eq)]
pub enum Either<L, R> {
    Left(L),
    Right(R),
}

impl Either<Value, Domain> {
    /// Narrowing to the value alternative; callers must know the outcome is a
    /// value.
    pub fn expect_value(&self) -> (r: Value)
        requires
            self matches Either::Left(_),
        ensures
            *self == Either::<Value, Domain>::Left(r),
    {
        match self {
            Either::Left(v) => v.dup(),
            Either::Right(_) => {
                proof {
                    assert(false);
                }
                Value::Literal(crate::value::Literal::Bool(false))
            },
        }
    }

    pub fn dup(&self) -> (r: Either<Value, Domain>)
        ensures
            r == *self,
    {
        match self {
            Either::Left(v) => Either::Left(v.dup()),
            Either::Right(d) => Either::Right(d.dup()),
        }
    }
}

} // verus!
