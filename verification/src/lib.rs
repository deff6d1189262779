//! A demand-driven evaluator for a small intensional programming language.
//!
//! A program is an expression whose value depends on a multidimensional
//! context: a finite map from dimensions to ordinal values. Expressions can
//! query the current context, perturb it, capture a restricted context inside
//! an intension, abstract over base and value parameters, and introduce local
//! dimensions that are freshened per activation. Evaluation either produces a
//! value or reports the set of dimensions that are still missing from the
//! context, and a memoization cache keyed by restricted contexts makes
//! recursive stream-style programs terminate.

pub mod cache;
pub mod context;
pub mod desugar;
pub mod domain;
pub mod either;
pub mod environment;
pub mod evaluator;
pub mod expression;
pub mod l1;
pub mod laws;
pub mod name;
pub mod value;

use vstd::prelude::*;

use crate::cache::Cache;
use crate::context::Context;
use crate::desugar::{desugar_spec, DimMap, DimMapList, NameSet, NameList};
use crate::domain::Domain;
use crate::either::Either;
use crate::environment::{DefList, Environment};
use crate::evaluator::{eval_spec, Error};
use crate::expression::Expression;
use crate::l1::L1Expression;
use crate::name::Name;
use crate::value::{Dimension, DimList, Literal, Value};

verus! {

/// The one-byte name `b`.
pub open spec fn nm1(b: u8) -> Name {
    Name::Ch(b, Box::new(Name::Nil))
}

/// The two-byte name `a b`.
pub open spec fn nm2(a: u8, b: u8) -> Name {
    Name::Ch(a, Box::new(Name::Ch(b, Box::new(Name::Nil))))
}

fn name1(b: u8) -> (r: Name)
    ensures
        r == nm1(b),
{
    Name::Ch(b, Box::new(Name::Nil))
}

fn name2(a: u8, b: u8) -> (r: Name)
    ensures
        r == nm2(a, b),
{
    Name::Ch(a, Box::new(Name::Ch(b, Box::new(Name::Nil))))
}

/// The environment of primitive operator bindings the driver starts from:
/// `#` `@` `==` `/=` `%` `^` `/` `*` `+` `-` `<` `<=` `>` `>=`, each bound to
/// an operator token. Two bindings are deliberately skewed and kept for
/// compatibility with the language's established behaviour: `/=` is bound to
/// the `%` token and `<` to the `>=` token.
pub open spec fn spec_seed_environment() -> Environment {
    Environment(DefList::Nil).spec_define(nm1(35), Expression::Operator(nm1(35))).spec_define(
        nm1(64),
        Expression::Operator(nm1(64)),
    ).spec_define(nm2(61, 61), Expression::Operator(nm2(61, 61))).spec_define(
        nm2(47, 61),
        Expression::Operator(nm1(37)),
    ).spec_define(nm1(37), Expression::Operator(nm1(37))).spec_define(
        nm1(94),
        Expression::Operator(nm1(94)),
    ).spec_define(nm1(47), Expression::Operator(nm1(47))).spec_define(
        nm1(42),
        Expression::Operator(nm1(42)),
    ).spec_define(nm1(43), Expression::Operator(nm1(43))).spec_define(
        nm1(45),
        Expression::Operator(nm1(45)),
    ).spec_define(nm1(60), Expression::Operator(nm2(62, 61))).spec_define(
        nm2(60, 61),
        Expression::Operator(nm2(60, 61)),
    ).spec_define(nm1(62), Expression::Operator(nm1(62))).spec_define(
        nm2(62, 61),
        Expression::Operator(nm2(62, 61)),
    )
}

fn seed_environment() -> (e: Environment)
    ensures
        e == spec_seed_environment(),
{
    let mut e = Environment::new();
    e.define(name1(35), Expression::Operator(name1(35)));
    e.define(name1(64), Expression::Operator(name1(64)));
    e.define(name2(61, 61), Expression::Operator(name2(61, 61)));
    e.define(name2(47, 61), Expression::Operator(name1(37)));
    e.define(name1(37), Expression::Operator(name1(37)));
    e.define(name1(94), Expression::Operator(name1(94)));
    e.define(name1(47), Expression::Operator(name1(47)));
    e.define(name1(42), Expression::Operator(name1(42)));
    e.define(name1(43), Expression::Operator(name1(43)));
    e.define(name1(45), Expression::Operator(name1(45)));
    e.define(name1(60), Expression::Operator(name2(62, 61)));
    e.define(name2(60, 61), Expression::Operator(name2(60, 61)));
    e.define(name1(62), Expression::Operator(name1(62)));
    e.define(name2(62, 61), Expression::Operator(name2(62, 61)));
    e
}

/// Every quantifier dimension bound to the ordinal 0 in the context and
/// declared in the domain, in collection order.
pub open spec fn spec_push_qdims(list: DimList, k: Context, d: Domain) -> (Context, Domain)
    decreases list,
{
    match list {
        DimList::Nil => (k, d),
        DimList::Cons(h, t) => spec_push_qdims(
            *t,
            k.spec_push(*h, Value::Literal(Literal::Int32(0))),
            d.spec_push(*h),
        ),
    }
}

fn push_qdims(list: &DimList, k: Context, d: Domain) -> (r: (Context, Domain))
    ensures
        r == spec_push_qdims(*list, k, d),
    decreases *list,
{
    match list {
        DimList::Nil => (k, d),
        DimList::Cons(h, t) => {
            let mut k2 = k;
            k2.push(h.dup(), Value::Literal(Literal::Int32(0)));
            let mut d2 = d;
            d2.push(h.dup());
            push_qdims(t, k2, d2)
        },
    }
}

/// What a whole run returns: the surface tree is desugared with fresh state,
/// the quantifier dimensions are bound to 0 in the starting context and
/// domain, and the resulting L0 tree is evaluated under the seeded operator
/// environment, a fresh cache, and the given fuel.
pub open spec fn driver_spec(expr: L1Expression, fuel: nat) -> Result<
    Either<Value, Domain>,
    Error,
> {
    let ds = desugar_spec(
        expr,
        DimMap(DimMapList::Nil),
        NameSet(NameList::Nil),
        0,
        Domain::spec_empty(),
    );
    match ds.res {
        Err(er) => Err(er),
        Ok((x, qdims)) => {
            let (k, d) = spec_push_qdims(qdims.0, Context(crate::context::TupleList::Nil), Domain::spec_empty());
            eval_spec(x, spec_seed_environment(), k, d, d, Cache(crate::cache::CacheList::Nil), fuel).res
        },
    }
}

/// Desugars and evaluates a surface program, spending at most `fuel`
/// evaluation steps.
pub fn evaluate(expr: &L1Expression, fuel: u64) -> (r: Result<Either<Value, Domain>, Error>)
    ensures
        r == driver_spec(*expr, fuel as nat),
{
    let mut dimensions = DimMap::new();
    let mut names = NameSet::new();
    let ds = crate::desugar::transform_l1_dimensions(
        expr,
        &mut dimensions,
        &mut names,
        0,
        Domain::new(),
    );
    match ds {
        Err(er) => Err(er),
        Ok((x, qdims)) => {
            let (k, d) = push_qdims(&qdims.0, Context::new(), Domain::new());
            let mut e = seed_environment();
            let mut c = Cache::new();
            crate::evaluator::evaluate(&x, &mut e, &k, &d, &d, &mut c, fuel)
        },
    }
}

} // verus!
