//! The demand-driven evaluator.
//!
//! Evaluation is specified by `eval_spec` and its helper functions: a
//! fuel-indexed big-step semantics that threads the environment and the
//! memoization cache and either produces a value, reports the set of missing
//! dimensions, or stops with an error. The executable functions return
//! exactly what the specification says, clause for clause.

use vstd::prelude::*;

use crate::cache::Cache;
use crate::context::Context;
use crate::domain::Domain;
use crate::either::Either;
use crate::environment::Environment;
use crate::expression::{DimExprList, Expression, ExprList, TupleExprList};
use crate::name::Name;
use crate::value::{Dimension, DimList, Intension, Literal, Value, ValueList};

verus! {

/// A fatal evaluation or desugaring error. Missing dimensions are not errors:
/// they are reported through the `Right` alternative of the result.
#[derive(Debug, PartialEq, Eq)]
pub enum Error {
    /// An identifier was looked up that the environment does not bind.
    UndefinedIdentifier(Name),
    /// A tuple-builder or intension-domain expression did not evaluate to a
    /// dimension, or a query did not name one.
    ExpectedDimension,
    /// A primitive operator was applied to a non-integer argument.
    ExpectedInteger,
    /// An `if` condition did not evaluate to a boolean.
    ExpectedBoolean,
    /// The right-hand side of a perturbation did not evaluate to a context.
    ExpectedContext,
    /// An intension application was applied to a non-intension.
    ExpectedIntension,
    /// A base application's callee did not evaluate to a base abstraction.
    ExpectedBaseAbstraction,
    /// A value application's callee did not evaluate to a value abstraction.
    ExpectedValueAbstraction,
    /// A function application's callee was neither flavour of abstraction.
    ExpectedAbstraction,
    /// An application supplied more arguments than the abstraction declares,
    /// or a primitive received too few.
    ArityMismatch,
    /// The operator position of an application did not evaluate to an
    /// operator token.
    NotAnOperator,
    /// A primitive operator token that the dispatch table does not know.
    UnknownPrimitive(Name),
    /// A dimension was declared known but the context does not bind it.
    DimensionNotInContext,
    /// An abstraction parameter was not a plain identifier.
    ExpectedIdentifier,
    /// A surface form that the desugarer does not rewrite.
    UnexpectedForm,
    /// The fuel bound was exhausted before evaluation finished.
    OutOfFuel,
}

/// The outcome of one evaluation step: the result together with the
/// environment and cache as they stand afterwards.
#[derive(Debug, PartialEq, Eq)]
pub struct EvalStep {
    pub res: Result<Either<Value, Domain>, Error>,
    pub env: Environment,
    pub cache: Cache,
}

/// The outcome of evaluating an argument list: the values produced, the union
/// of the missing sets, and the state afterwards.
#[derive(Debug, PartialEq, Eq)]
pub struct ArgsStep {
    pub res: Result<(ValueList, Domain), Error>,
    pub env: Environment,
    pub cache: Cache,
}

/// The outcome of evaluating the pairs of a tuple builder.
#[derive(Debug, PartialEq, Eq)]
pub struct TuplesStep {
    pub res: Result<(Context, Domain), Error>,
    pub env: Environment,
    pub cache: Cache,
}

/// The outcome of evaluating the domain expressions of an intension builder.
#[derive(Debug, PartialEq, Eq)]
pub struct DomsStep {
    pub res: Result<(Domain, Domain), Error>,
    pub env: Environment,
    pub cache: Cache,
}

/// The outcome of evaluating the declarations of a wheredim: the context of
/// freshened dimensions, the set of declared dimensions, and the union of the
/// missing sets.
#[derive(Debug, PartialEq, Eq)]
pub struct WdStep {
    pub res: Result<(Context, Domain, Domain), Error>,
    pub env: Environment,
    pub cache: Cache,
}

pub open spec fn step_ok(v: Either<Value, Domain>, e: Environment, c: Cache) -> EvalStep {
    EvalStep { res: Ok(v), env: e, cache: c }
}

pub open spec fn step_err(er: Error, e: Environment, c: Cache) -> EvalStep {
    EvalStep { res: Err(er), env: e, cache: c }
}

/// The one-byte operator token `b`.
pub open spec fn op_name1(b: u8) -> Name {
    Name::Ch(b, Box::new(Name::Nil))
}

pub open spec fn op_plus() -> Name {
    op_name1(43)
}

pub open spec fn op_minus() -> Name {
    op_name1(45)
}

pub open spec fn op_star() -> Name {
    op_name1(42)
}

pub open spec fn op_gt() -> Name {
    op_name1(62)
}

pub open spec fn op_le() -> Name {
    Name::Ch(60, Box::new(Name::Ch(61, Box::new(Name::Nil))))
}

/// The wrapping sum of a parameter list of integer literals, folded from the
/// right.
pub open spec fn spec_sum_ints(params: ValueList) -> Result<u32, Error>
    decreases params,
{
    match params {
        ValueList::Nil => Ok(0u32),
        ValueList::Cons(h, t) => match *h {
            Value::Literal(Literal::Int32(n)) => match spec_sum_ints(*t) {
                Ok(s) => Ok(vstd::wrapping::u32_specs::wrapping_add(n, s)),
                Err(er) => Err(er),
            },
            _ => Err(Error::ExpectedInteger),
        },
    }
}

/// The first two parameters, both required to be integer literals.
pub open spec fn spec_two_ints(params: ValueList) -> Result<(u32, u32), Error> {
    match params {
        ValueList::Cons(a, t) => match *t {
            ValueList::Cons(b, _) => match (*a, *b) {
                (Value::Literal(Literal::Int32(x)), Value::Literal(Literal::Int32(y))) => Ok(
                    (x, y),
                ),
                _ => Err(Error::ExpectedInteger),
            },
            ValueList::Nil => Err(Error::ArityMismatch),
        },
        ValueList::Nil => Err(Error::ArityMismatch),
    }
}

/// Primitive dispatch: `+` sums every argument, `-` and `*` take the first
/// two, `<=` and `>` compare the first two; arithmetic wraps modulo 2^32.
pub open spec fn spec_apply_primitive(op: Name, params: ValueList) -> Result<Value, Error> {
    if op == op_star() {
        match spec_two_ints(params) {
            Ok((a, b)) => Ok(
                Value::Literal(Literal::Int32(vstd::wrapping::u32_specs::wrapping_mul(a, b))),
            ),
            Err(er) => Err(er),
        }
    } else if op == op_plus() {
        match spec_sum_ints(params) {
            Ok(s) => Ok(Value::Literal(Literal::Int32(s))),
            Err(er) => Err(er),
        }
    } else if op == op_minus() {
        match spec_two_ints(params) {
            Ok((a, b)) => Ok(
                Value::Literal(Literal::Int32(vstd::wrapping::u32_specs::wrapping_sub(a, b))),
            ),
            Err(er) => Err(er),
        }
    } else if op == op_le() {
        match spec_two_ints(params) {
            Ok((a, b)) => Ok(Value::Literal(Literal::Bool(a <= b))),
            Err(er) => Err(er),
        }
    } else if op == op_gt() {
        match spec_two_ints(params) {
            Ok((a, b)) => Ok(Value::Literal(Literal::Bool(a > b))),
            Err(er) => Err(er),
        }
    } else {
        Err(Error::UnknownPrimitive(op))
    }
}

/// Binds abstraction parameters to argument values in order, appending to the
/// accumulators; `None` when there are more arguments than parameters.
pub open spec fn spec_bind_params(dims: DimList, args: ValueList, ctx: Context, dom: Domain) -> Option<(Context, Domain)>
    decreases args,
{
    match args {
        ValueList::Nil => Some((ctx, dom)),
        ValueList::Cons(a, at) => match dims {
            DimList::Nil => None,
            DimList::Cons(dm, dt) => spec_bind_params(
                *dt,
                *at,
                ctx.spec_push(*dm, *a),
                dom.spec_push(*dm),
            ),
        },
    }
}

/// The freshened dimension of a wheredim declaration: the declared
/// dimension's index, tagged with the occurrence index plus the activation
/// depth.
pub open spec fn spec_generate_dimension(i: u32, q: u32, dpt: u32) -> (Dimension, Value) {
    let di = Dimension {
        i,
        v: Value::Literal(Literal::Int32(vstd::wrapping::u32_specs::wrapping_add(q, dpt))),
    };
    (di, Value::Dimension(Box::new(di)))
}

/// One evaluation step of the big-step semantics. `e` and `c` thread through
/// every sub-evaluation; `k` is the current context, `d` the current known
/// domain, and `init_d` the ambient domain of the whole query. Every
/// recursive step spends one unit of fuel; with fuel 0 the step reports
/// `OutOfFuel`.
pub open spec fn eval_spec(
    x: Expression,
    e: Environment,
    k: Context,
    init_d: Domain,
    d: Domain,
    c: Cache,
    fuel: nat,
) -> EvalStep
    decreases fuel,
{
    if fuel == 0 {
        step_err(Error::OutOfFuel, e, c)
    } else {
        let f = (fuel - 1) as nat;
        match x {
            Expression::Literal(lit) => step_ok(Either::Left(Value::Literal(lit)), e, c),
            Expression::Dimension(di) => if d.spec_has(di) {
                match k.spec_lookup(di) {
                    Some(v) => step_ok(Either::Left(v), e, c),
                    None => step_err(Error::DimensionNotInContext, e, c),
                }
            } else {
                step_ok(Either::Right(Domain::spec_empty().spec_push(di)), e, c)
            },
            Expression::Identifier(id) => eval_id_fix_spec(
                id,
                e,
                k,
                init_d,
                Domain::spec_empty(),
                d,
                c,
                f,
            ),
            Expression::Operator(id) => step_ok(Either::Left(Value::Identifier(id)), e, c),
            Expression::Sequence(list) => eval_sequence_spec(list, e, k, init_d, d, c, f),
            Expression::TupleBuilder(list) => {
                let s = eval_tuples_spec(
                    list,
                    e,
                    k,
                    init_d,
                    d,
                    c,
                    Context(crate::context::TupleList::Nil),
                    Domain::spec_empty(),
                    f,
                );
                match s.res {
                    Err(er) => step_err(er, s.env, s.cache),
                    Ok((result, missing)) => if missing.spec_is_empty() {
                        step_ok(Either::Left(Value::Context(result)), s.env, s.cache)
                    } else {
                        step_ok(Either::Right(missing), s.env, s.cache)
                    },
                }
            },
            Expression::BaseAbstraction(ba) => step_ok(
                Either::Left(Value::BaseAbstraction(ba)),
                e,
                c,
            ),
            Expression::ValueAbstraction(va) => step_ok(
                Either::Left(Value::ValueAbstraction(va)),
                e,
                c,
            ),
            Expression::Application(list) => match list {
                ExprList::Nil => step_err(Error::NotAnOperator, e, c),
                ExprList::Cons(op_expr, arg_exprs) => {
                    let s0 = eval_spec(*op_expr, e, k, init_d, d, c, f);
                    match s0.res {
                        Err(er) => step_err(er, s0.env, s0.cache),
                        Ok(op_res) => {
                            let s1 = eval_args_spec(
                                *arg_exprs,
                                s0.env,
                                k,
                                init_d,
                                d,
                                s0.cache,
                                ValueList::Nil,
                                Domain::spec_empty(),
                                f,
                            );
                            match s1.res {
                                Err(er) => step_err(er, s1.env, s1.cache),
                                Ok((params, missing)) => if !missing.spec_is_empty() {
                                    match op_res {
                                        Either::Left(_) => step_ok(
                                            Either::Right(missing),
                                            s1.env,
                                            s1.cache,
                                        ),
                                        Either::Right(r) => step_ok(
                                            Either::Right(missing.spec_union(r)),
                                            s1.env,
                                            s1.cache,
                                        ),
                                    }
                                } else {
                                    match op_res {
                                        Either::Left(Value::Identifier(opname)) => match
                                            spec_apply_primitive(opname, params) {
                                            Ok(v) => step_ok(Either::Left(v), s1.env, s1.cache),
                                            Err(er) => step_err(er, s1.env, s1.cache),
                                        },
                                        Either::Left(_) => step_err(
                                            Error::NotAnOperator,
                                            s1.env,
                                            s1.cache,
                                        ),
                                        Either::Right(r) => step_ok(
                                            Either::Right(r),
                                            s1.env,
                                            s1.cache,
                                        ),
                                    }
                                },
                            }
                        },
                    }
                },
            },
            Expression::If(ife) => {
                let s0 = eval_spec(ife.condition, e, k, init_d, d, c, f);
                match s0.res {
                    Err(er) => step_err(er, s0.env, s0.cache),
                    Ok(Either::Right(r)) => step_ok(Either::Right(r), s0.env, s0.cache),
                    Ok(Either::Left(v)) => match v {
                        Value::Literal(Literal::Bool(b)) => if b {
                            eval_spec(ife.consequent, s0.env, k, init_d, d, s0.cache, f)
                        } else {
                            eval_spec(ife.alternate, s0.env, k, init_d, d, s0.cache, f)
                        },
                        _ => step_err(Error::ExpectedBoolean, s0.env, s0.cache),
                    },
                }
            },
            Expression::WhereVar(wv) => eval_spec(
                wv.lhs,
                e.spec_merge(wv.rhs),
                k,
                init_d,
                d,
                c,
                f,
            ),
            Expression::Query(e0) => {
                let s0 = eval_spec(*e0, e, k, init_d, d, c, f);
                match s0.res {
                    Err(er) => step_err(er, s0.env, s0.cache),
                    Ok(Either::Right(r)) => step_ok(Either::Right(r), s0.env, s0.cache),
                    Ok(Either::Left(v)) => match v {
                        Value::Dimension(di) => if d.spec_has(*di) {
                            match k.spec_lookup(*di) {
                                Some(v2) => step_ok(Either::Left(v2), s0.env, s0.cache),
                                None => step_err(Error::DimensionNotInContext, s0.env, s0.cache),
                            }
                        } else {
                            step_ok(
                                Either::Right(Domain::spec_empty().spec_push(*di)),
                                s0.env,
                                s0.cache,
                            )
                        },
                        _ => step_err(Error::ExpectedDimension, s0.env, s0.cache),
                    },
                }
            },
            Expression::Perturb(p) => {
                let s0 = eval_spec(p.rhs, e, k, init_d, d, c, f);
                match s0.res {
                    Err(er) => step_err(er, s0.env, s0.cache),
                    Ok(Either::Right(r)) => step_ok(Either::Right(r), s0.env, s0.cache),
                    Ok(Either::Left(v)) => match v {
                        Value::Context(k1) => eval_spec(
                            p.lhs,
                            s0.env,
                            k.spec_perturb(k1),
                            init_d,
                            d.spec_union(k1.spec_domain()),
                            s0.cache,
                            f,
                        ),
                        _ => step_err(Error::ExpectedContext, s0.env, s0.cache),
                    },
                }
            },
            Expression::BaseApplication(bapp) => {
                let s0 = eval_spec(bapp.lhs, e, k, init_d, d, c, f);
                match s0.res {
                    Err(er) => step_err(er, s0.env, s0.cache),
                    Ok(lhs_res) => {
                        let s1 = eval_args_spec(
                            bapp.args,
                            s0.env,
                            k,
                            init_d,
                            d,
                            s0.cache,
                            ValueList::Nil,
                            Domain::spec_empty(),
                            f,
                        );
                        match s1.res {
                            Err(er) => step_err(er, s1.env, s1.cache),
                            Ok((args, missing)) => if !missing.spec_is_empty() {
                                match lhs_res {
                                    Either::Left(_) => step_ok(
                                        Either::Right(missing),
                                        s1.env,
                                        s1.cache,
                                    ),
                                    Either::Right(r) => step_ok(
                                        Either::Right(missing.spec_union(r)),
                                        s1.env,
                                        s1.cache,
                                    ),
                                }
                            } else {
                                match lhs_res {
                                    Either::Right(r) => step_ok(Either::Right(r), s1.env, s1.cache),
                                    Either::Left(Value::BaseAbstraction(ba)) => if ba.dimensions
                                        .spec_len() == args.spec_len() {
                                        eval_spec(ba.body, s1.env, k, init_d, d, s1.cache, f)
                                    } else {
                                        step_err(Error::ArityMismatch, s1.env, s1.cache)
                                    },
                                    Either::Left(_) => step_err(
                                        Error::ExpectedBaseAbstraction,
                                        s1.env,
                                        s1.cache,
                                    ),
                                }
                            },
                        }
                    },
                }
            },
            Expression::ValueApplication(vapp) => {
                let s0 = eval_spec(vapp.lhs, e, k, init_d, d, c, f);
                match s0.res {
                    Err(er) => step_err(er, s0.env, s0.cache),
                    Ok(lhs_res) => {
                        let s1 = eval_args_spec(
                            vapp.args,
                            s0.env,
                            k,
                            init_d,
                            d,
                            s0.cache,
                            ValueList::Nil,
                            Domain::spec_empty(),
                            f,
                        );
                        match s1.res {
                            Err(er) => step_err(er, s1.env, s1.cache),
                            Ok((args, missing)) => if !missing.spec_is_empty() {
                                match lhs_res {
                                    Either::Left(_) => step_ok(
                                        Either::Right(missing),
                                        s1.env,
                                        s1.cache,
                                    ),
                                    Either::Right(r) => step_ok(
                                        Either::Right(missing.spec_union(r)),
                                        s1.env,
                                        s1.cache,
                                    ),
                                }
                            } else {
                                match lhs_res {
                                    Either::Right(r) => step_ok(Either::Right(r), s1.env, s1.cache),
                                    Either::Left(Value::ValueAbstraction(va)) => if va.dimensions
                                        .spec_len() == args.spec_len() {
                                        match spec_bind_params(
                                            va.dimensions,
                                            args,
                                            Context(crate::context::TupleList::Nil),
                                            Domain::spec_empty(),
                                        ) {
                                            Some((ctx, _dom)) => eval_spec(
                                                va.body,
                                                s1.env,
                                                k.spec_perturb(ctx),
                                                init_d,
                                                d,
                                                s1.cache,
                                                f,
                                            ),
                                            None => step_err(Error::ArityMismatch, s1.env, s1.cache),
                                        }
                                    } else {
                                        step_err(Error::ArityMismatch, s1.env, s1.cache)
                                    },
                                    Either::Left(_) => step_err(
                                        Error::ExpectedValueAbstraction,
                                        s1.env,
                                        s1.cache,
                                    ),
                                }
                            },
                        }
                    },
                }
            },
            Expression::FunctionApplication(fa) => match e.spec_lookup(fa.id) {
                None => step_err(Error::UndefinedIdentifier(fa.id), e, c),
                Some(callee) => {
                    let s0 = eval_spec(callee, e, k, init_d, d, c, f);
                    match s0.res {
                        Err(er) => step_err(er, s0.env, s0.cache),
                        Ok(abs_res) => {
                            let s1 = eval_args_spec(
                                fa.base_args,
                                s0.env,
                                k,
                                init_d,
                                d,
                                s0.cache,
                                ValueList::Nil,
                                Domain::spec_empty(),
                                f,
                            );
                            match s1.res {
                                Err(er) => step_err(er, s1.env, s1.cache),
                                Ok((base_args, m1)) => {
                                    let s2 = eval_args_spec(
                                        fa.value_args,
                                        s1.env,
                                        k,
                                        init_d,
                                        d,
                                        s1.cache,
                                        ValueList::Nil,
                                        m1,
                                        f,
                                    );
                                    match s2.res {
                                        Err(er) => step_err(er, s2.env, s2.cache),
                                        Ok((value_args, missing)) => eval_funapp_tail_spec(
                                            abs_res,
                                            base_args,
                                            value_args,
                                            missing,
                                            s2.env,
                                            k,
                                            init_d,
                                            d,
                                            s2.cache,
                                            f,
                                        ),
                                    }
                                },
                            }
                        },
                    }
                },
            },
            Expression::IntensionBuilder(ie) => {
                let s0 = eval_doms_spec(
                    ie.domain,
                    e,
                    k,
                    init_d,
                    d,
                    c,
                    Domain::spec_empty(),
                    Domain::spec_empty(),
                    f,
                );
                match s0.res {
                    Err(er) => step_err(er, s0.env, s0.cache),
                    Ok((dims, missing)) => if !missing.spec_is_empty() {
                        step_ok(Either::Right(missing), s0.env, s0.cache)
                    } else {
                        step_ok(
                            Either::Left(
                                Value::Intension(
                                    Box::new(
                                        Intension {
                                            k: k.spec_restrict(dims),
                                            d: d.spec_union(dims).0,
                                            x: Box::new(ie.value),
                                        },
                                    ),
                                ),
                            ),
                            s0.env,
                            s0.cache,
                        )
                    },
                }
            },
            Expression::IntensionApplication(ia) => {
                let s0 = eval_spec(*ia, e, k, init_d, d, c, f);
                match s0.res {
                    Err(er) => step_err(er, s0.env, s0.cache),
                    Ok(Either::Right(r)) => step_ok(Either::Right(r), s0.env, s0.cache),
                    Ok(Either::Left(v)) => match v {
                        Value::Intension(intens) => eval_spec(
                            *intens.x,
                            s0.env,
                            k.spec_perturb(intens.k),
                            init_d,
                            d.spec_union(Domain::spec_from_list(intens.d)),
                            s0.cache,
                            f,
                        ),
                        _ => step_err(Error::ExpectedIntension, s0.env, s0.cache),
                    },
                }
            },
            Expression::WhereDim(wd) => {
                let s0 = eval_wheredim_rhs_spec(
                    wd.rhs.0,
                    wd.nat_q,
                    wd.dim_q,
                    e,
                    k,
                    init_d,
                    d,
                    c,
                    Context(crate::context::TupleList::Nil),
                    Domain::spec_empty(),
                    Domain::spec_empty(),
                    f,
                );
                match s0.res {
                    Err(er) => step_err(er, s0.env, s0.cache),
                    Ok((ctx, dom, missing)) => if !missing.spec_is_empty() {
                        step_ok(Either::Right(missing), s0.env, s0.cache)
                    } else {
                        eval_spec(
                            wd.lhs,
                            s0.env,
                            k.spec_perturb(ctx),
                            init_d,
                            d.spec_union(dom),
                            s0.cache,
                            f,
                        )
                    },
                }
            },
        }
    }
}

/// Evaluates the expressions of a sequence in order and keeps the last
/// result; an empty sequence reports no missing dimensions.
pub open spec fn eval_sequence_spec(
    list: ExprList,
    e: Environment,
    k: Context,
    init_d: Domain,
    d: Domain,
    c: Cache,
    fuel: nat,
) -> EvalStep
    decreases fuel,
{
    if fuel == 0 {
        step_err(Error::OutOfFuel, e, c)
    } else {
        let f = (fuel - 1) as nat;
        match list {
            ExprList::Nil => step_ok(Either::Right(Domain::spec_empty()), e, c),
            ExprList::Cons(h, t) => {
                let s0 = eval_spec(*h, e, k, init_d, d, c, f);
                match s0.res {
                    Err(er) => step_err(er, s0.env, s0.cache),
                    Ok(v) => match *t {
                        ExprList::Nil => step_ok(v, s0.env, s0.cache),
                        _ => eval_sequence_spec(*t, s0.env, k, init_d, d, s0.cache, f),
                    },
                }
            },
        }
    }
}

/// Evaluates both sides of each tuple pair in order. A pair whose sides both
/// produce values contributes a binding (its left side must be a dimension);
/// missing sets from either side are accumulated instead.
pub open spec fn eval_tuples_spec(
    list: TupleExprList,
    e: Environment,
    k: Context,
    init_d: Domain,
    d: Domain,
    c: Cache,
    acc: Context,
    missing: Domain,
    fuel: nat,
) -> TuplesStep
    decreases fuel,
{
    if fuel == 0 {
        TuplesStep { res: Err(Error::OutOfFuel), env: e, cache: c }
    } else {
        let f = (fuel - 1) as nat;
        match list {
            TupleExprList::Nil => TuplesStep { res: Ok((acc, missing)), env: e, cache: c },
            TupleExprList::Cons(h, t) => {
                let s0 = eval_spec(h.lhs, e, k, init_d, d, c, f);
                match s0.res {
                    Err(er) => TuplesStep { res: Err(er), env: s0.env, cache: s0.cache },
                    Ok(lhs_res) => {
                        let s1 = eval_spec(h.rhs, s0.env, k, init_d, d, s0.cache, f);
                        match s1.res {
                            Err(er) => TuplesStep { res: Err(er), env: s1.env, cache: s1.cache },
                            Ok(rhs_res) => match (lhs_res, rhs_res) {
                                (Either::Left(l), Either::Left(rl)) => match l {
                                    Value::Dimension(di) => eval_tuples_spec(
                                        *t,
                                        s1.env,
                                        k,
                                        init_d,
                                        d,
                                        s1.cache,
                                        acc.spec_push(*di, rl),
                                        missing,
                                        f,
                                    ),
                                    _ => TuplesStep {
                                        res: Err(Error::ExpectedDimension),
                                        env: s1.env,
                                        cache: s1.cache,
                                    },
                                },
                                (Either::Left(_), Either::Right(rr)) => eval_tuples_spec(
                                    *t,
                                    s1.env,
                                    k,
                                    init_d,
                                    d,
                                    s1.cache,
                                    acc,
                                    missing.spec_union(rr),
                                    f,
                                ),
                                (Either::Right(r), Either::Left(_)) => eval_tuples_spec(
                                    *t,
                                    s1.env,
                                    k,
                                    init_d,
                                    d,
                                    s1.cache,
                                    acc,
                                    missing.spec_union(r),
                                    f,
                                ),
                                (Either::Right(r), Either::Right(rr)) => eval_tuples_spec(
                                    *t,
                                    s1.env,
                                    k,
                                    init_d,
                                    d,
                                    s1.cache,
                                    acc,
                                    missing.spec_union(r).spec_union(rr),
                                    f,
                                ),
                            },
                        }
                    },
                }
            },
        }
    }
}

/// Evaluates an argument list in order, collecting the values produced and
/// the union of the missing sets.
pub open spec fn eval_args_spec(
    list: ExprList,
    e: Environment,
    k: Context,
    init_d: Domain,
    d: Domain,
    c: Cache,
    acc: ValueList,
    missing: Domain,
    fuel: nat,
) -> ArgsStep
    decreases fuel,
{
    if fuel == 0 {
        ArgsStep { res: Err(Error::OutOfFuel), env: e, cache: c }
    } else {
        let f = (fuel - 1) as nat;
        match list {
            ExprList::Nil => ArgsStep { res: Ok((acc, missing)), env: e, cache: c },
            ExprList::Cons(h, t) => {
                let s0 = eval_spec(*h, e, k, init_d, d, c, f);
                match s0.res {
                    Err(er) => ArgsStep { res: Err(er), env: s0.env, cache: s0.cache },
                    Ok(Either::Left(v)) => eval_args_spec(
                        *t,
                        s0.env,
                        k,
                        init_d,
                        d,
                        s0.cache,
                        acc.spec_snoc(v),
                        missing,
                        f,
                    ),
                    Ok(Either::Right(r)) => eval_args_spec(
                        *t,
                        s0.env,
                        k,
                        init_d,
                        d,
                        s0.cache,
                        acc,
                        missing.spec_union(r),
                        f,
                    ),
                }
            },
        }
    }
}

/// The tail of a function application, once the callee and the arguments are
/// evaluated: missing sets short-circuit; a base abstraction binds the base
/// arguments by substitution and may then yield a value abstraction that
/// binds the value arguments through the context; a value abstraction binds
/// the value arguments directly; any other value of a base abstraction's body
/// passes through unchanged.
pub open spec fn eval_funapp_tail_spec(
    abs_res: Either<Value, Domain>,
    base_args: ValueList,
    value_args: ValueList,
    missing: Domain,
    e: Environment,
    k: Context,
    init_d: Domain,
    d: Domain,
    c: Cache,
    fuel: nat,
) -> EvalStep
    decreases fuel,
{
    if fuel == 0 {
        step_err(Error::OutOfFuel, e, c)
    } else {
        let f = (fuel - 1) as nat;
        if !missing.spec_is_empty() {
            match abs_res {
                Either::Left(_) => step_ok(Either::Right(missing), e, c),
                Either::Right(r) => step_ok(Either::Right(missing.spec_union(r)), e, c),
            }
        } else {
            match abs_res {
                Either::Right(r) => step_ok(Either::Right(r), e, c),
                Either::Left(Value::BaseAbstraction(ba)) => match spec_bind_params(
                    ba.dimensions,
                    base_args,
                    Context(crate::context::TupleList::Nil),
                    Domain::spec_empty(),
                ) {
                    None => step_err(Error::ArityMismatch, e, c),
                    Some(_) => {
                        let s0 = eval_spec(ba.body, e, k, init_d, d, c, f);
                        match s0.res {
                            Err(er) => step_err(er, s0.env, s0.cache),
                            Ok(Either::Right(r)) => step_ok(Either::Right(r), s0.env, s0.cache),
                            Ok(Either::Left(v)) => match v {
                                Value::ValueAbstraction(va) => match spec_bind_params(
                                    va.dimensions,
                                    value_args,
                                    Context(crate::context::TupleList::Nil),
                                    Domain::spec_empty(),
                                ) {
                                    None => step_err(Error::ArityMismatch, s0.env, s0.cache),
                                    Some((ctx, dom)) => eval_spec(
                                        va.body,
                                        s0.env,
                                        k.spec_perturb(ctx),
                                        init_d,
                                        d.spec_union(dom),
                                        s0.cache,
                                        f,
                                    ),
                                },
                                other => step_ok(Either::Left(other), s0.env, s0.cache),
                            },
                        }
                    },
                },
                Either::Left(Value::ValueAbstraction(va)) => match spec_bind_params(
                    va.dimensions,
                    value_args,
                    Context(crate::context::TupleList::Nil),
                    Domain::spec_empty(),
                ) {
                    None => step_err(Error::ArityMismatch, e, c),
                    Some((ctx, dom)) => eval_spec(
                        va.body,
                        e,
                        k.spec_perturb(ctx),
                        init_d,
                        d.spec_union(dom),
                        c,
                        f,
                    ),
                },
                Either::Left(_) => step_err(Error::ExpectedAbstraction, e, c),
            }
        }
    }
}

/// Evaluates the domain expressions of an intension builder: each value must
/// be a dimension; missing sets are accumulated.
pub open spec fn eval_doms_spec(
    list: ExprList,
    e: Environment,
    k: Context,
    init_d: Domain,
    d: Domain,
    c: Cache,
    dims: Domain,
    missing: Domain,
    fuel: nat,
) -> DomsStep
    decreases fuel,
{
    if fuel == 0 {
        DomsStep { res: Err(Error::OutOfFuel), env: e, cache: c }
    } else {
        let f = (fuel - 1) as nat;
        match list {
            ExprList::Nil => DomsStep { res: Ok((dims, missing)), env: e, cache: c },
            ExprList::Cons(h, t) => {
                let s0 = eval_spec(*h, e, k, init_d, d, c, f);
                match s0.res {
                    Err(er) => DomsStep { res: Err(er), env: s0.env, cache: s0.cache },
                    Ok(Either::Left(v)) => match v {
                        Value::Dimension(di) => eval_doms_spec(
                            *t,
                            s0.env,
                            k,
                            init_d,
                            d,
                            s0.cache,
                            dims.spec_push(*di),
                            missing,
                            f,
                        ),
                        _ => DomsStep {
                            res: Err(Error::ExpectedDimension),
                            env: s0.env,
                            cache: s0.cache,
                        },
                    },
                    Ok(Either::Right(r)) => eval_doms_spec(
                        *t,
                        s0.env,
                        k,
                        init_d,
                        d,
                        s0.cache,
                        dims,
                        missing.spec_union(r),
                        f,
                    ),
                }
            },
        }
    }
}

/// Evaluates the declarations of a wheredim in order. Each successful
/// declaration manufactures a fresh dimension from the activation depth found
/// under the quantifier dimension, binds the declared dimension to it and the
/// fresh dimension to the declared value, and records the declared dimension
/// in the domain; missing sets are accumulated.
pub open spec fn eval_wheredim_rhs_spec(
    list: DimExprList,
    nat_q: u32,
    dim_q: Dimension,
    e: Environment,
    k: Context,
    init_d: Domain,
    d: Domain,
    c: Cache,
    ctx: Context,
    dom: Domain,
    missing: Domain,
    fuel: nat,
) -> WdStep
    decreases fuel,
{
    if fuel == 0 {
        WdStep { res: Err(Error::OutOfFuel), env: e, cache: c }
    } else {
        let f = (fuel - 1) as nat;
        match list {
            DimExprList::Nil => WdStep { res: Ok((ctx, dom, missing)), env: e, cache: c },
            DimExprList::Cons(h, t) => {
                let s0 = eval_spec(h.rhs, e, k, init_d, d, c, f);
                match s0.res {
                    Err(er) => WdStep { res: Err(er), env: s0.env, cache: s0.cache },
                    Ok(Either::Left(v)) => match k.spec_lookup(dim_q) {
                        None => WdStep {
                            res: Err(Error::DimensionNotInContext),
                            env: s0.env,
                            cache: s0.cache,
                        },
                        Some(depth_v) => match depth_v {
                            Value::Literal(Literal::Int32(depth)) => {
                                let (di, div) = spec_generate_dimension(h.lhs.i, nat_q, depth);
                                eval_wheredim_rhs_spec(
                                    *t,
                                    nat_q,
                                    dim_q,
                                    s0.env,
                                    k,
                                    init_d,
                                    d,
                                    s0.cache,
                                    ctx.spec_push(h.lhs, div).spec_push(di, v),
                                    dom.spec_push(h.lhs),
                                    missing,
                                    f,
                                )
                            },
                            _ => WdStep {
                                res: Err(Error::ExpectedInteger),
                                env: s0.env,
                                cache: s0.cache,
                            },
                        },
                    },
                    Ok(Either::Right(r)) => eval_wheredim_rhs_spec(
                        *t,
                        nat_q,
                        dim_q,
                        s0.env,
                        k,
                        init_d,
                        d,
                        s0.cache,
                        ctx,
                        dom,
                        missing.spec_union(r),
                        f,
                    ),
                }
            },
        }
    }
}

/// The fixpoint over an identifier's domain of support: evaluate with the
/// tried domain `dd`, and on a missing set that the known domain `d` and the
/// context both cover, retry with the strictly grown tried domain; otherwise
/// surface the gap (less whatever `d` already covers when the gap exceeds
/// `d`).
pub open spec fn eval_id_fix_spec(
    x: Name,
    e: Environment,
    k: Context,
    init_d: Domain,
    dd: Domain,
    d: Domain,
    c: Cache,
    fuel: nat,
) -> EvalStep
    decreases fuel,
{
    if fuel == 0 {
        step_err(Error::OutOfFuel, e, c)
    } else {
        let f = (fuel - 1) as nat;
        let s0 = eval_id_memo_spec(x, e, k, init_d, dd, c, f);
        match s0.res {
            Err(er) => step_err(er, s0.env, s0.cache),
            Ok(Either::Left(v)) => step_ok(Either::Left(v), s0.env, s0.cache),
            Ok(Either::Right(d0)) => if d0.spec_is_subset(d) {
                if d0.spec_is_subset(k.spec_domain()) {
                    if d0.spec_is_subset(dd) {
                        step_ok(Either::Right(d0), s0.env, s0.cache)
                    } else {
                        eval_id_fix_spec(x, s0.env, k, init_d, dd.spec_union(d0), d, s0.cache, f)
                    }
                } else {
                    step_ok(Either::Right(d0), s0.env, s0.cache)
                }
            } else {
                step_ok(Either::Right(d0.spec_difference(d)), s0.env, s0.cache)
            },
        }
    }
}

/// Memoized evaluation of an identifier's definition under the tried domain
/// `dd`: the cache is keyed by the context restricted to `dd`; on a miss the
/// definition is evaluated with `dd` as the known domain and the result is
/// stored.
pub open spec fn eval_id_memo_spec(
    x: Name,
    e: Environment,
    k: Context,
    init_d: Domain,
    dd: Domain,
    c: Cache,
    fuel: nat,
) -> EvalStep
    decreases fuel,
{
    if fuel == 0 {
        step_err(Error::OutOfFuel, e, c)
    } else {
        let f = (fuel - 1) as nat;
        let kk = k.spec_restrict(dd);
        match c.spec_find(x, kk) {
            Some(v) => step_ok(v, e, c),
            None => match e.spec_lookup(x) {
                None => step_err(Error::UndefinedIdentifier(x), e, c),
                Some(def) => {
                    let s0 = eval_spec(def, e, k, init_d, dd, c, f);
                    match s0.res {
                        Err(er) => step_err(er, s0.env, s0.cache),
                        Ok(v) => step_ok(v, s0.env, s0.cache.spec_add(x, kk, v)),
                    }
                },
            },
        }
    }
}

/// The freshened dimension of a wheredim declaration, and the same dimension
/// wrapped as a value.
pub fn generate_dimension(i: u32, q: u32, dpt: u32) -> (r: (Dimension, Value))
    ensures
        r == spec_generate_dimension(i, q, dpt),
{
    let di = Dimension { i, v: Value::Literal(Literal::Int32(q.wrapping_add(dpt))) };
    let dv = Value::Dimension(Box::new(di.dup()));
    (di, dv)
}

fn sum_ints(params: &ValueList) -> (r: Result<u32, Error>)
    ensures
        r == spec_sum_ints(*params),
    decreases *params,
{
    match params {
        ValueList::Nil => Ok(0u32),
        ValueList::Cons(h, t) => match &**h {
            Value::Literal(Literal::Int32(n)) => match sum_ints(t) {
                Ok(s) => Ok(n.wrapping_add(s)),
                Err(er) => Err(er),
            },
            _ => Err(Error::ExpectedInteger),
        },
    }
}

fn two_ints(params: &ValueList) -> (r: Result<(u32, u32), Error>)
    ensures
        r == spec_two_ints(*params),
{
    match params {
        ValueList::Cons(a, t) => match &**t {
            ValueList::Cons(b, _) => match (&**a, &**b) {
                (Value::Literal(Literal::Int32(x)), Value::Literal(Literal::Int32(y))) => Ok(
                    (*x, *y),
                ),
                _ => Err(Error::ExpectedInteger),
            },
            ValueList::Nil => Err(Error::ArityMismatch),
        },
        ValueList::Nil => Err(Error::ArityMismatch),
    }
}

fn apply_primitive(op: &Name, params: &ValueList) -> (r: Result<Value, Error>)
    ensures
        r == spec_apply_primitive(*op, *params),
{
    let n_star = Name::Ch(42, Box::new(Name::Nil));
    let n_plus = Name::Ch(43, Box::new(Name::Nil));
    let n_minus = Name::Ch(45, Box::new(Name::Nil));
    let n_le = Name::Ch(60, Box::new(Name::Ch(61, Box::new(Name::Nil))));
    let n_gt = Name::Ch(62, Box::new(Name::Nil));
    if op.eq_name(&n_star) {
        match two_ints(params) {
            Ok((a, b)) => Ok(Value::Literal(Literal::Int32(a.wrapping_mul(b)))),
            Err(er) => Err(er),
        }
    } else if op.eq_name(&n_plus) {
        match sum_ints(params) {
            Ok(s) => Ok(Value::Literal(Literal::Int32(s))),
            Err(er) => Err(er),
        }
    } else if op.eq_name(&n_minus) {
        match two_ints(params) {
            Ok((a, b)) => Ok(Value::Literal(Literal::Int32(a.wrapping_sub(b)))),
            Err(er) => Err(er),
        }
    } else if op.eq_name(&n_le) {
        match two_ints(params) {
            Ok((a, b)) => Ok(Value::Literal(Literal::Bool(a <= b))),
            Err(er) => Err(er),
        }
    } else if op.eq_name(&n_gt) {
        match two_ints(params) {
            Ok((a, b)) => Ok(Value::Literal(Literal::Bool(a > b))),
            Err(er) => Err(er),
        }
    } else {
        Err(Error::UnknownPrimitive(op.dup()))
    }
}

fn same_len(dims: &DimList, args: &ValueList) -> (r: bool)
    ensures
        r == (dims.spec_len() == args.spec_len()),
    decreases *dims,
{
    match (dims, args) {
        (DimList::Nil, ValueList::Nil) => true,
        (DimList::Cons(_, dt), ValueList::Cons(_, at)) => same_len(dt, at),
        _ => false,
    }
}

fn bind_params(dims: &DimList, args: &ValueList, ctx: Context, dom: Domain) -> (r: Option<
    (Context, Domain),
>)
    ensures
        r == spec_bind_params(*dims, *args, ctx, dom),
    decreases *args,
{
    match args {
        ValueList::Nil => Some((ctx, dom)),
        ValueList::Cons(a, at) => match dims {
            DimList::Nil => None,
            DimList::Cons(dm, dt) => {
                let mut ctx2 = ctx;
                ctx2.push(dm.dup(), a.dup());
                let mut dom2 = dom;
                dom2.push(dm.dup());
                bind_params(dt, at, ctx2, dom2)
            },
        },
    }
}

/// Evaluates `x` under environment `e`, context `k`, ambient domain
/// `init_d`, known domain `d`, and cache `c`, spending at most `fuel` steps.
/// The result, the environment, and the cache afterwards are exactly those of
/// the specification semantics.
#[verifier::rlimit(50)]
pub fn evaluate(
    x: &Expression,
    e: &mut Environment,
    k: &Context,
    init_d: &Domain,
    d: &Domain,
    c: &mut Cache,
    fuel: u64,
) -> (r: Result<Either<Value, Domain>, Error>)
    ensures
        ({
            let s = eval_spec(*x, *old(e), *k, *init_d, *d, *old(c), fuel as nat);
            r == s.res && *final(e) == s.env && *final(c) == s.cache
        }),
    decreases fuel,
{
    if fuel == 0 {
        return Err(Error::OutOfFuel);
    }
    let f = fuel - 1;
    match x {
        Expression::Literal(lit) => Ok(Either::Left(Value::Literal(*lit))),
        Expression::Dimension(di) => {
            if d.contains(di) {
                match k.lookup(di) {
                    Some(v) => Ok(Either::Left(v)),
                    None => Err(Error::DimensionNotInContext),
                }
            } else {
                let mut h = Domain::new();
                h.push(di.dup());
                Ok(Either::Right(h))
            }
        },
        Expression::Identifier(id) => evaluate_id1(id, e, k, init_d, &Domain::new(), d, c, f),
        Expression::Operator(id) => Ok(Either::Left(Value::Identifier(id.dup()))),
        Expression::Sequence(list) => evaluate_sequence(list, e, k, init_d, d, c, f),
        Expression::TupleBuilder(list) => {
            let s = evaluate_tuples(
                list,
                e,
                k,
                init_d,
                d,
                c,
                Context::new(),
                Domain::new(),
                f,
            );
            match s {
                Err(er) => Err(er),
                Ok((result, missing)) => {
                    if missing.is_empty() {
                        Ok(Either::Left(Value::Context(result)))
                    } else {
                        Ok(Either::Right(missing))
                    }
                },
            }
        },
        Expression::BaseAbstraction(ba) => Ok(Either::Left(Value::BaseAbstraction(Box::new(ba.dup())))),
        Expression::ValueAbstraction(va) => Ok(
            Either::Left(Value::ValueAbstraction(Box::new(va.dup()))),
        ),
        Expression::Application(list) => match list {
            ExprList::Nil => Err(Error::NotAnOperator),
            ExprList::Cons(op_expr, arg_exprs) => {
                let r0 = evaluate(op_expr, e, k, init_d, d, c, f);
                match r0 {
                    Err(er) => Err(er),
                    Ok(op_res) => {
                        let r1 = evaluate_args(
                            arg_exprs,
                            e,
                            k,
                            init_d,
                            d,
                            c,
                            ValueList::Nil,
                            Domain::new(),
                            f,
                        );
                        match r1 {
                            Err(er) => Err(er),
                            Ok((params, missing)) => {
                                if !missing.is_empty() {
                                    match op_res {
                                        Either::Left(_) => Ok(Either::Right(missing)),
                                        Either::Right(r) => Ok(
                                            Either::Right(missing.union(&r)),
                                        ),
                                    }
                                } else {
                                    match op_res {
                                        Either::Left(Value::Identifier(opname)) => match
                                            apply_primitive(&opname, &params) {
                                            Ok(v) => Ok(Either::Left(v)),
                                            Err(er) => Err(er),
                                        },
                                        Either::Left(_) => Err(Error::NotAnOperator),
                                        Either::Right(r) => Ok(Either::Right(r)),
                                    }
                                }
                            },
                        }
                    },
                }
            },
        },
        Expression::If(ife) => {
            let r0 = evaluate(&ife.condition, e, k, init_d, d, c, f);
            match r0 {
                Err(er) => Err(er),
                Ok(Either::Right(r)) => Ok(Either::Right(r)),
                Ok(Either::Left(v)) => match v {
                    Value::Literal(Literal::Bool(b)) => {
                        if b {
                            evaluate(&ife.consequent, e, k, init_d, d, c, f)
                        } else {
                            evaluate(&ife.alternate, e, k, init_d, d, c, f)
                        }
                    },
                    _ => Err(Error::ExpectedBoolean),
                },
            }
        },
        Expression::WhereVar(wv) => {
            e.merge(wv.rhs.dup());
            evaluate(&wv.lhs, e, k, init_d, d, c, f)
        },
        Expression::Query(e0) => {
            let r0 = evaluate(e0, e, k, init_d, d, c, f);
            match r0 {
                Err(er) => Err(er),
                Ok(Either::Right(r)) => Ok(Either::Right(r)),
                Ok(Either::Left(v)) => match v {
                    Value::Dimension(di) => {
                        if d.contains(&di) {
                            match k.lookup(&di) {
                                Some(v2) => Ok(Either::Left(v2)),
                                None => Err(Error::DimensionNotInContext),
                            }
                        } else {
                            let mut h = Domain::new();
                            h.push(*di);
                            Ok(Either::Right(h))
                        }
                    },
                    _ => Err(Error::ExpectedDimension),
                },
            }
        },
        Expression::Perturb(p) => {
            let r0 = evaluate(&p.rhs, e, k, init_d, d, c, f);
            match r0 {
                Err(er) => Err(er),
                Ok(Either::Right(r)) => Ok(Either::Right(r)),
                Ok(Either::Left(v)) => match v {
                    Value::Context(k1) => {
                        let k2 = k.perturb(&k1);
                        let d2 = d.union(&k1.domain());
                        evaluate(&p.lhs, e, &k2, init_d, &d2, c, f)
                    },
                    _ => Err(Error::ExpectedContext),
                },
            }
        },
        Expression::BaseApplication(bapp) => {
            let r0 = evaluate(&bapp.lhs, e, k, init_d, d, c, f);
            match r0 {
                Err(er) => Err(er),
                Ok(lhs_res) => {
                    let r1 = evaluate_args(
                        &bapp.args,
                        e,
                        k,
                        init_d,
                        d,
                        c,
                        ValueList::Nil,
                        Domain::new(),
                        f,
                    );
                    match r1 {
                        Err(er) => Err(er),
                        Ok((args, missing)) => {
                            if !missing.is_empty() {
                                match lhs_res {
                                    Either::Left(_) => Ok(Either::Right(missing)),
                                    Either::Right(r) => Ok(Either::Right(missing.union(&r))),
                                }
                            } else {
                                match lhs_res {
                                    Either::Right(r) => Ok(Either::Right(r)),
                                    Either::Left(Value::BaseAbstraction(ba)) => {
                                        if same_len(&ba.dimensions, &args) {
                                            evaluate(&ba.body, e, k, init_d, d, c, f)
                                        } else {
                                            Err(Error::ArityMismatch)
                                        }
                                    },
                                    Either::Left(_) => Err(Error::ExpectedBaseAbstraction),
                                }
                            }
                        },
                    }
                },
            }
        },
        Expression::ValueApplication(vapp) => {
            let r0 = evaluate(&vapp.lhs, e, k, init_d, d, c, f);
            match r0 {
                Err(er) => Err(er),
                Ok(lhs_res) => {
                    let r1 = evaluate_args(
                        &vapp.args,
                        e,
                        k,
                        init_d,
                        d,
                        c,
                        ValueList::Nil,
                        Domain::new(),
                        f,
                    );
                    match r1 {
                        Err(er) => Err(er),
                        Ok((args, missing)) => {
                            if !missing.is_empty() {
                                match lhs_res {
                                    Either::Left(_) => Ok(Either::Right(missing)),
                                    Either::Right(r) => Ok(Either::Right(missing.union(&r))),
                                }
                            } else {
                                match lhs_res {
                                    Either::Right(r) => Ok(Either::Right(r)),
                                    Either::Left(Value::ValueAbstraction(va)) => {
                                        if same_len(&va.dimensions, &args) {
                                            match bind_params(
                                                &va.dimensions,
                                                &args,
                                                Context::new(),
                                                Domain::new(),
                                            ) {
                                                Some((ctx, _dom)) => {
                                                    let k2 = k.perturb(&ctx);
                                                    evaluate(&va.body, e, &k2, init_d, d, c, f)
                                                },
                                                None => Err(Error::ArityMismatch),
                                            }
                                        } else {
                                            Err(Error::ArityMismatch)
                                        }
                                    },
                                    Either::Left(_) => Err(Error::ExpectedValueAbstraction),
                                }
                            }
                        },
                    }
                },
            }
        },
        Expression::FunctionApplication(fa) => {
            let callee = e.lookup(&fa.id);
            match callee {
                None => Err(Error::UndefinedIdentifier(fa.id.dup())),
                Some(callee) => {
                    let r0 = evaluate(&callee, e, k, init_d, d, c, f);
                    match r0 {
                        Err(er) => Err(er),
                        Ok(abs_res) => {
                            let r1 = evaluate_args(
                                &fa.base_args,
                                e,
                                k,
                                init_d,
                                d,
                                c,
                                ValueList::Nil,
                                Domain::new(),
                                f,
                            );
                            match r1 {
                                Err(er) => Err(er),
                                Ok((base_args, m1)) => {
                                    let r2 = evaluate_args(
                                        &fa.value_args,
                                        e,
                                        k,
                                        init_d,
                                        d,
                                        c,
                                        ValueList::Nil,
                                        m1,
                                        f,
                                    );
                                    match r2 {
                                        Err(er) => Err(er),
                                        Ok((value_args, missing)) => evaluate_funapp_tail(
                                            abs_res,
                                            &base_args,
                                            &value_args,
                                            missing,
                                            e,
                                            k,
                                            init_d,
                                            d,
                                            c,
                                            f,
                                        ),
                                    }
                                },
                            }
                        },
                    }
                },
            }
        },
        Expression::IntensionBuilder(ie) => {
            let r0 = evaluate_doms(
                &ie.domain,
                e,
                k,
                init_d,
                d,
                c,
                Domain::new(),
                Domain::new(),
                f,
            );
            match r0 {
                Err(er) => Err(er),
                Ok((dims, missing)) => {
                    if !missing.is_empty() {
                        Ok(Either::Right(missing))
                    } else {
                        let captured = k.restrict(&dims);
                        let declared = d.union(&dims);
                        Ok(
                            Either::Left(
                                Value::Intension(
                                    Box::new(
                                        Intension {
                                            k: captured,
                                            d: declared.0,
                                            x: Box::new(ie.value.dup()),
                                        },
                                    ),
                                ),
                            ),
                        )
                    }
                },
            }
        },
        Expression::IntensionApplication(ia) => {
            let r0 = evaluate(ia, e, k, init_d, d, c, f);
            match r0 {
                Err(er) => Err(er),
                Ok(Either::Right(r)) => Ok(Either::Right(r)),
                Ok(Either::Left(v)) => match v {
                    Value::Intension(intens) => {
                        let k2 = k.perturb(&intens.k);
                        let d2 = d.union(&Domain::from_list(&intens.d));
                        evaluate(&intens.x, e, &k2, init_d, &d2, c, f)
                    },
                    _ => Err(Error::ExpectedIntension),
                },
            }
        },
        Expression::WhereDim(wd) => {
            let r0 = evaluate_wheredim_rhs(
                &wd.rhs.0,
                wd.nat_q,
                &wd.dim_q,
                e,
                k,
                init_d,
                d,
                c,
                Context::new(),
                Domain::new(),
                Domain::new(),
                f,
            );
            match r0 {
                Err(er) => Err(er),
                Ok((ctx, dom, missing)) => {
                    if !missing.is_empty() {
                        Ok(Either::Right(missing))
                    } else {
                        let k2 = k.perturb(&ctx);
                        let d2 = d.union(&dom);
                        evaluate(&wd.lhs, e, &k2, init_d, &d2, c, f)
                    }
                },
            }
        },
    }
}

fn evaluate_sequence(
    list: &ExprList,
    e: &mut Environment,
    k: &Context,
    init_d: &Domain,
    d: &Domain,
    c: &mut Cache,
    fuel: u64,
) -> (r: Result<Either<Value, Domain>, Error>)
    ensures
        ({
            let s = eval_sequence_spec(*list, *old(e), *k, *init_d, *d, *old(c), fuel as nat);
            r == s.res && *final(e) == s.env && *final(c) == s.cache
        }),
    decreases fuel,
{
    if fuel == 0 {
        return Err(Error::OutOfFuel);
    }
    let f = fuel - 1;
    match list {
        ExprList::Nil => Ok(Either::Right(Domain::new())),
        ExprList::Cons(h, t) => {
            let r0 = evaluate(h, e, k, init_d, d, c, f);
            match r0 {
                Err(er) => Err(er),
                Ok(v) => match &**t {
                    ExprList::Nil => Ok(v),
                    _ => evaluate_sequence(t, e, k, init_d, d, c, f),
                },
            }
        },
    }
}

fn evaluate_tuples(
    list: &TupleExprList,
    e: &mut Environment,
    k: &Context,
    init_d: &Domain,
    d: &Domain,
    c: &mut Cache,
    acc: Context,
    missing: Domain,
    fuel: u64,
) -> (r: Result<(Context, Domain), Error>)
    ensures
        ({
            let s = eval_tuples_spec(
                *list,
                *old(e),
                *k,
                *init_d,
                *d,
                *old(c),
                acc,
                missing,
                fuel as nat,
            );
            r == s.res && *final(e) == s.env && *final(c) == s.cache
        }),
    decreases fuel,
{
    if fuel == 0 {
        return Err(Error::OutOfFuel);
    }
    let f = fuel - 1;
    match list {
        TupleExprList::Nil => Ok((acc, missing)),
        TupleExprList::Cons(h, t) => {
            let r0 = evaluate(&h.lhs, e, k, init_d, d, c, f);
            match r0 {
                Err(er) => Err(er),
                Ok(lhs_res) => {
                    let r1 = evaluate(&h.rhs, e, k, init_d, d, c, f);
                    match r1 {
                        Err(er) => Err(er),
                        Ok(rhs_res) => match (lhs_res, rhs_res) {
                            (Either::Left(l), Either::Left(rl)) => match l {
                                Value::Dimension(di) => {
                                    let mut acc2 = acc;
                                    acc2.push(*di, rl);
                                    evaluate_tuples(t, e, k, init_d, d, c, acc2, missing, f)
                                },
                                _ => Err(Error::ExpectedDimension),
                            },
                            (Either::Left(_), Either::Right(rr)) => evaluate_tuples(
                                t,
                                e,
                                k,
                                init_d,
                                d,
                                c,
                                acc,
                                missing.union(&rr),
                                f,
                            ),
                            (Either::Right(r), Either::Left(_)) => evaluate_tuples(
                                t,
                                e,
                                k,
                                init_d,
                                d,
                                c,
                                acc,
                                missing.union(&r),
                                f,
                            ),
                            (Either::Right(r), Either::Right(rr)) => evaluate_tuples(
                                t,
                                e,
                                k,
                                init_d,
                                d,
                                c,
                                acc,
                                missing.union(&r).union(&rr),
                                f,
                            ),
                        },
                    }
                },
            }
        },
    }
}

fn evaluate_args(
    list: &ExprList,
    e: &mut Environment,
    k: &Context,
    init_d: &Domain,
    d: &Domain,
    c: &mut Cache,
    acc: ValueList,
    missing: Domain,
    fuel: u64,
) -> (r: Result<(ValueList, Domain), Error>)
    ensures
        ({
            let s = eval_args_spec(
                *list,
                *old(e),
                *k,
                *init_d,
                *d,
                *old(c),
                acc,
                missing,
                fuel as nat,
            );
            r == s.res && *final(e) == s.env && *final(c) == s.cache
        }),
    decreases fuel,
{
    if fuel == 0 {
        return Err(Error::OutOfFuel);
    }
    let f = fuel - 1;
    match list {
        ExprList::Nil => Ok((acc, missing)),
        ExprList::Cons(h, t) => {
            let r0 = evaluate(h, e, k, init_d, d, c, f);
            match r0 {
                Err(er) => Err(er),
                Ok(Either::Left(v)) => evaluate_args(
                    t,
                    e,
                    k,
                    init_d,
                    d,
                    c,
                    acc.snoc(v),
                    missing,
                    f,
                ),
                Ok(Either::Right(r)) => evaluate_args(
                    t,
                    e,
                    k,
                    init_d,
                    d,
                    c,
                    acc,
                    missing.union(&r),
                    f,
                ),
            }
        },
    }
}

fn evaluate_funapp_tail(
    abs_res: Either<Value, Domain>,
    base_args: &ValueList,
    value_args: &ValueList,
    missing: Domain,
    e: &mut Environment,
    k: &Context,
    init_d: &Domain,
    d: &Domain,
    c: &mut Cache,
    fuel: u64,
) -> (r: Result<Either<Value, Domain>, Error>)
    ensures
        ({
            let s = eval_funapp_tail_spec(
                abs_res,
                *base_args,
                *value_args,
                missing,
                *old(e),
                *k,
                *init_d,
                *d,
                *old(c),
                fuel as nat,
            );
            r == s.res && *final(e) == s.env && *final(c) == s.cache
        }),
    decreases fuel,
{
    if fuel == 0 {
        return Err(Error::OutOfFuel);
    }
    let f = fuel - 1;
    if !missing.is_empty() {
        match abs_res {
            Either::Left(_) => Ok(Either::Right(missing)),
            Either::Right(r) => Ok(Either::Right(missing.union(&r))),
        }
    } else {
        match abs_res {
            Either::Right(r) => Ok(Either::Right(r)),
            Either::Left(Value::BaseAbstraction(ba)) => {
                match bind_params(&ba.dimensions, base_args, Context::new(), Domain::new()) {
                    None => Err(Error::ArityMismatch),
                    Some(_) => {
                        let r0 = evaluate(&ba.body, e, k, init_d, d, c, f);
                        match r0 {
                            Err(er) => Err(er),
                            Ok(Either::Right(r)) => Ok(Either::Right(r)),
                            Ok(Either::Left(v)) => match v {
                                Value::ValueAbstraction(va) => {
                                    match bind_params(
                                        &va.dimensions,
                                        value_args,
                                        Context::new(),
                                        Domain::new(),
                                    ) {
                                        None => Err(Error::ArityMismatch),
                                        Some((ctx, dom)) => {
                                            let k2 = k.perturb(&ctx);
                                            let d2 = d.union(&dom);
                                            evaluate(&va.body, e, &k2, init_d, &d2, c, f)
                                        },
                                    }
                                },
                                other => Ok(Either::Left(other)),
                            },
                        }
                    },
                }
            },
            Either::Left(Value::ValueAbstraction(va)) => {
                match bind_params(&va.dimensions, value_args, Context::new(), Domain::new()) {
                    None => Err(Error::ArityMismatch),
                    Some((ctx, dom)) => {
                        let k2 = k.perturb(&ctx);
                        let d2 = d.union(&dom);
                        evaluate(&va.body, e, &k2, init_d, &d2, c, f)
                    },
                }
            },
            Either::Left(_) => Err(Error::ExpectedAbstraction),
        }
    }
}

fn evaluate_doms(
    list: &ExprList,
    e: &mut Environment,
    k: &Context,
    init_d: &Domain,
    d: &Domain,
    c: &mut Cache,
    dims: Domain,
    missing: Domain,
    fuel: u64,
) -> (r: Result<(Domain, Domain), Error>)
    ensures
        ({
            let s = eval_doms_spec(
                *list,
                *old(e),
                *k,
                *init_d,
                *d,
                *old(c),
                dims,
                missing,
                fuel as nat,
            );
            r == s.res && *final(e) == s.env && *final(c) == s.cache
        }),
    decreases fuel,
{
    if fuel == 0 {
        return Err(Error::OutOfFuel);
    }
    let f = fuel - 1;
    match list {
        ExprList::Nil => Ok((dims, missing)),
        ExprList::Cons(h, t) => {
            let r0 = evaluate(h, e, k, init_d, d, c, f);
            match r0 {
                Err(er) => Err(er),
                Ok(Either::Left(v)) => match v {
                    Value::Dimension(di) => {
                        let mut dims2 = dims;
                        dims2.push(*di);
                        evaluate_doms(t, e, k, init_d, d, c, dims2, missing, f)
                    },
                    _ => Err(Error::ExpectedDimension),
                },
                Ok(Either::Right(r)) => evaluate_doms(
                    t,
                    e,
                    k,
                    init_d,
                    d,
                    c,
                    dims,
                    missing.union(&r),
                    f,
                ),
            }
        },
    }
}

fn evaluate_wheredim_rhs(
    list: &DimExprList,
    nat_q: u32,
    dim_q: &Dimension,
    e: &mut Environment,
    k: &Context,
    init_d: &Domain,
    d: &Domain,
    c: &mut Cache,
    ctx: Context,
    dom: Domain,
    missing: Domain,
    fuel: u64,
) -> (r: Result<(Context, Domain, Domain), Error>)
    ensures
        ({
            let s = eval_wheredim_rhs_spec(
                *list,
                nat_q,
                *dim_q,
                *old(e),
                *k,
                *init_d,
                *d,
                *old(c),
                ctx,
                dom,
                missing,
                fuel as nat,
            );
            r == s.res && *final(e) == s.env && *final(c) == s.cache
        }),
    decreases fuel,
{
    if fuel == 0 {
        return Err(Error::OutOfFuel);
    }
    let f = fuel - 1;
    match list {
        DimExprList::Nil => Ok((ctx, dom, missing)),
        DimExprList::Cons(h, t) => {
            let r0 = evaluate(&h.rhs, e, k, init_d, d, c, f);
            match r0 {
                Err(er) => Err(er),
                Ok(Either::Left(v)) => match k.lookup(dim_q) {
                    None => Err(Error::DimensionNotInContext),
                    Some(depth_v) => match depth_v {
                        Value::Literal(Literal::Int32(depth)) => {
                            let (di, div) = generate_dimension(h.lhs.i, nat_q, depth);
                            let mut ctx2 = ctx;
                            ctx2.push(h.lhs.dup(), div);
                            ctx2.push(di, v);
                            let mut dom2 = dom;
                            dom2.push(h.lhs.dup());
                            evaluate_wheredim_rhs(
                                t,
                                nat_q,
                                dim_q,
                                e,
                                k,
                                init_d,
                                d,
                                c,
                                ctx2,
                                dom2,
                                missing,
                                f,
                            )
                        },
                        _ => Err(Error::ExpectedInteger),
                    },
                },
                Ok(Either::Right(r)) => evaluate_wheredim_rhs(
                    t,
                    nat_q,
                    dim_q,
                    e,
                    k,
                    init_d,
                    d,
                    c,
                    ctx,
                    dom,
                    missing.union(&r),
                    f,
                ),
            }
        },
    }
}

/// The fixpoint over an identifier's domain of support.
pub fn evaluate_id1(
    x: &Name,
    e: &mut Environment,
    k: &Context,
    init_d: &Domain,
    dd: &Domain,
    d: &Domain,
    c: &mut Cache,
    fuel: u64,
) -> (r: Result<Either<Value, Domain>, Error>)
    ensures
        ({
            let s = eval_id_fix_spec(*x, *old(e), *k, *init_d, *dd, *d, *old(c), fuel as nat);
            r == s.res && *final(e) == s.env && *final(c) == s.cache
        }),
    decreases fuel,
{
    if fuel == 0 {
        return Err(Error::OutOfFuel);
    }
    let f = fuel - 1;
    let r0 = evaluate_id2(x, e, k, init_d, dd, c, f);
    match r0 {
        Err(er) => Err(er),
        Ok(Either::Left(v)) => Ok(Either::Left(v)),
        Ok(Either::Right(d0)) => {
            if d0.is_subset(d) {
                if d0.is_subset(&k.domain()) {
                    if d0.is_subset(dd) {
                        Ok(Either::Right(d0))
                    } else {
                        let dd2 = dd.union(&d0);
                        evaluate_id1(x, e, k, init_d, &dd2, d, c, f)
                    }
                } else {
                    Ok(Either::Right(d0))
                }
            } else {
                Ok(Either::Right(d0.difference(d)))
            }
        },
    }
}

/// Memoized evaluation of an identifier's definition.
pub fn evaluate_id2(
    x: &Name,
    e: &mut Environment,
    k: &Context,
    init_d: &Domain,
    dd: &Domain,
    c: &mut Cache,
    fuel: u64,
) -> (r: Result<Either<Value, Domain>, Error>)
    ensures
        ({
            let s = eval_id_memo_spec(*x, *old(e), *k, *init_d, *dd, *old(c), fuel as nat);
            r == s.res && *final(e) == s.env && *final(c) == s.cache
        }),
    decreases fuel,
{
    if fuel == 0 {
        return Err(Error::OutOfFuel);
    }
    let f = fuel - 1;
    let kk = k.restrict(dd);
    let cached = c.find(x, &kk);
    match cached {
        Some(v) => Ok(v),
        None => {
            let def = e.lookup(x);
            match def {
                None => Err(Error::UndefinedIdentifier(x.dup())),
                Some(def) => {
                    let r0 = evaluate(&def, e, k, init_d, dd, c, f);
                    match r0 {
                        Err(er) => Err(er),
                        Ok(v) => {
                            let v2 = c.add(x.dup(), kk, v);
                            Ok(v2)
                        },
                    }
                },
            }
        },
    }
}

} // verus!
