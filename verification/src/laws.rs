//! Laws of the evaluation semantics, stated over `eval_spec` and proved once
//! and for all. Each law holds for every environment, context, domain, cache,
//! and sufficient fuel.

use vstd::prelude::*;

use crate::cache::Cache;
use crate::context::Context;
use crate::domain::Domain;
use crate::either::Either;
use crate::environment::Environment;
use crate::evaluator::{
    eval_args_spec, eval_id_fix_spec, eval_id_memo_spec, eval_spec, eval_tuples_spec, op_plus,
    spec_apply_primitive, spec_sum_ints, step_ok,
};
use crate::expression::{
    Expression, ExprList, IfExpression, PerturbExpression, TupleExpression, TupleExprList,
};
use crate::name::Name;
use crate::value::{Dimension, Literal, Value, ValueList};

verus! {

/// Literal identity: a literal evaluates to itself, touching neither the
/// environment nor the cache.
pub proof fn lemma_literal_identity(
    lit: Literal,
    e: Environment,
    k: Context,
    init_d: Domain,
    d: Domain,
    c: Cache,
    fuel: nat,
)
    requires
        fuel >= 1,
    ensures
        eval_spec(Expression::Literal(lit), e, k, init_d, d, c, fuel) == step_ok(
            Either::Left(Value::Literal(lit)),
            e,
            c,
        ),
{
}

/// Purity of primitives: applying the addition operator to two integer
/// literals yields their sum, wrapping modulo 2^32, and leaves the
/// environment and the cache untouched.
pub proof fn lemma_primitive_addition(
    a: u32,
    b: u32,
    e: Environment,
    k: Context,
    init_d: Domain,
    d: Domain,
    c: Cache,
    fuel: nat,
)
    requires
        fuel >= 4,
    ensures
        eval_spec(
            Expression::Application(
                ExprList::Cons(
                    Box::new(Expression::Operator(op_plus())),
                    Box::new(
                        ExprList::Cons(
                            Box::new(Expression::Literal(Literal::Int32(a))),
                            Box::new(
                                ExprList::Cons(
                                    Box::new(Expression::Literal(Literal::Int32(b))),
                                    Box::new(ExprList::Nil),
                                ),
                            ),
                        ),
                    ),
                ),
            ),
            e,
            k,
            init_d,
            d,
            c,
            fuel,
        ) == step_ok(
            Either::Left(
                Value::Literal(Literal::Int32(vstd::wrapping::u32_specs::wrapping_add(a, b))),
            ),
            e,
            c,
        ),
{
    let f = (fuel - 1) as nat;
    let f2 = (f - 1) as nat;
    let f3 = (f2 - 1) as nat;
    let args2 = ExprList::Cons(
        Box::new(Expression::Literal(Literal::Int32(b))),
        Box::new(ExprList::Nil),
    );
    let args1 = ExprList::Cons(Box::new(Expression::Literal(Literal::Int32(a))), Box::new(args2));
    assert(eval_spec(Expression::Operator(op_plus()), e, k, init_d, d, c, f) == step_ok(
        Either::Left(Value::Identifier(op_plus())),
        e,
        c,
    ));
    let acc1 = ValueList::Nil.spec_snoc(Value::Literal(Literal::Int32(a)));
    let acc2 = acc1.spec_snoc(Value::Literal(Literal::Int32(b)));
    assert(eval_spec(Expression::Literal(Literal::Int32(a)), e, k, init_d, d, c, f2) == step_ok(
        Either::Left(Value::Literal(Literal::Int32(a))),
        e,
        c,
    ));
    assert(eval_spec(Expression::Literal(Literal::Int32(b)), e, k, init_d, d, c, f3) == step_ok(
        Either::Left(Value::Literal(Literal::Int32(b))),
        e,
        c,
    ));
    assert(eval_args_spec(
        ExprList::Nil,
        e,
        k,
        init_d,
        d,
        c,
        acc2,
        Domain::spec_empty(),
        f3,
    ).res == Ok::<_, crate::evaluator::Error>((acc2, Domain::spec_empty())));
    assert(eval_args_spec(
        args2,
        e,
        k,
        init_d,
        d,
        c,
        acc1,
        Domain::spec_empty(),
        f2,
    ) == eval_args_spec(ExprList::Nil, e, k, init_d, d, c, acc2, Domain::spec_empty(), f3));
    assert(eval_args_spec(args1, e, k, init_d, d, c, ValueList::Nil, Domain::spec_empty(), f).res
        == Ok::<_, crate::evaluator::Error>((acc2, Domain::spec_empty())));
    let single_b = ValueList::Cons(
        Box::new(Value::Literal(Literal::Int32(b))),
        Box::new(ValueList::Nil),
    );
    assert(ValueList::Nil.spec_snoc(Value::Literal(Literal::Int32(b))) == single_b);
    assert(acc1 == ValueList::Cons(
        Box::new(Value::Literal(Literal::Int32(a))),
        Box::new(ValueList::Nil),
    ));
    assert(acc2 == ValueList::Cons(
        Box::new(Value::Literal(Literal::Int32(a))),
        Box::new(single_b),
    ));
    assert(spec_sum_ints(ValueList::Nil) == Ok::<u32, crate::evaluator::Error>(0u32));
    assert(spec_sum_ints(single_b) == Ok::<u32, crate::evaluator::Error>(
        vstd::wrapping::u32_specs::wrapping_add(b, 0),
    ));
    assert(spec_sum_ints(acc2) == Ok::<u32, crate::evaluator::Error>(
        vstd::wrapping::u32_specs::wrapping_add(
            a,
            vstd::wrapping::u32_specs::wrapping_add(b, 0),
        ),
    ));
    assert(vstd::wrapping::u32_specs::wrapping_add(b, 0) == b);
    assert(spec_apply_primitive(op_plus(), acc2) == Ok::<Value, crate::evaluator::Error>(
        Value::Literal(Literal::Int32(vstd::wrapping::u32_specs::wrapping_add(a, b))),
    ));
}

/// Context lookup through a query: when the queried expression names a
/// dimension the current domain knows, the result is exactly what the context
/// binds that dimension to; when the domain does not know it, the query
/// reports that one dimension as missing.
pub proof fn lemma_query_lookup(
    d0: Dimension,
    dt: Dimension,
    e: Environment,
    k: Context,
    init_d: Domain,
    d: Domain,
    c: Cache,
    fuel: nat,
)
    requires
        fuel >= 2,
        d.spec_has(d0),
        k.spec_lookup(d0) == Some(Value::Dimension(Box::new(dt))),
    ensures
        d.spec_has(dt) ==> eval_spec(
            Expression::Query(Box::new(Expression::Dimension(d0))),
            e,
            k,
            init_d,
            d,
            c,
            fuel,
        ) == (match k.spec_lookup(dt) {
            Some(v) => step_ok(Either::Left(v), e, c),
            None => crate::evaluator::step_err(crate::evaluator::Error::DimensionNotInContext, e, c),
        }),
        !d.spec_has(dt) ==> eval_spec(
            Expression::Query(Box::new(Expression::Dimension(d0))),
            e,
            k,
            init_d,
            d,
            c,
            fuel,
        ) == step_ok(Either::Right(Domain::spec_empty().spec_push(dt)), e, c),
{
    let f = (fuel - 1) as nat;
    assert(eval_spec(Expression::Dimension(d0), e, k, init_d, d, c, f) == step_ok(
        Either::Left(Value::Dimension(Box::new(dt))),
        e,
        c,
    ));
}

/// Perturb idempotence: perturbing by an empty tuple builder evaluates the
/// left-hand side under the unchanged context, domain, environment, and
/// cache, spending only the perturbation's own step.
pub proof fn lemma_perturb_empty_tuple(
    lhs: Expression,
    e: Environment,
    k: Context,
    init_d: Domain,
    d: Domain,
    c: Cache,
    fuel: nat,
)
    requires
        fuel >= 3,
    ensures
        eval_spec(
            Expression::Perturb(
                Box::new(
                    PerturbExpression {
                        lhs,
                        rhs: Expression::TupleBuilder(TupleExprList::Nil),
                    },
                ),
            ),
            e,
            k,
            init_d,
            d,
            c,
            fuel,
        ) == eval_spec(lhs, e, k, init_d, d, c, (fuel - 1) as nat),
{
    let f = (fuel - 1) as nat;
    let f2 = (f - 1) as nat;
    let empty_ctx = Context(crate::context::TupleList::Nil);
    assert(eval_tuples_spec(
        TupleExprList::Nil,
        e,
        k,
        init_d,
        d,
        c,
        empty_ctx,
        Domain::spec_empty(),
        f2,
    ).res == Ok::<_, crate::evaluator::Error>((empty_ctx, Domain::spec_empty())));
    assert(eval_spec(Expression::TupleBuilder(TupleExprList::Nil), e, k, init_d, d, c, f)
        == step_ok(Either::Left(Value::Context(empty_ctx)), e, c));
    crate::context::lemma_perturb_empty(k);
    assert(empty_ctx.spec_domain() == Domain::spec_empty());
    assert(d.spec_union(Domain::spec_empty()) == d);
}

/// Perturb override: perturbing by a tuple that rebinds a dimension makes a
/// query of that dimension see the new ordinal, whatever the prior context
/// bound it to. The queried expression names the dimension indirectly, as the
/// desugarer arranges: `d0` is the static dimension, bound in the context to
/// the dimension value `dt` that the tuple rebinds.
pub proof fn lemma_perturb_override(
    d0: Dimension,
    dt: Dimension,
    lit: Literal,
    e: Environment,
    k: Context,
    init_d: Domain,
    d: Domain,
    c: Cache,
    fuel: nat,
)
    requires
        fuel >= 4,
        d.spec_has(d0),
        k.spec_lookup(d0) == Some(Value::Dimension(Box::new(dt))),
        dt != d0,
    ensures
        eval_spec(
            Expression::Perturb(
                Box::new(
                    PerturbExpression {
                        lhs: Expression::Query(Box::new(Expression::Dimension(d0))),
                        rhs: Expression::TupleBuilder(
                            TupleExprList::Cons(
                                Box::new(
                                    TupleExpression {
                                        lhs: Expression::Dimension(d0),
                                        rhs: Expression::Literal(lit),
                                    },
                                ),
                                Box::new(TupleExprList::Nil),
                            ),
                        ),
                    },
                ),
            ),
            e,
            k,
            init_d,
            d,
            c,
            fuel,
        ) == step_ok(Either::Left(Value::Literal(lit)), e, c),
{
    let f = (fuel - 1) as nat;
    let f2 = (f - 1) as nat;
    let f3 = (f2 - 1) as nat;
    let pair = TupleExpression {
        lhs: Expression::Dimension(d0),
        rhs: Expression::Literal(lit),
    };
    let pairs = TupleExprList::Cons(Box::new(pair), Box::new(TupleExprList::Nil));
    let empty_ctx = Context(crate::context::TupleList::Nil);

    // The tuple builder produces the one-binding context [dt <- lit].
    assert(eval_spec(Expression::Dimension(d0), e, k, init_d, d, c, f3) == step_ok(
        Either::Left(Value::Dimension(Box::new(dt))),
        e,
        c,
    ));
    assert(eval_spec(Expression::Literal(lit), e, k, init_d, d, c, f3) == step_ok(
        Either::Left(Value::Literal(lit)),
        e,
        c,
    ));
    let k1 = empty_ctx.spec_push(dt, Value::Literal(lit));
    assert(eval_tuples_spec(
        TupleExprList::Nil,
        e,
        k,
        init_d,
        d,
        c,
        k1,
        Domain::spec_empty(),
        f3,
    ).res == Ok::<_, crate::evaluator::Error>((k1, Domain::spec_empty())));
    assert(eval_tuples_spec(pairs, e, k, init_d, d, c, empty_ctx, Domain::spec_empty(), f2).res
        == Ok::<_, crate::evaluator::Error>((k1, Domain::spec_empty())));
    assert(eval_spec(Expression::TupleBuilder(pairs), e, k, init_d, d, c, f) == step_ok(
        Either::Left(Value::Context(k1)),
        e,
        c,
    ));

    // The perturbed context answers d0 from k and dt from the new binding.
    let k2 = k.spec_perturb(k1);
    let d2 = d.spec_union(k1.spec_domain());
    assert(k1.0 == crate::context::TupleList::Cons(
        Box::new(crate::context::Tuple { dim: dt, ord: Value::Literal(lit) }),
        Box::new(crate::context::TupleList::Nil),
    ));
    assert(k1.spec_lookup(dt) == Some(Value::Literal(lit)));
    crate::context::lemma_domain_has(k1, dt);
    crate::context::lemma_domain_has(k1, d0);
    assert(!crate::context::dims_in(crate::context::TupleList::Nil, d0));
    assert(crate::context::dims_in(k1.0, dt));
    assert(!crate::context::dims_in(k1.0, d0));
    crate::context::lemma_perturb_lookup(k, k1, d0);
    crate::context::lemma_perturb_lookup(k, k1, dt);
    assert(k2.spec_lookup(d0) == Some(Value::Dimension(Box::new(dt))));
    assert(k2.spec_lookup(dt) == Some(Value::Literal(lit)));
    crate::domain::lemma_union_has(d, k1.spec_domain(), d0);
    crate::domain::lemma_union_has(d, k1.spec_domain(), dt);
    assert(d2.spec_has(d0));
    assert(d2.spec_has(dt));

    // The query under the perturbed state returns the new ordinal.
    assert(eval_spec(Expression::Dimension(d0), e, k2, init_d, d2, c, f2) == step_ok(
        Either::Left(Value::Dimension(Box::new(dt))),
        e,
        c,
    ));
    assert(eval_spec(
        Expression::Query(Box::new(Expression::Dimension(d0))),
        e,
        k2,
        init_d,
        d2,
        c,
        f,
    ) == step_ok(Either::Left(Value::Literal(lit)), e, c));
}

/// Boolean short-circuit: a conditional whose condition is a boolean literal
/// evaluates only the chosen branch; the other branch, whatever it is, is
/// never touched.
pub proof fn lemma_if_literal_condition(
    b: bool,
    consequent: Expression,
    alternate: Expression,
    e: Environment,
    k: Context,
    init_d: Domain,
    d: Domain,
    c: Cache,
    fuel: nat,
)
    requires
        fuel >= 2,
    ensures
        eval_spec(
            Expression::If(
                Box::new(
                    IfExpression {
                        condition: Expression::Literal(Literal::Bool(b)),
                        consequent,
                        alternate,
                    },
                ),
            ),
            e,
            k,
            init_d,
            d,
            c,
            fuel,
        ) == eval_spec(
            if b {
                consequent
            } else {
                alternate
            },
            e,
            k,
            init_d,
            d,
            c,
            (fuel - 1) as nat,
        ),
{
    let f = (fuel - 1) as nat;
    assert(eval_spec(Expression::Literal(Literal::Bool(b)), e, k, init_d, d, c, f) == step_ok(
        Either::Left(Value::Literal(Literal::Bool(b))),
        e,
        c,
    ));
}

/// Missing-set monotone refinement: whenever the identifier fixpoint retries,
/// the tried domain strictly grows — the retry's tried domain covers the old
/// one and holds at least one new dimension — and the whole fixpoint step is
/// exactly that retry.
pub proof fn lemma_fix_tried_strictly_grows(
    x: Name,
    e: Environment,
    k: Context,
    init_d: Domain,
    dd: Domain,
    d: Domain,
    c: Cache,
    fuel: nat,
    d0: Domain,
)
    requires
        fuel >= 1,
        eval_id_memo_spec(x, e, k, init_d, dd, c, (fuel - 1) as nat).res == Ok::<
            Either<Value, Domain>,
            crate::evaluator::Error,
        >(Either::Right(d0)),
        d0.spec_is_subset(d),
        d0.spec_is_subset(k.spec_domain()),
        !d0.spec_is_subset(dd),
    ensures
        dd.spec_is_subset(dd.spec_union(d0)),
        !dd.spec_union(d0).spec_is_subset(dd),
        eval_id_fix_spec(x, e, k, init_d, dd, d, c, fuel) == ({
            let s0 = eval_id_memo_spec(x, e, k, init_d, dd, c, (fuel - 1) as nat);
            eval_id_fix_spec(
                x,
                s0.env,
                k,
                init_d,
                dd.spec_union(d0),
                d,
                s0.cache,
                (fuel - 1) as nat,
            )
        }),
{
    crate::domain::lemma_union_strict_growth(dd, d0);
}

/// Whether every entry of `old` is still present in `new`, in place: `old`
/// is a suffix of `new`, and `new` only added entries in front.
pub open spec fn cache_extends(new: Cache, old: Cache) -> bool
    decreases new.0,
{
    new == old || match new.0 {
        crate::cache::CacheList::Cons(_, t) => cache_extends(Cache(*t), old),
        crate::cache::CacheList::Nil => false,
    }
}

/// Whether every binding of `old` is still present in `new`, in place: `old`
/// is a suffix of `new`, and `new` only added bindings in front.
pub open spec fn env_extends(new: Environment, old: Environment) -> bool
    decreases new.0,
{
    new == old || match new.0 {
        crate::environment::DefList::Cons(_, t) => env_extends(Environment(*t), old),
        crate::environment::DefList::Nil => false,
    }
}

pub proof fn lemma_cache_extends_trans(a: Cache, b: Cache, c: Cache)
    requires
        cache_extends(a, b),
        cache_extends(b, c),
    ensures
        cache_extends(a, c),
    decreases a.0,
{
    if a == b {
    } else {
        match a.0 {
            crate::cache::CacheList::Cons(_, t) => {
                lemma_cache_extends_trans(Cache(*t), b, c);
            },
            crate::cache::CacheList::Nil => {},
        }
    }
}

pub proof fn lemma_env_extends_trans(a: Environment, b: Environment, c: Environment)
    requires
        env_extends(a, b),
        env_extends(b, c),
    ensures
        env_extends(a, c),
    decreases a.0,
{
    if a == b {
    } else {
        match a.0 {
            crate::environment::DefList::Cons(_, t) => {
                lemma_env_extends_trans(Environment(*t), b, c);
            },
            crate::environment::DefList::Nil => {},
        }
    }
}

/// Adding a cache entry keeps every existing entry.
pub proof fn lemma_cache_add_extends(c: Cache, x: Name, k: Context, v: Either<Value, Domain>)
    ensures
        cache_extends(c.spec_add(x, k, v), c),
{
    assert(cache_extends(c, c));
}

/// Merging bindings in keeps every existing binding.
pub proof fn lemma_env_merge_extends(e: Environment, other: Environment)
    ensures
        env_extends(e.spec_merge(other), e),
    decreases other.0,
{
    match other.0 {
        crate::environment::DefList::Nil => {
            assert(e.spec_merge(other) == e);
        },
        crate::environment::DefList::Cons(h, t) => {
            lemma_env_merge_extends(e, Environment(*t));
            assert(e.spec_merge(other).0 == crate::environment::DefList::Cons(
                h,
                Box::new(e.spec_merge(Environment(*t)).0),
            ));
        },
    }
}

/// The environment is append-only and the cache grows monotonically: one
/// evaluation step only ever adds bindings and cache entries in front of the
/// existing ones, whatever the expression and however the step ends.
pub proof fn lemma_eval_monotone(
    x: Expression,
    e: Environment,
    k: Context,
    init_d: Domain,
    d: Domain,
    c: Cache,
    fuel: nat,
)
    ensures
        ({
            let s = eval_spec(x, e, k, init_d, d, c, fuel);
            env_extends(s.env, e) && cache_extends(s.cache, c)
        }),
    decreases fuel,
{
    if fuel == 0 {
    } else {
        let f = (fuel - 1) as nat;
        match x {
            Expression::Literal(_) => {},
            Expression::Dimension(_) => {},
            Expression::Identifier(id) => {
                lemma_fix_monotone(id, e, k, init_d, Domain::spec_empty(), d, c, f);
            },
            Expression::Operator(_) => {},
            Expression::Sequence(list) => {
                lemma_sequence_monotone(list, e, k, init_d, d, c, f);
            },
            Expression::TupleBuilder(list) => {
                lemma_tuples_monotone(
                    list,
                    e,
                    k,
                    init_d,
                    d,
                    c,
                    Context(crate::context::TupleList::Nil),
                    Domain::spec_empty(),
                    f,
                );
            },
            Expression::BaseAbstraction(_) => {},
            Expression::ValueAbstraction(_) => {},
            Expression::Application(list) => match list {
                ExprList::Nil => {},
                ExprList::Cons(op_expr, arg_exprs) => {
                    lemma_eval_monotone(*op_expr, e, k, init_d, d, c, f);
                    let s0 = eval_spec(*op_expr, e, k, init_d, d, c, f);
                    if s0.res is Ok {
                        lemma_args_monotone(
                            *arg_exprs,
                            s0.env,
                            k,
                            init_d,
                            d,
                            s0.cache,
                            ValueList::Nil,
                            Domain::spec_empty(),
                            f,
                        );
                        let s1 = eval_args_spec(
                            *arg_exprs,
                            s0.env,
                            k,
                            init_d,
                            d,
                            s0.cache,
                            ValueList::Nil,
                            Domain::spec_empty(),
                            f,
                        );
                        lemma_env_extends_trans(s1.env, s0.env, e);
                        lemma_cache_extends_trans(s1.cache, s0.cache, c);
                    }
                },
            },
            Expression::If(ife) => {
                lemma_eval_monotone(ife.condition, e, k, init_d, d, c, f);
                let s0 = eval_spec(ife.condition, e, k, init_d, d, c, f);
                match s0.res {
                    Ok(Either::Left(Value::Literal(Literal::Bool(b)))) => {
                        let branch = if b {
                            ife.consequent
                        } else {
                            ife.alternate
                        };
                        lemma_eval_monotone(branch, s0.env, k, init_d, d, s0.cache, f);
                        let s1 = eval_spec(branch, s0.env, k, init_d, d, s0.cache, f);
                        lemma_env_extends_trans(s1.env, s0.env, e);
                        lemma_cache_extends_trans(s1.cache, s0.cache, c);
                    },
                    _ => {},
                }
            },
            Expression::WhereVar(wv) => {
                lemma_env_merge_extends(e, wv.rhs);
                lemma_eval_monotone(wv.lhs, e.spec_merge(wv.rhs), k, init_d, d, c, f);
                let s0 = eval_spec(wv.lhs, e.spec_merge(wv.rhs), k, init_d, d, c, f);
                lemma_env_extends_trans(s0.env, e.spec_merge(wv.rhs), e);
            },
            Expression::Query(e0) => {
                lemma_eval_monotone(*e0, e, k, init_d, d, c, f);
            },
            Expression::Perturb(p) => {
                lemma_eval_monotone(p.rhs, e, k, init_d, d, c, f);
                let s0 = eval_spec(p.rhs, e, k, init_d, d, c, f);
                match s0.res {
                    Ok(Either::Left(Value::Context(k1))) => {
                        lemma_eval_monotone(
                            p.lhs,
                            s0.env,
                            k.spec_perturb(k1),
                            init_d,
                            d.spec_union(k1.spec_domain()),
                            s0.cache,
                            f,
                        );
                        let s1 = eval_spec(
                            p.lhs,
                            s0.env,
                            k.spec_perturb(k1),
                            init_d,
                            d.spec_union(k1.spec_domain()),
                            s0.cache,
                            f,
                        );
                        lemma_env_extends_trans(s1.env, s0.env, e);
                        lemma_cache_extends_trans(s1.cache, s0.cache, c);
                    },
                    _ => {},
                }
            },
            Expression::BaseApplication(bapp) => {
                lemma_eval_monotone(bapp.lhs, e, k, init_d, d, c, f);
                let s0 = eval_spec(bapp.lhs, e, k, init_d, d, c, f);
                if s0.res is Ok {
                    lemma_args_monotone(
                        bapp.args,
                        s0.env,
                        k,
                        init_d,
                        d,
                        s0.cache,
                        ValueList::Nil,
                        Domain::spec_empty(),
                        f,
                    );
                    let s1 = eval_args_spec(
                        bapp.args,
                        s0.env,
                        k,
                        init_d,
                        d,
                        s0.cache,
                        ValueList::Nil,
                        Domain::spec_empty(),
                        f,
                    );
                    lemma_env_extends_trans(s1.env, s0.env, e);
                    lemma_cache_extends_trans(s1.cache, s0.cache, c);
                    match s1.res {
                        Ok((args, missing)) => {
                            if missing.spec_is_empty() {
                                match s0.res {
                                    Ok(Either::Left(Value::BaseAbstraction(ba))) => {
                                        if ba.dimensions.spec_len() == args.spec_len() {
                                            lemma_eval_monotone(
                                                ba.body,
                                                s1.env,
                                                k,
                                                init_d,
                                                d,
                                                s1.cache,
                                                f,
                                            );
                                            let s2 = eval_spec(
                                                ba.body,
                                                s1.env,
                                                k,
                                                init_d,
                                                d,
                                                s1.cache,
                                                f,
                                            );
                                            lemma_env_extends_trans(s2.env, s1.env, e);
                                            lemma_cache_extends_trans(s2.cache, s1.cache, c);
                                        }
                                    },
                                    _ => {},
                                }
                            }
                        },
                        _ => {},
                    }
                }
            },
            Expression::ValueApplication(vapp) => {
                lemma_eval_monotone(vapp.lhs, e, k, init_d, d, c, f);
                let s0 = eval_spec(vapp.lhs, e, k, init_d, d, c, f);
                if s0.res is Ok {
                    lemma_args_monotone(
                        vapp.args,
                        s0.env,
                        k,
                        init_d,
                        d,
                        s0.cache,
                        ValueList::Nil,
                        Domain::spec_empty(),
                        f,
                    );
                    let s1 = eval_args_spec(
                        vapp.args,
                        s0.env,
                        k,
                        init_d,
                        d,
                        s0.cache,
                        ValueList::Nil,
                        Domain::spec_empty(),
                        f,
                    );
                    lemma_env_extends_trans(s1.env, s0.env, e);
                    lemma_cache_extends_trans(s1.cache, s0.cache, c);
                    match s1.res {
                        Ok((args, missing)) => {
                            if missing.spec_is_empty() {
                                match s0.res {
                                    Ok(Either::Left(Value::ValueAbstraction(va))) => {
                                        if va.dimensions.spec_len() == args.spec_len() {
                                            match crate::evaluator::spec_bind_params(
                                                va.dimensions,
                                                args,
                                                Context(crate::context::TupleList::Nil),
                                                Domain::spec_empty(),
                                            ) {
                                                Some((ctx, _dom)) => {
                                                    lemma_eval_monotone(
                                                        va.body,
                                                        s1.env,
                                                        k.spec_perturb(ctx),
                                                        init_d,
                                                        d,
                                                        s1.cache,
                                                        f,
                                                    );
                                                    let s2 = eval_spec(
                                                        va.body,
                                                        s1.env,
                                                        k.spec_perturb(ctx),
                                                        init_d,
                                                        d,
                                                        s1.cache,
                                                        f,
                                                    );
                                                    lemma_env_extends_trans(s2.env, s1.env, e);
                                                    lemma_cache_extends_trans(
                                                        s2.cache,
                                                        s1.cache,
                                                        c,
                                                    );
                                                },
                                                None => {},
                                            }
                                        }
                                    },
                                    _ => {},
                                }
                            }
                        },
                        _ => {},
                    }
                }
            },
            Expression::FunctionApplication(fa) => match e.spec_lookup(fa.id) {
                None => {},
                Some(callee) => {
                    lemma_eval_monotone(callee, e, k, init_d, d, c, f);
                    let s0 = eval_spec(callee, e, k, init_d, d, c, f);
                    if s0.res is Ok {
                        lemma_args_monotone(
                            fa.base_args,
                            s0.env,
                            k,
                            init_d,
                            d,
                            s0.cache,
                            ValueList::Nil,
                            Domain::spec_empty(),
                            f,
                        );
                        let s1 = eval_args_spec(
                            fa.base_args,
                            s0.env,
                            k,
                            init_d,
                            d,
                            s0.cache,
                            ValueList::Nil,
                            Domain::spec_empty(),
                            f,
                        );
                        lemma_env_extends_trans(s1.env, s0.env, e);
                        lemma_cache_extends_trans(s1.cache, s0.cache, c);
                        match s1.res {
                            Ok((base_args, m1)) => {
                                lemma_args_monotone(
                                    fa.value_args,
                                    s1.env,
                                    k,
                                    init_d,
                                    d,
                                    s1.cache,
                                    ValueList::Nil,
                                    m1,
                                    f,
                                );
                                let s2 = eval_args_spec(
                                    fa.value_args,
                                    s1.env,
                                    k,
                                    init_d,
                                    d,
                                    s1.cache,
                                    ValueList::Nil,
                                    m1,
                                    f,
                                );
                                lemma_env_extends_trans(s2.env, s1.env, e);
                                lemma_cache_extends_trans(s2.cache, s1.cache, c);
                                match s2.res {
                                    Ok((value_args, missing)) => {
                                        lemma_funapp_tail_monotone(
                                            match s0.res {
                                                Ok(a) => a,
                                                Err(_) => Either::Right(Domain::spec_empty()),
                                            },
                                            base_args,
                                            value_args,
                                            missing,
                                            s2.env,
                                            k,
                                            init_d,
                                            d,
                                            s2.cache,
                                            f,
                                        );
                                        let s3 = crate::evaluator::eval_funapp_tail_spec(
                                            match s0.res {
                                                Ok(a) => a,
                                                Err(_) => Either::Right(Domain::spec_empty()),
                                            },
                                            base_args,
                                            value_args,
                                            missing,
                                            s2.env,
                                            k,
                                            init_d,
                                            d,
                                            s2.cache,
                                            f,
                                        );
                                        lemma_env_extends_trans(s3.env, s2.env, e);
                                        lemma_cache_extends_trans(s3.cache, s2.cache, c);
                                    },
                                    _ => {},
                                }
                            },
                            _ => {},
                        }
                    }
                },
            },
            Expression::IntensionBuilder(ie) => {
                lemma_doms_monotone(
                    ie.domain,
                    e,
                    k,
                    init_d,
                    d,
                    c,
                    Domain::spec_empty(),
                    Domain::spec_empty(),
                    f,
                );
            },
            Expression::IntensionApplication(ia) => {
                lemma_eval_monotone(*ia, e, k, init_d, d, c, f);
                let s0 = eval_spec(*ia, e, k, init_d, d, c, f);
                match s0.res {
                    Ok(Either::Left(Value::Intension(intens))) => {
                        lemma_eval_monotone(
                            *intens.x,
                            s0.env,
                            k.spec_perturb(intens.k),
                            init_d,
                            d.spec_union(Domain::spec_from_list(intens.d)),
                            s0.cache,
                            f,
                        );
                        let s1 = eval_spec(
                            *intens.x,
                            s0.env,
                            k.spec_perturb(intens.k),
                            init_d,
                            d.spec_union(Domain::spec_from_list(intens.d)),
                            s0.cache,
                            f,
                        );
                        lemma_env_extends_trans(s1.env, s0.env, e);
                        lemma_cache_extends_trans(s1.cache, s0.cache, c);
                    },
                    _ => {},
                }
            },
            Expression::WhereDim(wd) => {
                lemma_wheredim_monotone(
                    wd.rhs.0,
                    wd.nat_q,
                    wd.dim_q,
                    e,
                    k,
                    init_d,
                    d,
                    c,
                    Context(crate::context::TupleList::Nil),
                    Domain::spec_empty(),
                    Domain::spec_empty(),
                    f,
                );
                let s0 = crate::evaluator::eval_wheredim_rhs_spec(
                    wd.rhs.0,
                    wd.nat_q,
                    wd.dim_q,
                    e,
                    k,
                    init_d,
                    d,
                    c,
                    Context(crate::context::TupleList::Nil),
                    Domain::spec_empty(),
                    Domain::spec_empty(),
                    f,
                );
                match s0.res {
                    Ok((ctx, dom, missing)) => {
                        if missing.spec_is_empty() {
                            lemma_eval_monotone(
                                wd.lhs,
                                s0.env,
                                k.spec_perturb(ctx),
                                init_d,
                                d.spec_union(dom),
                                s0.cache,
                                f,
                            );
                            let s1 = eval_spec(
                                wd.lhs,
                                s0.env,
                                k.spec_perturb(ctx),
                                init_d,
                                d.spec_union(dom),
                                s0.cache,
                                f,
                            );
                            lemma_env_extends_trans(s1.env, s0.env, e);
                            lemma_cache_extends_trans(s1.cache, s0.cache, c);
                        }
                    },
                    _ => {},
                }
            },
        }
    }
}

proof fn lemma_sequence_monotone(
    list: ExprList,
    e: Environment,
    k: Context,
    init_d: Domain,
    d: Domain,
    c: Cache,
    fuel: nat,
)
    ensures
        ({
            let s = crate::evaluator::eval_sequence_spec(list, e, k, init_d, d, c, fuel);
            env_extends(s.env, e) && cache_extends(s.cache, c)
        }),
    decreases fuel,
{
    if fuel == 0 {
    } else {
        let f = (fuel - 1) as nat;
        match list {
            ExprList::Nil => {},
            ExprList::Cons(h, t) => {
                lemma_eval_monotone(*h, e, k, init_d, d, c, f);
                let s0 = eval_spec(*h, e, k, init_d, d, c, f);
                if s0.res is Ok {
                    match *t {
                        ExprList::Nil => {},
                        _ => {
                            lemma_sequence_monotone(*t, s0.env, k, init_d, d, s0.cache, f);
                            let s1 = crate::evaluator::eval_sequence_spec(
                                *t,
                                s0.env,
                                k,
                                init_d,
                                d,
                                s0.cache,
                                f,
                            );
                            lemma_env_extends_trans(s1.env, s0.env, e);
                            lemma_cache_extends_trans(s1.cache, s0.cache, c);
                        },
                    }
                }
            },
        }
    }
}

proof fn lemma_tuples_monotone(
    list: TupleExprList,
    e: Environment,
    k: Context,
    init_d: Domain,
    d: Domain,
    c: Cache,
    acc: Context,
    missing: Domain,
    fuel: nat,
)
    ensures
        ({
            let s = eval_tuples_spec(list, e, k, init_d, d, c, acc, missing, fuel);
            env_extends(s.env, e) && cache_extends(s.cache, c)
        }),
    decreases fuel,
{
    if fuel == 0 {
    } else {
        let f = (fuel - 1) as nat;
        match list {
            TupleExprList::Nil => {},
            TupleExprList::Cons(h, t) => {
                lemma_eval_monotone(h.lhs, e, k, init_d, d, c, f);
                let s0 = eval_spec(h.lhs, e, k, init_d, d, c, f);
                if s0.res is Ok {
                    lemma_eval_monotone(h.rhs, s0.env, k, init_d, d, s0.cache, f);
                    let s1 = eval_spec(h.rhs, s0.env, k, init_d, d, s0.cache, f);
                    lemma_env_extends_trans(s1.env, s0.env, e);
                    lemma_cache_extends_trans(s1.cache, s0.cache, c);
                    match (s0.res, s1.res) {
                        (Ok(lhs_res), Ok(rhs_res)) => {
                            let next = match (lhs_res, rhs_res) {
                                (Either::Left(Value::Dimension(di)), Either::Left(rl)) => Some(
                                    (acc.spec_push(*di, rl), missing),
                                ),
                                (Either::Left(_), Either::Left(_)) => None,
                                (Either::Left(_), Either::Right(rr)) => Some(
                                    (acc, missing.spec_union(rr)),
                                ),
                                (Either::Right(r), Either::Left(_)) => Some(
                                    (acc, missing.spec_union(r)),
                                ),
                                (Either::Right(r), Either::Right(rr)) => Some(
                                    (acc, missing.spec_union(r).spec_union(rr)),
                                ),
                            };
                            match next {
                                Some((acc2, missing2)) => {
                                    lemma_tuples_monotone(
                                        *t,
                                        s1.env,
                                        k,
                                        init_d,
                                        d,
                                        s1.cache,
                                        acc2,
                                        missing2,
                                        f,
                                    );
                                    let s2 = eval_tuples_spec(
                                        *t,
                                        s1.env,
                                        k,
                                        init_d,
                                        d,
                                        s1.cache,
                                        acc2,
                                        missing2,
                                        f,
                                    );
                                    lemma_env_extends_trans(s2.env, s1.env, e);
                                    lemma_cache_extends_trans(s2.cache, s1.cache, c);
                                },
                                None => {},
                            }
                        },
                        _ => {},
                    }
                }
            },
        }
    }
}

proof fn lemma_args_monotone(
    list: ExprList,
    e: Environment,
    k: Context,
    init_d: Domain,
    d: Domain,
    c: Cache,
    acc: ValueList,
    missing: Domain,
    fuel: nat,
)
    ensures
        ({
            let s = eval_args_spec(list, e, k, init_d, d, c, acc, missing, fuel);
            env_extends(s.env, e) && cache_extends(s.cache, c)
        }),
    decreases fuel,
{
    if fuel == 0 {
    } else {
        let f = (fuel - 1) as nat;
        match list {
            ExprList::Nil => {},
            ExprList::Cons(h, t) => {
                lemma_eval_monotone(*h, e, k, init_d, d, c, f);
                let s0 = eval_spec(*h, e, k, init_d, d, c, f);
                match s0.res {
                    Ok(Either::Left(v)) => {
                        lemma_args_monotone(
                            *t,
                            s0.env,
                            k,
                            init_d,
                            d,
                            s0.cache,
                            acc.spec_snoc(v),
                            missing,
                            f,
                        );
                        let s1 = eval_args_spec(
                            *t,
                            s0.env,
                            k,
                            init_d,
                            d,
                            s0.cache,
                            acc.spec_snoc(v),
                            missing,
                            f,
                        );
                        lemma_env_extends_trans(s1.env, s0.env, e);
                        lemma_cache_extends_trans(s1.cache, s0.cache, c);
                    },
                    Ok(Either::Right(r)) => {
                        lemma_args_monotone(
                            *t,
                            s0.env,
                            k,
                            init_d,
                            d,
                            s0.cache,
                            acc,
                            missing.spec_union(r),
                            f,
                        );
                        let s1 = eval_args_spec(
                            *t,
                            s0.env,
                            k,
                            init_d,
                            d,
                            s0.cache,
                            acc,
                            missing.spec_union(r),
                            f,
                        );
                        lemma_env_extends_trans(s1.env, s0.env, e);
                        lemma_cache_extends_trans(s1.cache, s0.cache, c);
                    },
                    Err(_) => {},
                }
            },
        }
    }
}

proof fn lemma_funapp_tail_monotone(
    abs_res: Either<Value, Domain>,
    base_args: ValueList,
    value_args: ValueList,
    missing: Domain,
    e: Environment,
    k: Context,
    init_d: Domain,
    d: Domain,
    c: Cache,
    fuel: nat,
)
    ensures
        ({
            let s = crate::evaluator::eval_funapp_tail_spec(
                abs_res,
                base_args,
                value_args,
                missing,
                e,
                k,
                init_d,
                d,
                c,
                fuel,
            );
            env_extends(s.env, e) && cache_extends(s.cache, c)
        }),
    decreases fuel,
{
    if fuel == 0 {
    } else {
        let f = (fuel - 1) as nat;
        if missing.spec_is_empty() {
            match abs_res {
                Either::Left(Value::BaseAbstraction(ba)) => {
                    match crate::evaluator::spec_bind_params(
                        ba.dimensions,
                        base_args,
                        Context(crate::context::TupleList::Nil),
                        Domain::spec_empty(),
                    ) {
                        None => {},
                        Some(_) => {
                            lemma_eval_monotone(ba.body, e, k, init_d, d, c, f);
                            let s0 = eval_spec(ba.body, e, k, init_d, d, c, f);
                            match s0.res {
                                Ok(Either::Left(Value::ValueAbstraction(va))) => {
                                    match crate::evaluator::spec_bind_params(
                                        va.dimensions,
                                        value_args,
                                        Context(crate::context::TupleList::Nil),
                                        Domain::spec_empty(),
                                    ) {
                                        None => {},
                                        Some((ctx, dom)) => {
                                            lemma_eval_monotone(
                                                va.body,
                                                s0.env,
                                                k.spec_perturb(ctx),
                                                init_d,
                                                d.spec_union(dom),
                                                s0.cache,
                                                f,
                                            );
                                            let s1 = eval_spec(
                                                va.body,
                                                s0.env,
                                                k.spec_perturb(ctx),
                                                init_d,
                                                d.spec_union(dom),
                                                s0.cache,
                                                f,
                                            );
                                            lemma_env_extends_trans(s1.env, s0.env, e);
                                            lemma_cache_extends_trans(s1.cache, s0.cache, c);
                                        },
                                    }
                                },
                                _ => {},
                            }
                        },
                    }
                },
                Either::Left(Value::ValueAbstraction(va)) => {
                    match crate::evaluator::spec_bind_params(
                        va.dimensions,
                        value_args,
                        Context(crate::context::TupleList::Nil),
                        Domain::spec_empty(),
                    ) {
                        None => {},
                        Some((ctx, dom)) => {
                            lemma_eval_monotone(
                                va.body,
                                e,
                                k.spec_perturb(ctx),
                                init_d,
                                d.spec_union(dom),
                                c,
                                f,
                            );
                        },
                    }
                },
                _ => {},
            }
        }
    }
}

proof fn lemma_doms_monotone(
    list: ExprList,
    e: Environment,
    k: Context,
    init_d: Domain,
    d: Domain,
    c: Cache,
    dims: Domain,
    missing: Domain,
    fuel: nat,
)
    ensures
        ({
            let s = crate::evaluator::eval_doms_spec(list, e, k, init_d, d, c, dims, missing, fuel);
            env_extends(s.env, e) && cache_extends(s.cache, c)
        }),
    decreases fuel,
{
    if fuel == 0 {
    } else {
        let f = (fuel - 1) as nat;
        match list {
            ExprList::Nil => {},
            ExprList::Cons(h, t) => {
                lemma_eval_monotone(*h, e, k, init_d, d, c, f);
                let s0 = eval_spec(*h, e, k, init_d, d, c, f);
                match s0.res {
                    Ok(Either::Left(Value::Dimension(di))) => {
                        lemma_doms_monotone(
                            *t,
                            s0.env,
                            k,
                            init_d,
                            d,
                            s0.cache,
                            dims.spec_push(*di),
                            missing,
                            f,
                        );
                        let s1 = crate::evaluator::eval_doms_spec(
                            *t,
                            s0.env,
                            k,
                            init_d,
                            d,
                            s0.cache,
                            dims.spec_push(*di),
                            missing,
                            f,
                        );
                        lemma_env_extends_trans(s1.env, s0.env, e);
                        lemma_cache_extends_trans(s1.cache, s0.cache, c);
                    },
                    Ok(Either::Right(r)) => {
                        lemma_doms_monotone(
                            *t,
                            s0.env,
                            k,
                            init_d,
                            d,
                            s0.cache,
                            dims,
                            missing.spec_union(r),
                            f,
                        );
                        let s1 = crate::evaluator::eval_doms_spec(
                            *t,
                            s0.env,
                            k,
                            init_d,
                            d,
                            s0.cache,
                            dims,
                            missing.spec_union(r),
                            f,
                        );
                        lemma_env_extends_trans(s1.env, s0.env, e);
                        lemma_cache_extends_trans(s1.cache, s0.cache, c);
                    },
                    _ => {},
                }
            },
        }
    }
}

proof fn lemma_wheredim_monotone(
    list: crate::expression::DimExprList,
    nat_q: u32,
    dim_q: crate::value::Dimension,
    e: Environment,
    k: Context,
    init_d: Domain,
    d: Domain,
    c: Cache,
    ctx: Context,
    dom: Domain,
    missing: Domain,
    fuel: nat,
)
    ensures
        ({
            let s = crate::evaluator::eval_wheredim_rhs_spec(
                list,
                nat_q,
                dim_q,
                e,
                k,
                init_d,
                d,
                c,
                ctx,
                dom,
                missing,
                fuel,
            );
            env_extends(s.env, e) && cache_extends(s.cache, c)
        }),
    decreases fuel,
{
    if fuel == 0 {
    } else {
        let f = (fuel - 1) as nat;
        match list {
            crate::expression::DimExprList::Nil => {},
            crate::expression::DimExprList::Cons(h, t) => {
                lemma_eval_monotone(h.rhs, e, k, init_d, d, c, f);
                let s0 = eval_spec(h.rhs, e, k, init_d, d, c, f);
                match s0.res {
                    Ok(Either::Left(v)) => match k.spec_lookup(dim_q) {
                        Some(Value::Literal(Literal::Int32(depth))) => {
                            let (di, div) = crate::evaluator::spec_generate_dimension(
                                h.lhs.i,
                                nat_q,
                                depth,
                            );
                            lemma_wheredim_monotone(
                                *t,
                                nat_q,
                                dim_q,
                                s0.env,
                                k,
                                init_d,
                                d,
                                s0.cache,
                                ctx.spec_push(h.lhs, div).spec_push(di, v),
                                dom.spec_push(h.lhs),
                                missing,
                                f,
                            );
                            let s1 = crate::evaluator::eval_wheredim_rhs_spec(
                                *t,
                                nat_q,
                                dim_q,
                                s0.env,
                                k,
                                init_d,
                                d,
                                s0.cache,
                                ctx.spec_push(h.lhs, div).spec_push(di, v),
                                dom.spec_push(h.lhs),
                                missing,
                                f,
                            );
                            lemma_env_extends_trans(s1.env, s0.env, e);
                            lemma_cache_extends_trans(s1.cache, s0.cache, c);
                        },
                        _ => {},
                    },
                    Ok(Either::Right(r)) => {
                        lemma_wheredim_monotone(
                            *t,
                            nat_q,
                            dim_q,
                            s0.env,
                            k,
                            init_d,
                            d,
                            s0.cache,
                            ctx,
                            dom,
                            missing.spec_union(r),
                            f,
                        );
                        let s1 = crate::evaluator::eval_wheredim_rhs_spec(
                            *t,
                            nat_q,
                            dim_q,
                            s0.env,
                            k,
                            init_d,
                            d,
                            s0.cache,
                            ctx,
                            dom,
                            missing.spec_union(r),
                            f,
                        );
                        lemma_env_extends_trans(s1.env, s0.env, e);
                        lemma_cache_extends_trans(s1.cache, s0.cache, c);
                    },
                    _ => {},
                }
            },
        }
    }
}

proof fn lemma_fix_monotone(
    x: Name,
    e: Environment,
    k: Context,
    init_d: Domain,
    dd: Domain,
    d: Domain,
    c: Cache,
    fuel: nat,
)
    ensures
        ({
            let s = eval_id_fix_spec(x, e, k, init_d, dd, d, c, fuel);
            env_extends(s.env, e) && cache_extends(s.cache, c)
        }),
    decreases fuel,
{
    if fuel == 0 {
    } else {
        let f = (fuel - 1) as nat;
        lemma_memo_monotone(x, e, k, init_d, dd, c, f);
        let s0 = eval_id_memo_spec(x, e, k, init_d, dd, c, f);
        match s0.res {
            Ok(Either::Right(d0)) => {
                if d0.spec_is_subset(d) && d0.spec_is_subset(k.spec_domain())
                    && !d0.spec_is_subset(dd) {
                    lemma_fix_monotone(x, s0.env, k, init_d, dd.spec_union(d0), d, s0.cache, f);
                    let s1 = eval_id_fix_spec(
                        x,
                        s0.env,
                        k,
                        init_d,
                        dd.spec_union(d0),
                        d,
                        s0.cache,
                        f,
                    );
                    lemma_env_extends_trans(s1.env, s0.env, e);
                    lemma_cache_extends_trans(s1.cache, s0.cache, c);
                }
            },
            _ => {},
        }
    }
}

proof fn lemma_memo_monotone(
    x: Name,
    e: Environment,
    k: Context,
    init_d: Domain,
    dd: Domain,
    c: Cache,
    fuel: nat,
)
    ensures
        ({
            let s = eval_id_memo_spec(x, e, k, init_d, dd, c, fuel);
            env_extends(s.env, e) && cache_extends(s.cache, c)
        }),
    decreases fuel,
{
    if fuel == 0 {
    } else {
        let f = (fuel - 1) as nat;
        let kk = k.spec_restrict(dd);
        match c.spec_find(x, kk) {
            Some(_) => {},
            None => match e.spec_lookup(x) {
                None => {},
                Some(def) => {
                    lemma_eval_monotone(def, e, k, init_d, dd, c, f);
                    let s0 = eval_spec(def, e, k, init_d, dd, c, f);
                    match s0.res {
                        Ok(v) => {
                            lemma_cache_add_extends(s0.cache, x, kk, v);
                            lemma_cache_extends_trans(s0.cache.spec_add(x, kk, v), s0.cache, c);
                        },
                        Err(_) => {},
                    }
                },
            },
        }
    }
}

/// Literal identity holds of the whole pipeline too: a literal surface
/// program desugars to itself and the driver returns it unchanged.
pub proof fn lemma_driver_literal(lit: Literal, fuel: nat)
    requires
        fuel >= 1,
    ensures
        crate::driver_spec(crate::l1::L1Expression::Literal(lit), fuel) == Ok::<
            Either<Value, Domain>,
            crate::evaluator::Error,
        >(Either::Left(Value::Literal(lit))),
{
    let ds = crate::desugar::desugar_spec(
        crate::l1::L1Expression::Literal(lit),
        crate::desugar::DimMap(crate::desugar::DimMapList::Nil),
        crate::desugar::NameSet(crate::desugar::NameList::Nil),
        0,
        Domain::spec_empty(),
    );
    assert(ds.res == Ok::<_, crate::evaluator::Error>(
        (Expression::Literal(lit), Domain::spec_empty()),
    ));
}

} // verus!
