//! End-to-end evaluation tests: surface programs built by hand, run through
//! the driver, and checked against the values the semantics assigns them.

use gaia::domain::Domain;
use gaia::either::Either;
use gaia::evaluate;
use gaia::expression::Expression;
use gaia::l1::{
    L1ContextExpression, L1DefList, L1Definition, L1DimDeclList, L1DimensionExpression,
    L1Environment, L1ExprList, L1Expression, L1FunctionApplication, L1FunctionDeclaration,
    L1IfExpression, L1IntensionExpression, L1PerturbExpression, L1TupleExpression, L1TupleList,
    L1ValueAbstraction, L1WhereDimExpression, L1WhereVarExpression,
};
use gaia::name::Name;
use gaia::value::{Dimension, Literal, Value};

const FUEL: u64 = 10_000_000;

fn nm(s: &str) -> Name {
    Name::from_bytes(s.as_bytes())
}

fn num(n: u32) -> L1Expression {
    L1Expression::Literal(Literal::Int32(n))
}

fn boolean_lit(b: bool) -> L1Expression {
    L1Expression::Literal(Literal::Bool(b))
}

fn ident(s: &str) -> L1Expression {
    L1Expression::Identifier(nm(s))
}

fn exprs(items: Vec<L1Expression>) -> L1ExprList {
    let mut r = L1ExprList::Nil;
    for item in items.into_iter().rev() {
        r = L1ExprList::Cons(Box::new(item), Box::new(r));
    }
    r
}

fn app(op: &str, args: Vec<L1Expression>) -> L1Expression {
    let mut list = vec![L1Expression::Operator(nm(op))];
    list.extend(args);
    L1Expression::Application(exprs(list))
}

fn query(s: &str) -> L1Expression {
    L1Expression::Query(Box::new(ident(s)))
}

fn tuples(pairs: Vec<(L1Expression, L1Expression)>) -> L1Expression {
    let mut r = L1TupleList::Nil;
    for (lhs, rhs) in pairs.into_iter().rev() {
        r = L1TupleList::Cons(Box::new(L1TupleExpression { lhs, rhs }), Box::new(r));
    }
    L1Expression::TupleBuilder(r)
}

fn perturb(lhs: L1Expression, rhs: L1Expression) -> L1Expression {
    L1Expression::Perturb(Box::new(L1PerturbExpression { lhs, rhs }))
}

fn ite(c: L1Expression, t: L1Expression, e: L1Expression) -> L1Expression {
    L1Expression::If(Box::new(L1IfExpression { condition: c, consequent: t, alternate: e }))
}

fn wherevar(lhs: L1Expression, defs: Vec<(&str, L1Expression)>) -> L1Expression {
    let mut r = L1DefList::Nil;
    for (id, equation) in defs.into_iter().rev() {
        r = L1DefList::Cons(
            Box::new(L1Definition { id: nm(id), equation }),
            Box::new(r),
        );
    }
    L1Expression::WhereVar(Box::new(L1WhereVarExpression { lhs, rhs: L1Environment(r) }))
}

fn wheredim(lhs: L1Expression, decls: Vec<(&str, L1Expression)>) -> L1Expression {
    let mut r = L1DimDeclList::Nil;
    for (id, rhs) in decls.into_iter().rev() {
        r = L1DimDeclList::Cons(
            Box::new(L1DimensionExpression { lhs: nm(id), rhs }),
            Box::new(r),
        );
    }
    L1Expression::WhereDim(Box::new(L1WhereDimExpression {
        lhs,
        rhs: L1ContextExpression(r),
    }))
}

fn lit_value(n: u32) -> Value {
    Value::Literal(Literal::Int32(n))
}

fn expect_value(r: Result<Either<Value, Domain>, gaia::evaluator::Error>) -> Value {
    match r {
        Ok(Either::Left(v)) => v,
        other => panic!("expected a value, found {:?}", other),
    }
}

#[test]
fn test_boolean() {
    let test_true = expect_value(evaluate(&boolean_lit(true), FUEL));
    let test_false = expect_value(evaluate(&boolean_lit(false), FUEL));
    assert_eq!(test_true, Value::Literal(Literal::Bool(true)));
    assert_eq!(test_false, Value::Literal(Literal::Bool(false)));
}

#[test]
fn test_integer() {
    let test_small_integer = expect_value(evaluate(&num(1234), FUEL));
    assert_eq!(test_small_integer, Value::Literal(Literal::Int32(1234)));
}

#[test]
fn test_expression() {
    let test_addition = expect_value(evaluate(&app("+", vec![num(100), num(100)]), FUEL));
    assert_eq!(test_addition, Value::Literal(Literal::Int32(200)));
}

#[test]
fn test_tuple_builder() {
    // [t <- 0, s <- 1] where dim t <- 0; dim s <- 0 end
    let program = wheredim(
        tuples(vec![(ident("t"), num(0)), (ident("s"), num(1))]),
        vec![("t", num(0)), ("s", num(0))],
    );
    let result = expect_value(evaluate(&program, FUEL));
    // The declared dimensions are freshened to integer-tagged dimensions at
    // activation depth 0.
    let fresh_t = Dimension { i: 0, v: lit_value(0) };
    let fresh_s = Dimension { i: 1, v: lit_value(0) };
    match result {
        Value::Context(k) => {
            let mut kk = gaia::context::Context::new();
            kk.push(fresh_t, lit_value(0));
            kk.push(fresh_s, lit_value(1));
            assert_eq!(k, kk);
        },
        other => panic!("expected a context, found {:?}", other),
    }
}

#[test]
fn test_if() {
    let taken = expect_value(evaluate(&ite(boolean_lit(true), num(1), num(2)), FUEL));
    assert_eq!(taken, lit_value(1));
    let other = expect_value(evaluate(&ite(boolean_lit(false), num(1), num(2)), FUEL));
    assert_eq!(other, lit_value(2));
}

#[test]
fn test_perturb() {
    // X @ [t <- 0] where dim t <- 0; X = #.t end
    let program = wheredim(
        wherevar(
            perturb(ident("X"), tuples(vec![(ident("t"), num(0))])),
            vec![("X", query("t"))],
        ),
        vec![("t", num(0))],
    );
    assert_eq!(expect_value(evaluate(&program, FUEL)), lit_value(0));

    // X @ [t <- 3, s <- 3] where dim t <- 0; dim s <- 0; X = #.t + #.s end
    let program2 = wheredim(
        wherevar(
            perturb(
                ident("X"),
                tuples(vec![(ident("t"), num(3)), (ident("s"), num(3))]),
            ),
            vec![("X", app("+", vec![query("t"), query("s")]))],
        ),
        vec![("t", num(0)), ("s", num(0))],
    );
    assert_eq!(expect_value(evaluate(&program2, FUEL)), lit_value(6));
}

#[test]
fn test_query() {
    // A query of a known dimension answers from the context; a query of an
    // unknown one reports it missing.
    let dt = Dimension { i: 7, v: Value::Identifier(nm("t")) };
    let d0 = Dimension { i: 0, v: Value::Identifier(nm("q")) };
    let mut k = gaia::context::Context::new();
    k.push(d0.dup(), Value::Dimension(Box::new(dt.dup())));
    k.push(dt.dup(), lit_value(5));
    let mut d = Domain::new();
    d.push(d0.dup());
    d.push(dt.dup());
    let mut e = gaia::environment::Environment::new();
    let mut c = gaia::cache::Cache::new();
    let q = Expression::Query(Box::new(Expression::Dimension(d0.dup())));

    let known = gaia::evaluator::evaluate(&q, &mut e, &k, &d, &d, &mut c, FUEL);
    assert_eq!(known, Ok(Either::Left(lit_value(5))));

    let mut d_small = Domain::new();
    d_small.push(d0.dup());
    let unknown = gaia::evaluator::evaluate(&q, &mut e, &k, &d_small, &d_small, &mut c, FUEL);
    let mut missing = Domain::new();
    missing.push(dt.dup());
    assert_eq!(unknown, Ok(Either::Right(missing)));
}

#[test]
fn test_variable_declaration() {
    let program = wherevar(ident("x"), vec![("x", num(42))]);
    assert_eq!(expect_value(evaluate(&program, FUEL)), lit_value(42));

    // The later binding of the same identifier wins.
    let shadowed = wherevar(ident("x"), vec![("x", num(1)), ("x", num(2))]);
    assert_eq!(expect_value(evaluate(&shadowed, FUEL)), lit_value(2));
}

#[test]
fn test_function_declaration() {
    // f ! x = #.x   declares a one-value-parameter function; it desugars to a
    // value abstraction over the dimension assigned to x.
    let fd = L1FunctionDeclaration {
        name: ident("f"),
        base_parameters: L1ExprList::Nil,
        value_parameters: exprs(vec![ident("x")]),
        name_parameters: L1ExprList::Nil,
        body: query("x"),
    };
    let mut dims = gaia::desugar::DimMap::new();
    let mut names = gaia::desugar::NameSet::new();
    let r = gaia::desugar::transform_l1_dimensions(
        &L1Expression::FunctionDeclaration(Box::new(fd)),
        &mut dims,
        &mut names,
        0,
        Domain::new(),
    );
    let (lowered, _) = r.expect("desugaring failed");
    let dx = Dimension { i: 0, v: Value::Identifier(nm("x")) };
    let expected = Expression::ValueAbstraction(Box::new(gaia::expression::ValueAbstraction {
        dimensions: gaia::value::DimList::Cons(
            Box::new(dx.dup()),
            Box::new(gaia::value::DimList::Nil),
        ),
        body: Expression::Query(Box::new(Expression::Dimension(dx))),
    }));
    assert_eq!(lowered, expected);
}

#[test]
fn test_function_declaration_without_parameters() {
    // A declaration with no base, value, or name parameters lowers to its
    // bare body: every abstraction layer is omitted.
    let fd = L1FunctionDeclaration {
        name: ident("c"),
        base_parameters: L1ExprList::Nil,
        value_parameters: L1ExprList::Nil,
        name_parameters: L1ExprList::Nil,
        body: num(7),
    };
    assert_eq!(fd.as_abstraction(), num(7));
    assert_eq!(
        gaia::desugar::l1_abstraction_from_fun_declaration(&fd, None, None),
        num(7),
    );
    let mut dims = gaia::desugar::DimMap::new();
    let mut names = gaia::desugar::NameSet::new();
    let r = gaia::desugar::transform_l1_dimensions(
        &L1Expression::FunctionDeclaration(Box::new(fd.dup())),
        &mut dims,
        &mut names,
        0,
        Domain::new(),
    );
    let (lowered, _) = r.expect("desugaring failed");
    assert_eq!(lowered, Expression::Literal(Literal::Int32(7)));

    // A bare use of the declared name therefore evaluates to the body's
    // value, not to an abstraction.
    let program = wherevar(
        ident("c"),
        vec![("c", L1Expression::FunctionDeclaration(Box::new(fd)))],
    );
    assert_eq!(expect_value(evaluate(&program, FUEL)), lit_value(7));
}

#[test]
fn test_function_application() {
    // fact 5 where fact ! n = if n <= 1 then 1 else n * fact (n - 1).
    // A value parameter is bound directly in the context, so its body reads
    // it as a bare identifier.
    let fact_body = ite(
        app("<=", vec![ident("n"), num(1)]),
        num(1),
        app(
            "*",
            vec![
                ident("n"),
                L1Expression::FunctionApplication(Box::new(L1FunctionApplication {
                    lhs: ident("fact"),
                    base_args: L1ExprList::Nil,
                    value_args: exprs(vec![app("-", vec![ident("n"), num(1)])]),
                    name_args: L1ExprList::Nil,
                })),
            ],
        ),
    );
    let fact = L1Expression::FunctionDeclaration(Box::new(L1FunctionDeclaration {
        name: ident("fact"),
        base_parameters: L1ExprList::Nil,
        value_parameters: exprs(vec![ident("n")]),
        name_parameters: L1ExprList::Nil,
        body: fact_body,
    }));
    let call = L1Expression::FunctionApplication(Box::new(L1FunctionApplication {
        lhs: ident("fact"),
        base_args: L1ExprList::Nil,
        value_args: exprs(vec![num(5)]),
        name_args: L1ExprList::Nil,
    }));
    let program = wherevar(call, vec![("fact", fact)]);
    assert_eq!(expect_value(evaluate(&program, FUEL)), lit_value(120));
}

#[test]
fn test_intension() {
    // |> ({} 0)  builds an intension over no dimensions and reopens it.
    let build = L1Expression::IntensionBuilder(Box::new(L1IntensionExpression {
        domain: L1ExprList::Nil,
        value: num(0),
    }));
    let reopen = L1Expression::IntensionApplication(Box::new(build));
    assert_eq!(expect_value(evaluate(&reopen, FUEL)), lit_value(0));

    // => time_three @ [t <- 0]
    // where dim t <- 0; time_three = time @ [t <- 3]; time = {t} #.t end
    let time = L1Expression::IntensionBuilder(Box::new(L1IntensionExpression {
        domain: exprs(vec![ident("t")]),
        value: query("t"),
    }));
    let time_three = perturb(ident("time"), tuples(vec![(ident("t"), num(3))]));
    let main = L1Expression::IntensionApplication(Box::new(perturb(
        ident("time_three"),
        tuples(vec![(ident("t"), num(0))]),
    )));
    let program = wheredim(
        wherevar(main, vec![("time_three", time_three), ("time", time)]),
        vec![("t", num(0))],
    );
    assert_eq!(expect_value(evaluate(&program, FUEL)), lit_value(3));
}

fn fib_program(argument: u32) -> L1Expression {
    // fib @ [n <- argument]
    // where dim n <- 0;
    //   fib = if #.n <= 1 then #.n
    //         else fib @ [n <- #.n - 1] + fib @ [n <- #.n - 2]
    // end
    let fib_def = ite(
        app("<=", vec![query("n"), num(1)]),
        query("n"),
        app(
            "+",
            vec![
                perturb(
                    ident("fib"),
                    tuples(vec![(ident("n"), app("-", vec![query("n"), num(1)]))]),
                ),
                perturb(
                    ident("fib"),
                    tuples(vec![(ident("n"), app("-", vec![query("n"), num(2)]))]),
                ),
            ],
        ),
    );
    wheredim(
        wherevar(
            perturb(ident("fib"), tuples(vec![(ident("n"), num(argument))])),
            vec![("fib", fib_def)],
        ),
        vec![("n", num(0))],
    )
}

#[test]
fn test_fib_stream() {
    assert_eq!(expect_value(evaluate(&fib_program(10), FUEL)), lit_value(55));
}

#[test]
fn test_fib_function() {
    // fib as a declared function of one value parameter, read as a bare
    // identifier in its body.
    let fib_body = ite(
        app("<=", vec![ident("n"), num(1)]),
        ident("n"),
        app(
            "+",
            vec![
                L1Expression::FunctionApplication(Box::new(L1FunctionApplication {
                    lhs: ident("fib"),
                    base_args: L1ExprList::Nil,
                    value_args: exprs(vec![app("-", vec![ident("n"), num(1)])]),
                    name_args: L1ExprList::Nil,
                })),
                L1Expression::FunctionApplication(Box::new(L1FunctionApplication {
                    lhs: ident("fib"),
                    base_args: L1ExprList::Nil,
                    value_args: exprs(vec![app("-", vec![ident("n"), num(2)])]),
                    name_args: L1ExprList::Nil,
                })),
            ],
        ),
    );
    let fib = L1Expression::FunctionDeclaration(Box::new(L1FunctionDeclaration {
        name: ident("fib"),
        base_parameters: L1ExprList::Nil,
        value_parameters: exprs(vec![ident("n")]),
        name_parameters: L1ExprList::Nil,
        body: fib_body,
    }));
    let call = L1Expression::FunctionApplication(Box::new(L1FunctionApplication {
        lhs: ident("fib"),
        base_args: L1ExprList::Nil,
        value_args: exprs(vec![num(10)]),
        name_args: L1ExprList::Nil,
    }));
    let program = wherevar(call, vec![("fib", fib)]);
    assert_eq!(expect_value(evaluate(&program, FUEL)), lit_value(55));
}

#[test]
fn test_naturals() {
    // N @ [t <- 4, s <- 2]
    // where dim t <- 0; dim s <- 0; N = if #.s > 0 then #.s else #.s + #.t end
    let n_def = ite(
        app(">", vec![query("s"), num(0)]),
        query("s"),
        app("+", vec![query("s"), query("t")]),
    );
    let program = wheredim(
        wherevar(
            perturb(
                ident("N"),
                tuples(vec![(ident("t"), num(4)), (ident("s"), num(2))]),
            ),
            vec![("N", n_def)],
        ),
        vec![("t", num(0)), ("s", num(0))],
    );
    assert_eq!(expect_value(evaluate(&program, FUEL)), lit_value(2));
}

#[test]
fn test_wvr() {
    // W @ [d <- 2]
    // where dim d <- 0; A = if #.d <= 0 then 1 else A @ [d <- #.d - 1] + 1; W = A end
    let a_def = ite(
        app("<=", vec![query("d"), num(0)]),
        num(1),
        app(
            "+",
            vec![
                perturb(
                    ident("A"),
                    tuples(vec![(ident("d"), app("-", vec![query("d"), num(1)]))]),
                ),
                num(1),
            ],
        ),
    );
    let program = wheredim(
        wherevar(
            perturb(ident("W"), tuples(vec![(ident("d"), num(2))])),
            vec![("A", a_def), ("W", ident("A"))],
        ),
        vec![("d", num(0))],
    );
    assert_eq!(expect_value(evaluate(&program, FUEL)), lit_value(3));
}

#[test]
fn test_fib_sum() {
    // fib @ [n <- 8] + fib @ [n <- 9] evaluates to fib(8) + fib(9).
    let fib_def = ite(
        app("<=", vec![query("n"), num(1)]),
        query("n"),
        app(
            "+",
            vec![
                perturb(
                    ident("fib"),
                    tuples(vec![(ident("n"), app("-", vec![query("n"), num(1)]))]),
                ),
                perturb(
                    ident("fib"),
                    tuples(vec![(ident("n"), app("-", vec![query("n"), num(2)]))]),
                ),
            ],
        ),
    );
    let sum = app(
        "+",
        vec![
            perturb(ident("fib"), tuples(vec![(ident("n"), num(8))])),
            perturb(ident("fib"), tuples(vec![(ident("n"), num(9))])),
        ],
    );
    let program = wheredim(
        wherevar(sum, vec![("fib", fib_def)]),
        vec![("n", num(0))],
    );
    assert_eq!(expect_value(evaluate(&program, FUEL)), lit_value(55));
}

#[test]
fn test_value_abstraction_application() {
    // A surface value application binds the argument into the context but
    // not into the known domain, so a body reading its parameter reports the
    // parameter's dimension as missing; a body that ignores it evaluates.
    let abs = L1Expression::ValueAbstraction(Box::new(L1ValueAbstraction {
        formal_parameters: exprs(vec![ident("x")]),
        body: ident("x"),
    }));
    let call = L1Expression::ValueApplication(Box::new(gaia::l1::L1ValueApplication {
        lhs: abs,
        rhs: num(3),
    }));
    let dx = Dimension { i: 0, v: Value::Identifier(nm("x")) };
    let mut missing = Domain::new();
    missing.push(dx);
    assert_eq!(evaluate(&call, FUEL), Ok(Either::Right(missing)));

    let constant = L1Expression::ValueAbstraction(Box::new(L1ValueAbstraction {
        formal_parameters: exprs(vec![ident("x")]),
        body: num(5),
    }));
    let call2 = L1Expression::ValueApplication(Box::new(gaia::l1::L1ValueApplication {
        lhs: constant,
        rhs: num(3),
    }));
    assert_eq!(expect_value(evaluate(&call2, FUEL)), lit_value(5));
}

#[test]
fn test_sequence_keeps_last() {
    let program = L1Expression::Sequence(exprs(vec![num(1), num(2), num(3)]));
    assert_eq!(expect_value(evaluate(&program, FUEL)), lit_value(3));
}

#[test]
fn test_wheredim_in_argument_position() {
    // A wheredim inside an application argument: its quantifier dimension
    // must reach the driver's seed set like any other, or the wheredim could
    // never look up its activation depth.
    let inner = wheredim(
        wherevar(
            perturb(ident("X"), tuples(vec![(ident("t"), num(40))])),
            vec![("X", query("t"))],
        ),
        vec![("t", num(0))],
    );
    let program = app("+", vec![num(1), inner]);
    assert_eq!(expect_value(evaluate(&program, FUEL)), lit_value(41));
}

#[test]
fn test_domain_set_equality() {
    // Domains built in different insertion orders are the same set even
    // though their ordered representations differ.
    let dt = Dimension { i: 1, v: Value::Identifier(nm("t")) };
    let ds = Dimension { i: 2, v: Value::Identifier(nm("s")) };
    let mut a = Domain::new();
    a.push(dt.dup());
    a.push(ds.dup());
    let mut b = Domain::new();
    b.push(ds.dup());
    b.push(dt.dup());
    assert!(a.eq_set(&b));
    assert!(a != b);
    let mut c = Domain::new();
    c.push(dt.dup());
    assert!(!a.eq_set(&c));
}
