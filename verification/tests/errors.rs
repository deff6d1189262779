//! Error reporting and law scenarios: each error variant is reached from an
//! input that provokes it, and each proved law is checked on concrete values.

use gaia::cache::Cache;
use gaia::context::Context;
use gaia::domain::Domain;
use gaia::either::Either;
use gaia::evaluate;
use gaia::evaluator::Error;
use gaia::expression::Expression;
use gaia::l1::{
    L1BaseApplication, L1DeclarationExpression, L1ExprList, L1Expression, L1FunctionApplication,
    L1IfExpression, L1PerturbExpression, L1TupleExpression, L1TupleList,
    L1ValueApplication,
};
use gaia::name::Name;
use gaia::value::{Dimension, Literal, Value};

const FUEL: u64 = 100_000;

fn nm(s: &str) -> Name {
    Name::from_bytes(s.as_bytes())
}

fn num(n: u32) -> L1Expression {
    L1Expression::Literal(Literal::Int32(n))
}

fn exprs(items: Vec<L1Expression>) -> L1ExprList {
    let mut r = L1ExprList::Nil;
    for item in items.into_iter().rev() {
        r = L1ExprList::Cons(Box::new(item), Box::new(r));
    }
    r
}

fn app(op: &str, args: Vec<L1Expression>) -> L1Expression {
    let mut list = vec![L1Expression::Operator(nm(op))];
    list.extend(args);
    L1Expression::Application(exprs(list))
}

#[test]
fn test_undefined_identifier() {
    let r = evaluate(&L1Expression::Identifier(nm("nowhere")), FUEL);
    assert_eq!(r, Err(Error::UndefinedIdentifier(nm("nowhere"))));
}

#[test]
fn test_expected_dimension() {
    let pair = L1TupleExpression { lhs: num(1), rhs: num(2) };
    let tb = L1Expression::TupleBuilder(L1TupleList::Cons(
        Box::new(pair),
        Box::new(L1TupleList::Nil),
    ));
    assert_eq!(evaluate(&tb, FUEL), Err(Error::ExpectedDimension));
}

#[test]
fn test_expected_integer() {
    let r = evaluate(&app("+", vec![L1Expression::Literal(Literal::Bool(true))]), FUEL);
    assert_eq!(r, Err(Error::ExpectedInteger));
}

#[test]
fn test_expected_boolean() {
    let r = evaluate(
        &L1Expression::If(Box::new(L1IfExpression {
            condition: num(1),
            consequent: num(2),
            alternate: num(3),
        })),
        FUEL,
    );
    assert_eq!(r, Err(Error::ExpectedBoolean));
}

#[test]
fn test_expected_context() {
    let r = evaluate(
        &L1Expression::Perturb(Box::new(L1PerturbExpression { lhs: num(1), rhs: num(2) })),
        FUEL,
    );
    assert_eq!(r, Err(Error::ExpectedContext));
}

#[test]
fn test_expected_intension() {
    let r = evaluate(&L1Expression::IntensionApplication(Box::new(num(1))), FUEL);
    assert_eq!(r, Err(Error::ExpectedIntension));
}

#[test]
fn test_expected_base_abstraction() {
    let r = evaluate(
        &L1Expression::BaseApplication(Box::new(L1BaseApplication { lhs: num(1), rhs: num(2) })),
        FUEL,
    );
    assert_eq!(r, Err(Error::ExpectedBaseAbstraction));
}

#[test]
fn test_expected_value_abstraction() {
    let r = evaluate(
        &L1Expression::ValueApplication(Box::new(L1ValueApplication { lhs: num(1), rhs: num(2) })),
        FUEL,
    );
    assert_eq!(r, Err(Error::ExpectedValueAbstraction));
}

#[test]
fn test_expected_abstraction() {
    // A function application whose callee is bound to a plain literal.
    let call = L1Expression::FunctionApplication(Box::new(L1FunctionApplication {
        lhs: L1Expression::Identifier(nm("f")),
        base_args: L1ExprList::Nil,
        value_args: exprs(vec![num(1)]),
        name_args: L1ExprList::Nil,
    }));
    let program = L1Expression::WhereVar(Box::new(gaia::l1::L1WhereVarExpression {
        lhs: call,
        rhs: gaia::l1::L1Environment(gaia::l1::L1DefList::Cons(
            Box::new(gaia::l1::L1Definition { id: nm("f"), equation: num(7) }),
            Box::new(gaia::l1::L1DefList::Nil),
        )),
    }));
    assert_eq!(evaluate(&program, FUEL), Err(Error::ExpectedAbstraction));
}

#[test]
fn test_arity_mismatch() {
    let r = evaluate(&app("-", vec![num(1)]), FUEL);
    assert_eq!(r, Err(Error::ArityMismatch));
}

#[test]
fn test_unknown_primitive() {
    // Division is reserved but not implemented.
    let r = evaluate(&app("/", vec![num(1), num(0)]), FUEL);
    assert_eq!(r, Err(Error::UnknownPrimitive(nm("/"))));
}

#[test]
fn test_not_an_operator() {
    let r = evaluate(&L1Expression::Application(exprs(vec![num(1), num(2)])), FUEL);
    assert_eq!(r, Err(Error::NotAnOperator));
}

#[test]
fn test_dimension_not_in_context() {
    let dt = Dimension { i: 3, v: Value::Identifier(nm("t")) };
    let mut d = Domain::new();
    d.push(dt.dup());
    let k = Context::new();
    let mut e = gaia::environment::Environment::new();
    let mut c = Cache::new();
    let r = gaia::evaluator::evaluate(
        &Expression::Dimension(dt),
        &mut e,
        &k,
        &d,
        &d,
        &mut c,
        FUEL,
    );
    assert_eq!(r, Err(Error::DimensionNotInContext));
}

#[test]
fn test_expected_identifier() {
    // A function application whose callee position is not an identifier.
    let call = L1Expression::FunctionApplication(Box::new(L1FunctionApplication {
        lhs: num(1),
        base_args: L1ExprList::Nil,
        value_args: L1ExprList::Nil,
        name_args: L1ExprList::Nil,
    }));
    assert_eq!(evaluate(&call, FUEL), Err(Error::ExpectedIdentifier));
}

#[test]
fn test_unexpected_form() {
    let decl = L1Expression::VariableDeclaration(Box::new(L1DeclarationExpression {
        lhs: num(1),
        tuple_builder: None,
        rhs: num(2),
    }));
    assert_eq!(evaluate(&decl, FUEL), Err(Error::UnexpectedForm));
}

#[test]
fn test_out_of_fuel() {
    assert_eq!(evaluate(&num(1), 0), Err(Error::OutOfFuel));
}

#[test]
fn test_nonterminating_definition_runs_out_of_fuel() {
    // X where X = X never produces a value; the fuel bound stops it.
    let program = L1Expression::WhereVar(Box::new(gaia::l1::L1WhereVarExpression {
        lhs: L1Expression::Identifier(nm("X")),
        rhs: gaia::l1::L1Environment(gaia::l1::L1DefList::Cons(
            Box::new(gaia::l1::L1Definition {
                id: nm("X"),
                equation: L1Expression::Identifier(nm("X")),
            }),
            Box::new(gaia::l1::L1DefList::Nil),
        )),
    }));
    assert_eq!(evaluate(&program, 1000), Err(Error::OutOfFuel));
}

#[test]
fn test_literal_identity_scenario() {
    // Literals evaluate to themselves.
    let r = evaluate(&num(9), FUEL);
    assert_eq!(r, Ok(Either::Left(Value::Literal(Literal::Int32(9)))));
}

#[test]
fn test_primitive_addition_wraps() {
    // Arithmetic wraps modulo 2^32.
    let r = evaluate(&app("+", vec![num(u32::MAX), num(1)]), FUEL);
    assert_eq!(r, Ok(Either::Left(Value::Literal(Literal::Int32(0)))));
    let r2 = evaluate(&app("-", vec![num(0), num(1)]), FUEL);
    assert_eq!(r2, Ok(Either::Left(Value::Literal(Literal::Int32(u32::MAX)))));
}

#[test]
fn test_perturb_idempotence_scenario() {
    // Perturbing by an empty tuple changes nothing.
    let plain = evaluate(&num(7), FUEL);
    let perturbed = evaluate(
        &L1Expression::Perturb(Box::new(L1PerturbExpression {
            lhs: num(7),
            rhs: L1Expression::TupleBuilder(L1TupleList::Nil),
        })),
        FUEL,
    );
    assert_eq!(plain, perturbed);
}

#[test]
fn test_perturb_override_scenario() {
    // A rebinding wins over the prior context binding.
    let dt = Dimension { i: 9, v: Value::Identifier(nm("t")) };
    let d0 = Dimension { i: 0, v: Value::Identifier(nm("q")) };
    let mut k = Context::new();
    k.push(d0.dup(), Value::Dimension(Box::new(dt.dup())));
    k.push(dt.dup(), Value::Literal(Literal::Int32(111)));
    let mut d = Domain::new();
    d.push(d0.dup());
    d.push(dt.dup());
    let mut e = gaia::environment::Environment::new();
    let mut c = Cache::new();
    let program = Expression::Perturb(Box::new(gaia::expression::PerturbExpression {
        lhs: Expression::Query(Box::new(Expression::Dimension(d0.dup()))),
        rhs: Expression::TupleBuilder(gaia::expression::TupleExprList::Cons(
            Box::new(gaia::expression::TupleExpression {
                lhs: Expression::Dimension(d0.dup()),
                rhs: Expression::Literal(Literal::Int32(9)),
            }),
            Box::new(gaia::expression::TupleExprList::Nil),
        )),
    }));
    let r = gaia::evaluator::evaluate(&program, &mut e, &k, &d, &d, &mut c, FUEL);
    assert_eq!(r, Ok(Either::Left(Value::Literal(Literal::Int32(9)))));
}

#[test]
fn test_missing_set_surfaced() {
    // A definition that needs a dimension the caller does not supply reports
    // exactly that dimension.
    let dt = Dimension { i: 2, v: Value::Identifier(nm("t")) };
    let mut e = gaia::environment::Environment::new();
    e.define(
        nm("X"),
        Expression::Query(Box::new(Expression::Dimension(dt.dup()))),
    );
    let k = Context::new();
    let d = Domain::new();
    let mut c = Cache::new();
    let r = gaia::evaluator::evaluate(
        &Expression::Identifier(nm("X")),
        &mut e,
        &k,
        &d,
        &d,
        &mut c,
        FUEL,
    );
    let mut missing = Domain::new();
    missing.push(dt.dup());
    assert_eq!(r, Ok(Either::Right(missing)));
}

#[test]
fn test_cache_determinism() {
    // Repeated finds with an equal key return the same stored result.
    let dt = Dimension { i: 1, v: Value::Identifier(nm("t")) };
    let mut k = Context::new();
    k.push(dt.dup(), Value::Literal(Literal::Int32(4)));
    let mut c = Cache::new();
    let stored: Either<Value, Domain> = Either::Left(Value::Literal(Literal::Int32(12)));
    c.add(nm("x"), k.dup(), stored.dup());
    let first = c.find(&nm("x"), &k);
    let second = c.find(&nm("x"), &k);
    assert_eq!(first, Some(stored.dup()));
    assert_eq!(first, second);
    // An entry under a different key is untouched.
    assert_eq!(c.find(&nm("y"), &k), None);
}

#[test]
fn test_restrict_stability() {
    // Restricting twice is restricting once, and restricting to a union keeps
    // the tuples that restricting to one operand keeps.
    let dt = Dimension { i: 1, v: Value::Identifier(nm("t")) };
    let ds = Dimension { i: 2, v: Value::Identifier(nm("s")) };
    let mut k = Context::new();
    k.push(dt.dup(), Value::Literal(Literal::Int32(1)));
    k.push(ds.dup(), Value::Literal(Literal::Int32(2)));
    k.push(dt.dup(), Value::Literal(Literal::Int32(3)));
    let mut d1 = Domain::new();
    d1.push(dt.dup());
    let mut d2 = Domain::new();
    d2.push(ds.dup());
    let once = k.restrict(&d1);
    assert_eq!(once.restrict(&d1), once);
    let union = d1.union(&d2);
    assert_eq!(k.restrict(&union).restrict(&d1), once);
}

#[test]
fn test_if_short_circuits_unknown_primitive() {
    // if true then 1 else (1 / 0): the division is never evaluated, so the
    // unknown primitive never fires.
    let program = L1Expression::If(Box::new(L1IfExpression {
        condition: L1Expression::Literal(Literal::Bool(true)),
        consequent: num(1),
        alternate: app("/", vec![num(1), num(0)]),
    }));
    assert_eq!(
        evaluate(&program, FUEL),
        Ok(Either::Left(Value::Literal(Literal::Int32(1)))),
    );
}

#[test]
fn test_intension_builder_missing_dimension() {
    // An intension over an unknown dimension reports it missing rather than
    // capturing it.
    let dt = Dimension { i: 5, v: Value::Identifier(nm("t")) };
    let mut e = gaia::environment::Environment::new();
    let k = Context::new();
    let d = Domain::new();
    let mut c = Cache::new();
    let program = Expression::IntensionBuilder(Box::new(gaia::expression::IntensionExpression {
        domain: gaia::expression::ExprList::Cons(
            Box::new(Expression::Dimension(dt.dup())),
            Box::new(gaia::expression::ExprList::Nil),
        ),
        value: Expression::Literal(Literal::Int32(0)),
    }));
    let r = gaia::evaluator::evaluate(&program, &mut e, &k, &d, &d, &mut c, FUEL);
    let mut missing = Domain::new();
    missing.push(dt.dup());
    assert_eq!(r, Ok(Either::Right(missing)));
}

#[test]
fn test_driver_skews_less_than() {
    // The driver binds `<` to the `>=` token, a preserved quirk; since `>=`
    // has no dispatch entry, applying `<` names `>=` as the unknown
    // primitive.
    let call = L1Expression::Application(exprs(vec![
        L1Expression::Identifier(nm("<")),
        num(1),
        num(2),
    ]));
    assert_eq!(evaluate(&call, FUEL), Err(Error::UnknownPrimitive(nm(">="))));
}
