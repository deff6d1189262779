//! The L0 abstract syntax: the language the evaluator walks, produced from
//! the surface syntax by the desugarer.

use vstd::prelude::*;

use crate::environment::Environment;
use crate::name::Name;
use crate::value::{Dimension, DimList, Literal};

verus! {

/// One pair of a tuple-builder: a dimension expression and an ordinal
/// expression.
#[derive(Debug, PartialEq, Eq)]
pub struct TupleExpression {
    pub lhs: Expression,
    pub rhs: Expression,
}

#[derive(Debug, PartialEq, Eq)]
pub enum TupleExprList {
    Nil,
    Cons(Box<TupleExpression>, Box<TupleExprList>),
}

/// An abstraction whose arguments are bound by substitution: the body is
/// evaluated under the caller's own context.
#[derive(Debug, PartialEq, Eq)]
pub struct BaseAbstraction {
    pub dimensions: DimList,
    pub body: Expression,
}

#[derive(Debug, PartialEq, Eq)]
pub struct BaseApplication {
    pub lhs: Expression,
    pub args: ExprList,
}

/// An abstraction whose arguments enter the context as a perturbation.
#[derive(Debug, PartialEq, Eq)]
pub struct ValueAbstraction {
    pub dimensions: DimList,
    pub body: Expression,
}

#[derive(Debug, PartialEq, Eq)]
pub struct ValueApplication {
    pub lhs: Expression,
    pub args: ExprList,
}

/// An abstraction whose arguments are passed lazily, as intensions.
#[derive(Debug, PartialEq, Eq)]
pub struct NameAbstraction {
    pub dimensions: DimList,
    pub body: Expression,
}

#[derive(Debug, PartialEq, Eq)]
pub struct NameApplication {
    pub lhs: Expression,
    pub args: ExprList,
}

/// An intension builder: the domain expressions to capture and the deferred
/// body.
#[derive(Debug, PartialEq, Eq)]
pub struct IntensionExpression {
    pub domain: ExprList,
    pub value: Expression,
}

#[derive(Debug, PartialEq, Eq)]
pub struct IfExpression {
    pub condition: Expression,
    pub consequent: Expression,
    pub alternate: Expression,
}

/// Local definitions: the bindings of `rhs` are merged into the environment,
/// then `lhs` is evaluated.
#[derive(Debug, PartialEq, Eq)]
pub struct WhereVarExpression {
    pub lhs: Expression,
    pub rhs: Environment,
}

#[derive(Debug, PartialEq, Eq)]
pub struct PerturbExpression {
    pub lhs: Expression,
    pub rhs: Expression,
}

/// One local dimension declaration of a wheredim: the assigned dimension and
/// its initial ordinal expression.
#[derive(Debug, PartialEq, Eq)]
pub struct DimensionExpression {
    pub lhs: Dimension,
    pub rhs: Expression,
}

#[derive(Debug, PartialEq, Eq)]
pub enum DimExprList {
    Nil,
    Cons(Box<DimensionExpression>, Box<DimExprList>),
}

#[derive(Debug, PartialEq, Eq)]
pub struct ContextExpression(pub DimExprList);

/// A wheredim scope: `nat_q` is the source-order index of the occurrence and
/// `dim_q` the quantifier dimension carrying the activation depth.
#[derive(Debug, PartialEq, Eq)]
pub struct WhereDimExpression {
    pub nat_q: u32,
    pub dim_q: Dimension,
    pub lhs: Expression,
    pub rhs: ContextExpression,
}

/// A call of a named function: the callee is looked up in the environment and
/// applied first to the base arguments, then to the value arguments.
#[derive(Debug, PartialEq, Eq)]
pub struct FunctionApplication {
    pub id: Name,
    pub base_args: ExprList,
    pub value_args: ExprList,
}

#[derive(Debug, PartialEq, Eq)]
pub struct DeclarationExpression {
    pub lhs: Expression,
    pub rhs: Expression,
}

#[derive(Debug, PartialEq, Eq)]
pub enum ExprList {
    Nil,
    Cons(Box<Expression>, Box<ExprList>),
}

/// An L0 expression.
#[derive(Debug, PartialEq, Eq)]
pub enum Expression {
    Literal(Literal),
    Dimension(Dimension),
    Identifier(Name),
    Operator(Name),
    Sequence(ExprList),
    TupleBuilder(TupleExprList),
    BaseAbstraction(Box<BaseAbstraction>),
    BaseApplication(Box<BaseApplication>),
    ValueAbstraction(Box<ValueAbstraction>),
    ValueApplication(Box<ValueApplication>),
    FunctionApplication(Box<FunctionApplication>),
    IntensionBuilder(Box<IntensionExpression>),
    IntensionApplication(Box<Expression>),
    Application(ExprList),
    If(Box<IfExpression>),
    WhereVar(Box<WhereVarExpression>),
    Query(Box<Expression>),
    Perturb(Box<PerturbExpression>),
    WhereDim(Box<WhereDimExpression>),
}

impl ExprList {
    pub fn eq_exprs(&self, other: &ExprList) -> (r: bool)
        ensures
            r == (*self == *other),
        decreases *self,
    {
        match (self, other) {
            (ExprList::Nil, ExprList::Nil) => true,
            (ExprList::Cons(a, ta), ExprList::Cons(b, tb)) => a.eq_expression(b) && ta.eq_exprs(
                tb,
            ),
            _ => false,
        }
    }

    pub fn dup(&self) -> (r: ExprList)
        ensures
            r == *self,
        decreases *self,
    {
        match self {
            ExprList::Nil => ExprList::Nil,
            ExprList::Cons(h, t) => ExprList::Cons(Box::new(h.dup()), Box::new(t.dup())),
        }
    }
}

impl TupleExprList {
    pub fn eq_tuple_exprs(&self, other: &TupleExprList) -> (r: bool)
        ensures
            r == (*self == *other),
        decreases *self,
    {
        match (self, other) {
            (TupleExprList::Nil, TupleExprList::Nil) => true,
            (TupleExprList::Cons(a, ta), TupleExprList::Cons(b, tb)) => a.lhs.eq_expression(&b.lhs)
                && a.rhs.eq_expression(&b.rhs) && ta.eq_tuple_exprs(tb),
            _ => false,
        }
    }

    pub fn dup(&self) -> (r: TupleExprList)
        ensures
            r == *self,
        decreases *self,
    {
        match self {
            TupleExprList::Nil => TupleExprList::Nil,
            TupleExprList::Cons(h, t) => TupleExprList::Cons(
                Box::new(TupleExpression { lhs: h.lhs.dup(), rhs: h.rhs.dup() }),
                Box::new(t.dup()),
            ),
        }
    }
}

impl DimExprList {
    pub fn eq_dim_exprs(&self, other: &DimExprList) -> (r: bool)
        ensures
            r == (*self == *other),
        decreases *self,
    {
        match (self, other) {
            (DimExprList::Nil, DimExprList::Nil) => true,
            (DimExprList::Cons(a, ta), DimExprList::Cons(b, tb)) => a.lhs.eq_dim(&b.lhs)
                && a.rhs.eq_expression(&b.rhs) && ta.eq_dim_exprs(tb),
            _ => false,
        }
    }

    pub fn dup(&self) -> (r: DimExprList)
        ensures
            r == *self,
        decreases *self,
    {
        match self {
            DimExprList::Nil => DimExprList::Nil,
            DimExprList::Cons(h, t) => DimExprList::Cons(
                Box::new(DimensionExpression { lhs: h.lhs.dup(), rhs: h.rhs.dup() }),
                Box::new(t.dup()),
            ),
        }
    }
}

impl BaseAbstraction {
    pub fn eq_base_abstraction(&self, other: &BaseAbstraction) -> (r: bool)
        ensures
            r == (*self == *other),
        decreases *self,
    {
        self.dimensions.eq_dims(&other.dimensions) && self.body.eq_expression(&other.body)
    }

    pub fn dup(&self) -> (r: BaseAbstraction)
        ensures
            r == *self,
        decreases *self,
    {
        BaseAbstraction { dimensions: self.dimensions.dup(), body: self.body.dup() }
    }
}

impl ValueAbstraction {
    pub fn eq_value_abstraction(&self, other: &ValueAbstraction) -> (r: bool)
        ensures
            r == (*self == *other),
        decreases *self,
    {
        self.dimensions.eq_dims(&other.dimensions) && self.body.eq_expression(&other.body)
    }

    pub fn dup(&self) -> (r: ValueAbstraction)
        ensures
            r == *self,
        decreases *self,
    {
        ValueAbstraction { dimensions: self.dimensions.dup(), body: self.body.dup() }
    }
}

impl NameAbstraction {
    pub fn eq_name_abstraction(&self, other: &NameAbstraction) -> (r: bool)
        ensures
            r == (*self == *other),
        decreases *self,
    {
        self.dimensions.eq_dims(&other.dimensions) && self.body.eq_expression(&other.body)
    }

    pub fn dup(&self) -> (r: NameAbstraction)
        ensures
            r == *self,
        decreases *self,
    {
        NameAbstraction { dimensions: self.dimensions.dup(), body: self.body.dup() }
    }
}

impl Expression {
    /// Checked narrowing to an identifier.
    pub fn as_identifier(&self) -> (r: Name)
        requires
            self matches Expression::Identifier(_),
        ensures
            *self == Expression::Identifier(r),
    {
        match self {
            Expression::Identifier(n) => n.dup(),
            _ => {
                proof {
                    assert(false);
                }
                Name::Nil
            },
        }
    }

    pub fn eq_expression(&self, other: &Expression) -> (r: bool)
        ensures
            r == (*self == *other),
        decreases *self,
    {
        match (self, other) {
            (Expression::Literal(a), Expression::Literal(b)) => a == b,
            (Expression::Dimension(a), Expression::Dimension(b)) => a.eq_dim(b),
            (Expression::Identifier(a), Expression::Identifier(b)) => a.eq_name(b),
            (Expression::Operator(a), Expression::Operator(b)) => a.eq_name(b),
            (Expression::Sequence(a), Expression::Sequence(b)) => a.eq_exprs(b),
            (Expression::TupleBuilder(a), Expression::TupleBuilder(b)) => a.eq_tuple_exprs(b),
            (Expression::BaseAbstraction(a), Expression::BaseAbstraction(b)) => a
                .eq_base_abstraction(b),
            (Expression::BaseApplication(a), Expression::BaseApplication(b)) => a.lhs
                .eq_expression(&b.lhs) && a.args.eq_exprs(&b.args),
            (Expression::ValueAbstraction(a), Expression::ValueAbstraction(b)) => a
                .eq_value_abstraction(b),
            (Expression::ValueApplication(a), Expression::ValueApplication(b)) => a.lhs
                .eq_expression(&b.lhs) && a.args.eq_exprs(&b.args),
            (Expression::FunctionApplication(a), Expression::FunctionApplication(b)) => a.id
                .eq_name(&b.id) && a.base_args.eq_exprs(&b.base_args) && a.value_args.eq_exprs(
                &b.value_args,
            ),
            (Expression::IntensionBuilder(a), Expression::IntensionBuilder(b)) => a.domain
                .eq_exprs(&b.domain) && a.value.eq_expression(&b.value),
            (Expression::IntensionApplication(a), Expression::IntensionApplication(b)) => a
                .eq_expression(b),
            (Expression::Application(a), Expression::Application(b)) => a.eq_exprs(b),
            (Expression::If(a), Expression::If(b)) => a.condition.eq_expression(&b.condition)
                && a.consequent.eq_expression(&b.consequent) && a.alternate.eq_expression(
                &b.alternate,
            ),
            (Expression::WhereVar(a), Expression::WhereVar(b)) => a.lhs.eq_expression(&b.lhs)
                && a.rhs.eq_environment(&b.rhs),
            (Expression::Query(a), Expression::Query(b)) => a.eq_expression(b),
            (Expression::Perturb(a), Expression::Perturb(b)) => a.lhs.eq_expression(&b.lhs)
                && a.rhs.eq_expression(&b.rhs),
            (Expression::WhereDim(a), Expression::WhereDim(b)) => a.nat_q == b.nat_q
                && a.dim_q.eq_dim(&b.dim_q) && a.lhs.eq_expression(&b.lhs) && a.rhs.0.eq_dim_exprs(
                &b.rhs.0,
            ),
            _ => false,
        }
    }

    pub fn dup(&self) -> (r: Expression)
        ensures
            r == *self,
        decreases *self,
    {
        match self {
            Expression::Literal(l) => Expression::Literal(*l),
            Expression::Dimension(d) => Expression::Dimension(d.dup()),
            Expression::Identifier(n) => Expression::Identifier(n.dup()),
            Expression::Operator(n) => Expression::Operator(n.dup()),
            Expression::Sequence(l) => Expression::Sequence(l.dup()),
            Expression::TupleBuilder(l) => Expression::TupleBuilder(l.dup()),
            Expression::BaseAbstraction(a) => Expression::BaseAbstraction(Box::new(a.dup())),
            Expression::BaseApplication(a) => Expression::BaseApplication(
                Box::new(BaseApplication { lhs: a.lhs.dup(), args: a.args.dup() }),
            ),
            Expression::ValueAbstraction(a) => Expression::ValueAbstraction(Box::new(a.dup())),
            Expression::ValueApplication(a) => Expression::ValueApplication(
                Box::new(ValueApplication { lhs: a.lhs.dup(), args: a.args.dup() }),
            ),
            Expression::FunctionApplication(a) => Expression::FunctionApplication(
                Box::new(
                    FunctionApplication {
                        id: a.id.dup(),
                        base_args: a.base_args.dup(),
                        value_args: a.value_args.dup(),
                    },
                ),
            ),
            Expression::IntensionBuilder(a) => Expression::IntensionBuilder(
                Box::new(IntensionExpression { domain: a.domain.dup(), value: a.value.dup() }),
            ),
            Expression::IntensionApplication(a) => Expression::IntensionApplication(
                Box::new(a.dup()),
            ),
            Expression::Application(l) => Expression::Application(l.dup()),
            Expression::If(a) => Expression::If(
                Box::new(
                    IfExpression {
                        condition: a.condition.dup(),
                        consequent: a.consequent.dup(),
                        alternate: a.alternate.dup(),
                    },
                ),
            ),
            Expression::WhereVar(a) => Expression::WhereVar(
                Box::new(WhereVarExpression { lhs: a.lhs.dup(), rhs: a.rhs.dup() }),
            ),
            Expression::Query(a) => Expression::Query(Box::new(a.dup())),
            Expression::Perturb(a) => Expression::Perturb(
                Box::new(PerturbExpression { lhs: a.lhs.dup(), rhs: a.rhs.dup() }),
            ),
            Expression::WhereDim(a) => Expression::WhereDim(
                Box::new(
                    WhereDimExpression {
                        nat_q: a.nat_q,
                        dim_q: a.dim_q.dup(),
                        lhs: a.lhs.dup(),
                        rhs: ContextExpression(a.rhs.0.dup()),
                    },
                ),
            ),
        }
    }
}

} // verus!
