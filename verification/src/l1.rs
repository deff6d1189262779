//! The L1 surface syntax, as a parser would deliver it: identifiers are not
//! yet resolved to dimensions, functions still carry their three parameter
//! flavours, and wheredim scopes have no quantifier dimension assigned.

use vstd::prelude::*;

use crate::name::Name;
use crate::value::Literal;

verus! {

#[derive(Debug, PartialEq, Eq)]
pub struct L1TupleExpression {
    pub lhs: L1Expression,
    pub rhs: L1Expression,
}

#[derive(Debug, PartialEq, Eq)]
pub enum L1TupleList {
    Nil,
    Cons(Box<L1TupleExpression>, Box<L1TupleList>),
}

#[derive(Debug, PartialEq, Eq)]
pub struct L1BaseAbstraction {
    pub formal_parameters: L1ExprList,
    pub body: L1Expression,
}

#[derive(Debug, PartialEq, Eq)]
pub struct L1BaseApplication {
    pub lhs: L1Expression,
    pub rhs: L1Expression,
}

#[derive(Debug, PartialEq, Eq)]
pub struct L1ValueAbstraction {
    pub formal_parameters: L1ExprList,
    pub body: L1Expression,
}

#[derive(Debug, PartialEq, Eq)]
pub struct L1ValueApplication {
    pub lhs: L1Expression,
    pub rhs: L1Expression,
}

#[derive(Debug, PartialEq, Eq)]
pub struct L1NameAbstraction {
    pub formal_parameters: L1ExprList,
    pub body: L1Expression,
}

#[derive(Debug, PartialEq, Eq)]
pub struct L1NameApplication {
    pub lhs: L1Expression,
    pub rhs: L1Expression,
}

#[derive(Debug, PartialEq, Eq)]
pub struct L1IntensionExpression {
    pub domain: L1ExprList,
    pub value: L1Expression,
}

#[derive(Debug, PartialEq, Eq)]
pub struct L1IfExpression {
    pub condition: L1Expression,
    pub consequent: L1Expression,
    pub alternate: L1Expression,
}

/// One surface binding.
#[derive(Debug, PartialEq, Eq)]
pub struct L1Definition {
    pub id: Name,
    pub equation: L1Expression,
}

#[derive(Debug, PartialEq, Eq)]
pub enum L1DefList {
    Nil,
    Cons(Box<L1Definition>, Box<L1DefList>),
}

/// Surface bindings of a wherevar clause, in source order.
#[derive(Debug, PartialEq, Eq)]
pub struct L1Environment(pub L1DefList);

#[derive(Debug, PartialEq, Eq)]
pub struct L1WhereVarExpression {
    pub lhs: L1Expression,
    pub rhs: L1Environment,
}

#[derive(Debug, PartialEq, Eq)]
pub struct L1PerturbExpression {
    pub lhs: L1Expression,
    pub rhs: L1Expression,
}

/// One surface dimension declaration of a wheredim: the identifier and its
/// initial ordinal expression.
#[derive(Debug, PartialEq, Eq)]
pub struct L1DimensionExpression {
    pub lhs: Name,
    pub rhs: L1Expression,
}

#[derive(Debug, PartialEq, Eq)]
pub enum L1DimDeclList {
    Nil,
    Cons(Box<L1DimensionExpression>, Box<L1DimDeclList>),
}

#[derive(Debug, PartialEq, Eq)]
pub struct L1ContextExpression(pub L1DimDeclList);

#[derive(Debug, PartialEq, Eq)]
pub struct L1WhereDimExpression {
    pub lhs: L1Expression,
    pub rhs: L1ContextExpression,
}

#[derive(Debug, PartialEq, Eq)]
pub struct L1DeclarationExpression {
    pub lhs: L1Expression,
    pub tuple_builder: Option<L1Expression>,
    pub rhs: L1Expression,
}

#[derive(Debug, PartialEq, Eq)]
pub struct L1FunctionApplication {
    pub lhs: L1Expression,
    pub base_args: L1ExprList,
    pub value_args: L1ExprList,
    pub name_args: L1ExprList,
}

#[derive(Debug, PartialEq, Eq)]
pub struct L1FunctionDeclaration {
    pub name: L1Expression,
    pub base_parameters: L1ExprList,
    pub value_parameters: L1ExprList,
    pub name_parameters: L1ExprList,
    pub body: L1Expression,
}

#[derive(Debug, PartialEq, Eq)]
pub struct L1WhereExpression {
    pub lhs: L1Expression,
    pub rhs: L1ExprList,
}

#[derive(Debug, PartialEq, Eq)]
pub enum L1ExprList {
    Nil,
    Cons(Box<L1Expression>, Box<L1ExprList>),
}

/// An L1 expression.
#[derive(Debug, PartialEq, Eq)]
pub enum L1Expression {
    DimensionDeclaration(Box<L1DeclarationExpression>),
    VariableDeclaration(Box<L1DeclarationExpression>),
    FunctionDeclaration(Box<L1FunctionDeclaration>),
    Literal(Literal),
    Identifier(Name),
    Operator(Name),
    Sequence(L1ExprList),
    TupleBuilder(L1TupleList),
    BaseAbstraction(Box<L1BaseAbstraction>),
    BaseApplication(Box<L1BaseApplication>),
    ValueAbstraction(Box<L1ValueAbstraction>),
    ValueApplication(Box<L1ValueApplication>),
    NameAbstraction(Box<L1NameAbstraction>),
    NameApplication(Box<L1NameApplication>),
    FunctionApplication(Box<L1FunctionApplication>),
    IntensionBuilder(Box<L1IntensionExpression>),
    IntensionApplication(Box<L1Expression>),
    Application(L1ExprList),
    If(Box<L1IfExpression>),
    WhereVar(Box<L1WhereVarExpression>),
    Query(Box<L1Expression>),
    Perturb(Box<L1PerturbExpression>),
    WhereDim(Box<L1WhereDimExpression>),
}

impl L1ExprList {
    pub open spec fn spec_is_empty(self) -> bool {
        self is Nil
    }

    pub fn is_empty(&self) -> (r: bool)
        ensures
            r == self.spec_is_empty(),
    {
        match self {
            L1ExprList::Nil => true,
            _ => false,
        }
    }

    pub fn dup(&self) -> (r: L1ExprList)
        ensures
            r == *self,
        decreases *self,
    {
        match self {
            L1ExprList::Nil => L1ExprList::Nil,
            L1ExprList::Cons(h, t) => L1ExprList::Cons(Box::new(h.dup()), Box::new(t.dup())),
        }
    }
}

impl L1TupleList {
    pub fn dup(&self) -> (r: L1TupleList)
        ensures
            r == *self,
        decreases *self,
    {
        match self {
            L1TupleList::Nil => L1TupleList::Nil,
            L1TupleList::Cons(h, t) => L1TupleList::Cons(
                Box::new(L1TupleExpression { lhs: h.lhs.dup(), rhs: h.rhs.dup() }),
                Box::new(t.dup()),
            ),
        }
    }
}

impl L1DimDeclList {
    pub fn dup(&self) -> (r: L1DimDeclList)
        ensures
            r == *self,
        decreases *self,
    {
        match self {
            L1DimDeclList::Nil => L1DimDeclList::Nil,
            L1DimDeclList::Cons(h, t) => L1DimDeclList::Cons(
                Box::new(L1DimensionExpression { lhs: h.lhs.dup(), rhs: h.rhs.dup() }),
                Box::new(t.dup()),
            ),
        }
    }
}

impl L1DefList {
    pub open spec fn spec_len(self) -> nat
        decreases self,
    {
        match self {
            L1DefList::Nil => 0,
            L1DefList::Cons(_, t) => 1 + t.spec_len(),
        }
    }

    pub fn dup(&self) -> (r: L1DefList)
        ensures
            r == *self,
        decreases *self,
    {
        match self {
            L1DefList::Nil => L1DefList::Nil,
            L1DefList::Cons(h, t) => L1DefList::Cons(
                Box::new(L1Definition { id: h.id.dup(), equation: h.equation.dup() }),
                Box::new(t.dup()),
            ),
        }
    }
}

impl L1Environment {
    /// The empty set of surface bindings.
    pub fn new() -> (r: L1Environment)
        ensures
            r == L1Environment(L1DefList::Nil),
    {
        L1Environment(L1DefList::Nil)
    }

    pub fn dup(&self) -> (r: L1Environment)
        ensures
            r == *self,
        decreases *self,
    {
        L1Environment(self.0.dup())
    }

    /// The equation of the newest binding of `id`, if any.
    pub open spec fn spec_lookup(self, id: Name) -> Option<L1Expression>
        decreases self.0,
    {
        match self.0 {
            L1DefList::Nil => None,
            L1DefList::Cons(h, t) => if h.id == id {
                Some(h.equation)
            } else {
                L1Environment(*t).spec_lookup(id)
            },
        }
    }

    pub fn lookup(&self, id: &Name) -> (r: Option<L1Expression>)
        ensures
            r == self.spec_lookup(*id),
    {
        l1_lookup_in(&self.0, id)
    }

    /// Adds a binding that shadows any previous one for the same identifier.
    pub open spec fn spec_define(self, id: Name, x: L1Expression) -> L1Environment {
        L1Environment(
            L1DefList::Cons(Box::new(L1Definition { id, equation: x }), Box::new(self.0)),
        )
    }

    pub fn define(&mut self, id: Name, x: L1Expression)
        ensures
            *final(self) == old(self).spec_define(id, x),
    {
        let mut list = L1DefList::Nil;
        core::mem::swap(&mut list, &mut self.0);
        self.0 = L1DefList::Cons(Box::new(L1Definition { id, equation: x }), Box::new(list));
    }

    /// Merges `other` in, its bindings shadowing this environment's.
    pub open spec fn spec_merge(self, other: L1Environment) -> L1Environment {
        L1Environment(l1_defs_append(other.0, self.0))
    }

    pub fn merge(&mut self, other: L1Environment)
        ensures
            *final(self) == old(self).spec_merge(other),
    {
        let mut list = L1DefList::Nil;
        core::mem::swap(&mut list, &mut self.0);
        self.0 = l1_defs_append_exec(other.0, list);
    }

    pub open spec fn spec_len(self) -> nat {
        self.0.spec_len()
    }

    pub fn len(&self) -> (r: usize)
        requires
            self.spec_len() <= usize::MAX,
        ensures
            r == self.spec_len(),
    {
        l1_defs_len(&self.0)
    }
}

pub open spec fn l1_defs_append(a: L1DefList, b: L1DefList) -> L1DefList
    decreases a,
{
    match a {
        L1DefList::Nil => b,
        L1DefList::Cons(h, t) => L1DefList::Cons(h, Box::new(l1_defs_append(*t, b))),
    }
}

fn l1_defs_append_exec(a: L1DefList, b: L1DefList) -> (r: L1DefList)
    ensures
        r == l1_defs_append(a, b),
    decreases a,
{
    match a {
        L1DefList::Nil => b,
        L1DefList::Cons(h, t) => L1DefList::Cons(h, Box::new(l1_defs_append_exec(*t, b))),
    }
}

fn l1_defs_len(list: &L1DefList) -> (r: usize)
    requires
        list.spec_len() <= usize::MAX,
    ensures
        r == list.spec_len(),
    decreases *list,
{
    match list {
        L1DefList::Nil => 0,
        L1DefList::Cons(_, t) => 1 + l1_defs_len(t),
    }
}

fn l1_lookup_in(list: &L1DefList, id: &Name) -> (r: Option<L1Expression>)
    ensures
        r == L1Environment(*list).spec_lookup(*id),
    decreases *list,
{
    match list {
        L1DefList::Nil => None,
        L1DefList::Cons(h, t) => {
            if h.id.eq_name(id) {
                Some(h.equation.dup())
            } else {
                l1_lookup_in(t, id)
            }
        },
    }
}

impl L1FunctionDeclaration {
    /// The declaration lowered to nested abstractions: base parameters
    /// outermost, then value parameters, then name parameters, each layer
    /// omitted when its parameter list is empty.
    pub open spec fn spec_as_abstraction(self) -> L1Expression {
        let name_layer_body = if self.name_parameters.spec_is_empty() {
            self.body
        } else {
            L1Expression::NameAbstraction(
                Box::new(
                    L1NameAbstraction {
                        formal_parameters: self.name_parameters,
                        body: self.body,
                    },
                ),
            )
        };
        let value_layer_body = if self.value_parameters.spec_is_empty() {
            name_layer_body
        } else {
            L1Expression::ValueAbstraction(
                Box::new(
                    L1ValueAbstraction {
                        formal_parameters: self.value_parameters,
                        body: name_layer_body,
                    },
                ),
            )
        };
        if self.base_parameters.spec_is_empty() {
            value_layer_body
        } else {
            L1Expression::BaseAbstraction(
                Box::new(
                    L1BaseAbstraction {
                        formal_parameters: self.base_parameters,
                        body: value_layer_body,
                    },
                ),
            )
        }
    }

    pub fn as_abstraction(&self) -> (r: L1Expression)
        ensures
            r == self.spec_as_abstraction(),
    {
        let name_layer_body = if self.name_parameters.is_empty() {
            self.body.dup()
        } else {
            L1Expression::NameAbstraction(
                Box::new(
                    L1NameAbstraction {
                        formal_parameters: self.name_parameters.dup(),
                        body: self.body.dup(),
                    },
                ),
            )
        };
        let value_layer_body = if self.value_parameters.is_empty() {
            name_layer_body
        } else {
            L1Expression::ValueAbstraction(
                Box::new(
                    L1ValueAbstraction {
                        formal_parameters: self.value_parameters.dup(),
                        body: name_layer_body,
                    },
                ),
            )
        };
        if self.base_parameters.is_empty() {
            value_layer_body
        } else {
            L1Expression::BaseAbstraction(
                Box::new(
                    L1BaseAbstraction {
                        formal_parameters: self.base_parameters.dup(),
                        body: value_layer_body,
                    },
                ),
            )
        }
    }

    pub fn dup(&self) -> (r: L1FunctionDeclaration)
        ensures
            r == *self,
        decreases *self,
    {
        L1FunctionDeclaration {
            name: self.name.dup(),
            base_parameters: self.base_parameters.dup(),
            value_parameters: self.value_parameters.dup(),
            name_parameters: self.name_parameters.dup(),
            body: self.body.dup(),
        }
    }
}

impl L1Expression {
    /// Checked narrowing to an identifier.
    pub fn expect_identifier(&self) -> (r: Name)
        requires
            self matches L1Expression::Identifier(_),
        ensures
            *self == L1Expression::Identifier(r),
    {
        match self {
            L1Expression::Identifier(n) => n.dup(),
            _ => {
                proof {
                    assert(false);
                }
                Name::Nil
            },
        }
    }

    pub fn dup(&self) -> (r: L1Expression)
        ensures
            r == *self,
        decreases *self,
    {
        match self {
            L1Expression::DimensionDeclaration(a) => L1Expression::DimensionDeclaration(
                Box::new(
                    L1DeclarationExpression {
                        lhs: a.lhs.dup(),
                        tuple_builder: match &a.tuple_builder {
                            Some(tb) => Some(tb.dup()),
                            None => None,
                        },
                        rhs: a.rhs.dup(),
                    },
                ),
            ),
            L1Expression::VariableDeclaration(a) => L1Expression::VariableDeclaration(
                Box::new(
                    L1DeclarationExpression {
                        lhs: a.lhs.dup(),
                        tuple_builder: match &a.tuple_builder {
                            Some(tb) => Some(tb.dup()),
                            None => None,
                        },
                        rhs: a.rhs.dup(),
                    },
                ),
            ),
            L1Expression::FunctionDeclaration(fd) => L1Expression::FunctionDeclaration(
                Box::new(fd.dup()),
            ),
            L1Expression::Literal(l) => L1Expression::Literal(*l),
            L1Expression::Identifier(n) => L1Expression::Identifier(n.dup()),
            L1Expression::Operator(n) => L1Expression::Operator(n.dup()),
            L1Expression::Sequence(l) => L1Expression::Sequence(l.dup()),
            L1Expression::TupleBuilder(l) => L1Expression::TupleBuilder(l.dup()),
            L1Expression::BaseAbstraction(a) => L1Expression::BaseAbstraction(
                Box::new(
                    L1BaseAbstraction {
                        formal_parameters: a.formal_parameters.dup(),
                        body: a.body.dup(),
                    },
                ),
            ),
            L1Expression::BaseApplication(a) => L1Expression::BaseApplication(
                Box::new(L1BaseApplication { lhs: a.lhs.dup(), rhs: a.rhs.dup() }),
            ),
            L1Expression::ValueAbstraction(a) => L1Expression::ValueAbstraction(
                Box::new(
                    L1ValueAbstraction {
                        formal_parameters: a.formal_parameters.dup(),
                        body: a.body.dup(),
                    },
                ),
            ),
            L1Expression::ValueApplication(a) => L1Expression::ValueApplication(
                Box::new(L1ValueApplication { lhs: a.lhs.dup(), rhs: a.rhs.dup() }),
            ),
            L1Expression::NameAbstraction(a) => L1Expression::NameAbstraction(
                Box::new(
                    L1NameAbstraction {
                        formal_parameters: a.formal_parameters.dup(),
                        body: a.body.dup(),
                    },
                ),
            ),
            L1Expression::NameApplication(a) => L1Expression::NameApplication(
                Box::new(L1NameApplication { lhs: a.lhs.dup(), rhs: a.rhs.dup() }),
            ),
            L1Expression::FunctionApplication(a) => L1Expression::FunctionApplication(
                Box::new(
                    L1FunctionApplication {
                        lhs: a.lhs.dup(),
                        base_args: a.base_args.dup(),
                        value_args: a.value_args.dup(),
                        name_args: a.name_args.dup(),
                    },
                ),
            ),
            L1Expression::IntensionBuilder(a) => L1Expression::IntensionBuilder(
                Box::new(L1IntensionExpression { domain: a.domain.dup(), value: a.value.dup() }),
            ),
            L1Expression::IntensionApplication(a) => L1Expression::IntensionApplication(
                Box::new(a.dup()),
            ),
            L1Expression::Application(l) => L1Expression::Application(l.dup()),
            L1Expression::If(a) => L1Expression::If(
                Box::new(
                    L1IfExpression {
                        condition: a.condition.dup(),
                        consequent: a.consequent.dup(),
                        alternate: a.alternate.dup(),
                    },
                ),
            ),
            L1Expression::WhereVar(a) => L1Expression::WhereVar(
                Box::new(L1WhereVarExpression { lhs: a.lhs.dup(), rhs: a.rhs.dup() }),
            ),
            L1Expression::Query(a) => L1Expression::Query(Box::new(a.dup())),
            L1Expression::Perturb(a) => L1Expression::Perturb(
                Box::new(L1PerturbExpression { lhs: a.lhs.dup(), rhs: a.rhs.dup() }),
            ),
            L1Expression::WhereDim(a) => L1Expression::WhereDim(
                Box::new(
                    L1WhereDimExpression {
                        lhs: a.lhs.dup(),
                        rhs: L1ContextExpression(a.rhs.0.dup()),
                    },
                ),
            ),
        }
    }
}

} // verus!
