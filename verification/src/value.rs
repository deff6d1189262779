//! Values and dimensions of the evaluation algebra.

use vstd::prelude::*;

use crate::context::Context;
use crate::expression::{BaseAbstraction, Expression, NameAbstraction, ValueAbstraction};
use crate::name::Name;

verus! {

/// A literal constant: a boolean or a 32-bit unsigned integer.
#[derive(Clone, Copy, Debug, PartialEq, Eq, Structural)]
pub enum Literal {
    Bool(bool),
    Int32(u32),
}

/// A dimension: a named axis of the context. Identity is structural over the
/// disambiguating index `i` and the tag value `v`; `v` usually carries the
/// source identifier, or an integer tag for dimensions generated at
/// evaluation time.
#[derive(Debug, PartialEq, Eq)]
pub struct Dimension {
    pub i: u32,
    pub v: Value,
}

/// A list of dimensions, such as the parameter list of an abstraction.
#[derive(Debug, PartialEq, Eq)]
pub enum DimList {
    Nil,
    Cons(Box<Dimension>, Box<DimList>),
}

/// A first-class deferred computation: a captured restricted context `k`, the
/// declared domain `d` to re-open on application, and the deferred body `x`.
#[derive(Debug, PartialEq, Eq)]
pub struct Intension {
    pub k: Context,
    pub d: DimList,
    pub x: Box<Expression>,
}

/// A value of the language: the result of a successful evaluation.
#[derive(Debug, PartialEq, Eq)]
pub enum Value {
    Literal(Literal),
    Dimension(Box<Dimension>),
    Intension(Box<Intension>),
    BaseAbstraction(Box<BaseAbstraction>),
    ValueAbstraction(Box<ValueAbstraction>),
    NameAbstraction(Box<NameAbstraction>),
    Identifier(Name),
    Context(Context),
    PrimOp(Name),
}

/// A list of values, used to collect evaluated arguments.
#[derive(Debug, PartialEq, Eq)]
pub enum ValueList {
    Nil,
    Cons(Box<Value>, Box<ValueList>),
}

impl DimList {
    /// The dimensions of this list, in order.
    pub open spec fn seq(self) -> Seq<Dimension>
        decreases self,
    {
        match self {
            DimList::Nil => Seq::empty(),
            DimList::Cons(h, t) => seq![*h] + t.seq(),
        }
    }

    /// Appends `other` after the entries of this list.
    pub open spec fn spec_append(self, other: DimList) -> DimList
        decreases self,
    {
        match self {
            DimList::Nil => other,
            DimList::Cons(h, t) => DimList::Cons(h, Box::new(t.spec_append(other))),
        }
    }

    pub fn append(self, other: DimList) -> (r: DimList)
        ensures
            r == self.spec_append(other),
        decreases self,
    {
        match self {
            DimList::Nil => other,
            DimList::Cons(h, t) => DimList::Cons(h, Box::new(t.append(other))),
        }
    }

    pub fn eq_dims(&self, other: &DimList) -> (r: bool)
        ensures
            r == (*self == *other),
        decreases *self,
    {
        match (self, other) {
            (DimList::Nil, DimList::Nil) => true,
            (DimList::Cons(a, ta), DimList::Cons(b, tb)) => a.eq_dim(b) && ta.eq_dims(tb),
            _ => false,
        }
    }

    pub fn dup(&self) -> (r: DimList)
        ensures
            r == *self,
        decreases *self,
    {
        match self {
            DimList::Nil => DimList::Nil,
            DimList::Cons(h, t) => DimList::Cons(Box::new(h.dup()), Box::new(t.dup())),
        }
    }

    /// The number of entries.
    pub open spec fn spec_len(self) -> nat
        decreases self,
    {
        match self {
            DimList::Nil => 0,
            DimList::Cons(_, t) => 1 + t.spec_len(),
        }
    }

    pub fn len(&self) -> (r: usize)
        requires
            self.spec_len() <= usize::MAX,
        ensures
            r == self.spec_len(),
        decreases *self,
    {
        match self {
            DimList::Nil => 0,
            DimList::Cons(_, t) => 1 + t.len(),
        }
    }
}

impl ValueList {
    pub open spec fn spec_len(self) -> nat
        decreases self,
    {
        match self {
            ValueList::Nil => 0,
            ValueList::Cons(_, t) => 1 + t.spec_len(),
        }
    }

    pub fn dup(&self) -> (r: ValueList)
        ensures
            r == *self,
        decreases *self,
    {
        match self {
            ValueList::Nil => ValueList::Nil,
            ValueList::Cons(h, t) => ValueList::Cons(Box::new(h.dup()), Box::new(t.dup())),
        }
    }

    /// Appends one value after the entries of this list.
    pub open spec fn spec_snoc(self, v: Value) -> ValueList
        decreases self,
    {
        match self {
            ValueList::Nil => ValueList::Cons(Box::new(v), Box::new(ValueList::Nil)),
            ValueList::Cons(h, t) => ValueList::Cons(h, Box::new(t.spec_snoc(v))),
        }
    }

    pub fn snoc(self, v: Value) -> (r: ValueList)
        ensures
            r == self.spec_snoc(v),
        decreases self,
    {
        match self {
            ValueList::Nil => ValueList::Cons(Box::new(v), Box::new(ValueList::Nil)),
            ValueList::Cons(h, t) => ValueList::Cons(h, Box::new(t.snoc(v))),
        }
    }
}

impl Dimension {
    pub fn eq_dim(&self, other: &Dimension) -> (r: bool)
        ensures
            r == (*self == *other),
        decreases *self,
    {
        self.i == other.i && self.v.eq_value(&other.v)
    }

    pub fn dup(&self) -> (r: Dimension)
        ensures
            r == *self,
        decreases *self,
    {
        Dimension { i: self.i, v: self.v.dup() }
    }
}

impl Intension {
    pub fn eq_intension(&self, other: &Intension) -> (r: bool)
        ensures
            r == (*self == *other),
        decreases *self,
    {
        self.k.eq_context(&other.k) && self.d.eq_dims(&other.d) && self.x.eq_expression(&other.x)
    }

    pub fn dup(&self) -> (r: Intension)
        ensures
            r == *self,
        decreases *self,
    {
        Intension { k: self.k.dup(), d: self.d.dup(), x: Box::new(self.x.dup()) }
    }
}

impl Value {
    pub fn eq_value(&self, other: &Value) -> (r: bool)
        ensures
            r == (*self == *other),
        decreases *self,
    {
        match (self, other) {
            (Value::Literal(a), Value::Literal(b)) => a == b,
            (Value::Dimension(a), Value::Dimension(b)) => a.eq_dim(b),
            (Value::Intension(a), Value::Intension(b)) => a.eq_intension(b),
            (Value::BaseAbstraction(a), Value::BaseAbstraction(b)) => a.eq_base_abstraction(b),
            (Value::ValueAbstraction(a), Value::ValueAbstraction(b)) => a.eq_value_abstraction(b),
            (Value::NameAbstraction(a), Value::NameAbstraction(b)) => a.eq_name_abstraction(b),
            (Value::Identifier(a), Value::Identifier(b)) => a.eq_name(b),
            (Value::Context(a), Value::Context(b)) => a.eq_context(b),
            (Value::PrimOp(a), Value::PrimOp(b)) => a.eq_name(b),
            _ => false,
        }
    }

    pub fn dup(&self) -> (r: Value)
        ensures
            r == *self,
        decreases *self,
    {
        match self {
            Value::Literal(l) => Value::Literal(*l),
            Value::Dimension(d) => Value::Dimension(Box::new(d.dup())),
            Value::Intension(i) => Value::Intension(Box::new(i.dup())),
            Value::BaseAbstraction(a) => Value::BaseAbstraction(Box::new(a.dup())),
            Value::ValueAbstraction(a) => Value::ValueAbstraction(Box::new(a.dup())),
            Value::NameAbstraction(a) => Value::NameAbstraction(Box::new(a.dup())),
            Value::Identifier(n) => Value::Identifier(n.dup()),
            Value::Context(k) => Value::Context(k.dup()),
            Value::PrimOp(n) => Value::PrimOp(n.dup()),
        }
    }

    /// Checked narrowing to an integer literal.
    pub fn expect_integer(&self) -> (r: u32)
        requires
            self matches Value::Literal(Literal::Int32(_)),
        ensures
            *self == Value::Literal(Literal::Int32(r)),
    {
        match self {
            Value::Literal(Literal::Int32(n)) => *n,
            _ => {
                proof {
                    assert(false);
                }
                0
            },
        }
    }

    /// Checked narrowing to a dimension value.
    pub fn expect_dimension(&self) -> (r: Dimension)
        requires
            self matches Value::Dimension(_),
        ensures
            *self == Value::Dimension(Box::new(r)),
    {
        match self {
            Value::Dimension(d) => d.dup(),
            _ => {
                proof {
                    assert(false);
                }
                Dimension { i: 0, v: Value::Literal(Literal::Bool(false)) }
            },
        }
    }

    /// Checked narrowing to a base abstraction.
    pub fn expect_base_abstraction(&self) -> (r: BaseAbstraction)
        requires
            self matches Value::BaseAbstraction(_),
        ensures
            *self == Value::BaseAbstraction(Box::new(r)),
    {
        match self {
            Value::BaseAbstraction(a) => a.dup(),
            _ => {
                proof {
                    assert(false);
                }
                BaseAbstraction {
                    dimensions: DimList::Nil,
                    body: Expression::Literal(Literal::Bool(false)),
                }
            },
        }
    }

    /// Checked narrowing to an intension.
    pub fn expect_intension(&self) -> (r: Intension)
        requires
            self matches Value::Intension(_),
        ensures
            *self == Value::Intension(Box::new(r)),
    {
        match self {
            Value::Intension(i) => i.dup(),
            _ => {
                proof {
                    assert(false);
                }
                Intension {
                    k: Context(crate::context::TupleList::Nil),
                    d: DimList::Nil,
                    x: Box::new(Expression::Literal(Literal::Bool(false))),
                }
            },
        }
    }
}

} // verus!
