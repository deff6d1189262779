//! Environments: bindings from identifiers to expressions, where a newer
//! binding for the same identifier wins.

use vstd::prelude::*;

use crate::expression::Expression;
use crate::name::Name;

verus! {

/// One binding of an environment.
#[derive(Debug, PartialEq, Eq)]
pub struct Definition {
    pub id: Name,
    pub equation: Expression,
}

#[derive(Debug, PartialEq, Eq)]
pub enum DefList {
    Nil,
    Cons(Box<Definition>, Box<DefList>),
}

/// An environment. The newest bindings stand at the front of the list, and
/// `lookup` returns the first match, so later definitions of the same
/// identifier shadow earlier ones.
#[derive(Debug, PartialEq, Eq)]
pub struct Environment(pub DefList);

impl DefList {
    pub open spec fn spec_append(self, other: DefList) -> DefList
        decreases self,
    {
        match self {
            DefList::Nil => other,
            DefList::Cons(h, t) => DefList::Cons(h, Box::new(t.spec_append(other))),
        }
    }

    pub fn append(self, other: DefList) -> (r: DefList)
        ensures
            r == self.spec_append(other),
        decreases self,
    {
        match self {
            DefList::Nil => other,
            DefList::Cons(h, t) => DefList::Cons(h, Box::new(t.append(other))),
        }
    }

    pub fn eq_defs(&self, other: &DefList) -> (r: bool)
        ensures
            r == (*self == *other),
        decreases *self,
    {
        match (self, other) {
            (DefList::Nil, DefList::Nil) => true,
            (DefList::Cons(a, ta), DefList::Cons(b, tb)) => a.id.eq_name(&b.id)
                && a.equation.eq_expression(&b.equation) && ta.eq_defs(tb),
            _ => false,
        }
    }

    pub fn dup(&self) -> (r: DefList)
        ensures
            r == *self,
        decreases *self,
    {
        match self {
            DefList::Nil => DefList::Nil,
            DefList::Cons(h, t) => DefList::Cons(
                Box::new(Definition { id: h.id.dup(), equation: h.equation.dup() }),
                Box::new(t.dup()),
            ),
        }
    }
}

impl Environment {
    /// The empty environment.
    pub fn new() -> (r: Environment)
        ensures
            r == Environment(DefList::Nil),
    {
        Environment(DefList::Nil)
    }

    pub fn eq_environment(&self, other: &Environment) -> (r: bool)
        ensures
            r == (*self == *other),
        decreases *self,
    {
        self.0.eq_defs(&other.0)
    }

    pub fn dup(&self) -> (r: Environment)
        ensures
            r == *self,
        decreases *self,
    {
        Environment(self.0.dup())
    }

    /// The equation of the newest binding of `id`, if any.
    pub open spec fn spec_lookup(self, id: Name) -> Option<Expression>
        decreases self.0,
    {
        match self.0 {
            DefList::Nil => None,
            DefList::Cons(h, t) => if h.id == id {
                Some(h.equation)
            } else {
                Environment(*t).spec_lookup(id)
            },
        }
    }

    pub fn lookup(&self, id: &Name) -> (r: Option<Expression>)
        ensures
            r == self.spec_lookup(*id),
    {
        lookup_in(&self.0, id)
    }

    /// Adds a binding that shadows any previous one for the same identifier.
    pub open spec fn spec_define(self, id: Name, x: Expression) -> Environment {
        Environment(DefList::Cons(Box::new(Definition { id, equation: x }), Box::new(self.0)))
    }

    pub fn define(&mut self, id: Name, x: Expression)
        ensures
            *final(self) == old(self).spec_define(id, x),
    {
        let mut list = DefList::Nil;
        core::mem::swap(&mut list, &mut self.0);
        self.0 = DefList::Cons(Box::new(Definition { id, equation: x }), Box::new(list));
    }

    /// Merges `other` in, its bindings shadowing this environment's.
    pub open spec fn spec_merge(self, other: Environment) -> Environment {
        Environment(other.0.spec_append(self.0))
    }

    pub fn merge(&mut self, other: Environment)
        ensures
            *final(self) == old(self).spec_merge(other),
    {
        let mut list = DefList::Nil;
        core::mem::swap(&mut list, &mut self.0);
        self.0 = other.0.append(list);
    }
}

/// A definition just added is exactly what a subsequent lookup of its
/// identifier returns, and bindings of other identifiers are untouched.
pub proof fn lemma_define_lookup(e: Environment, id: Name, x: Expression, id2: Name)
    ensures
        e.spec_define(id, x).spec_lookup(id) == Some(x),
        id2 != id ==> e.spec_define(id, x).spec_lookup(id2) == e.spec_lookup(id2),
{
}

/// Merging prefers the merged-in bindings: a lookup answers from `other`
/// wherever it binds the identifier, and from the old environment everywhere
/// else.
pub proof fn lemma_merge_lookup(e: Environment, other: Environment, id: Name)
    ensures
        e.spec_merge(other).spec_lookup(id) == (match other.spec_lookup(id) {
            Some(x) => Some(x),
            None => e.spec_lookup(id),
        }),
    decreases other.0,
{
    match other.0 {
        DefList::Nil => {},
        DefList::Cons(_, t) => {
            lemma_merge_lookup(e, Environment(*t), id);
        },
    }
}

fn lookup_in(list: &DefList, id: &Name) -> (r: Option<Expression>)
    ensures
        r == Environment(*list).spec_lookup(*id),
    decreases *list,
{
    match list {
        DefList::Nil => None,
        DefList::Cons(h, t) => {
            if h.id.eq_name(id) {
                Some(h.equation.dup())
            } else {
                lookup_in(t, id)
            }
        },
    }
}

} // verus!
