//! Contexts: ordered finite maps from dimensions to ordinal values.

use vstd::prelude::*;

use crate::domain::Domain;
use crate::value::{Dimension, Value};

verus! {

/// One binding of a context: a dimension and its ordinal value.
#[derive(Debug, PartialEq, Eq)]
pub struct Tuple {
    pub dim: Dimension,
    pub ord: Value,
}

/// An ordered list of context bindings.
#[derive(Debug, PartialEq, Eq)]
pub enum TupleList {
    Nil,
    Cons(Box<Tuple>, Box<TupleList>),
}

/// A context: an ordered sequence of (dimension, ordinal) tuples. `lookup`
/// returns the ordinal of the first tuple whose dimension matches, so earlier
/// tuples shadow later ones with the same dimension.
#[derive(Debug, PartialEq, Eq)]
pub struct Context(pub TupleList);

impl Tuple {
    pub fn new(dim: Dimension, ord: Value) -> (r: Tuple)
        ensures
            r == (Tuple { dim, ord }),
    {
        Tuple { dim, ord }
    }

    pub fn eq_tuple(&self, other: &Tuple) -> (r: bool)
        ensures
            r == (*self == *other),
        decreases *self,
    {
        self.dim.eq_dim(&other.dim) && self.ord.eq_value(&other.ord)
    }

    pub fn dup(&self) -> (r: Tuple)
        ensures
            r == *self,
        decreases *self,
    {
        Tuple { dim: self.dim.dup(), ord: self.ord.dup() }
    }
}

impl TupleList {
    /// The tuples of this list, in order.
    pub open spec fn seq(self) -> Seq<Tuple>
        decreases self,
    {
        match self {
            TupleList::Nil => Seq::empty(),
            TupleList::Cons(h, t) => seq![*h] + t.seq(),
        }
    }

    /// Appends `other` after the entries of this list.
    pub open spec fn spec_append(self, other: TupleList) -> TupleList
        decreases self,
    {
        match self {
            TupleList::Nil => other,
            TupleList::Cons(h, t) => TupleList::Cons(h, Box::new(t.spec_append(other))),
        }
    }

    pub fn append(self, other: TupleList) -> (r: TupleList)
        ensures
            r == self.spec_append(other),
        decreases self,
    {
        match self {
            TupleList::Nil => other,
            TupleList::Cons(h, t) => TupleList::Cons(h, Box::new(t.append(other))),
        }
    }

    pub fn eq_tuples(&self, other: &TupleList) -> (r: bool)
        ensures
            r == (*self == *other),
        decreases *self,
    {
        match (self, other) {
            (TupleList::Nil, TupleList::Nil) => true,
            (TupleList::Cons(a, ta), TupleList::Cons(b, tb)) => a.eq_tuple(b) && ta.eq_tuples(tb),
            _ => false,
        }
    }

    pub fn dup(&self) -> (r: TupleList)
        ensures
            r == *self,
        decreases *self,
    {
        match self {
            TupleList::Nil => TupleList::Nil,
            TupleList::Cons(h, t) => TupleList::Cons(Box::new(h.dup()), Box::new(t.dup())),
        }
    }
}

impl Context {
    /// The tuples of this context, in order, for use in contracts.
    pub open spec fn tuples(self) -> Seq<Tuple> {
        self.0.seq()
    }

    /// The empty context.
    pub fn new() -> (r: Context)
        ensures
            r == Context(TupleList::Nil),
    {
        Context(TupleList::Nil)
    }

    pub fn eq_context(&self, other: &Context) -> (r: bool)
        ensures
            r == (*self == *other),
        decreases *self,
    {
        self.0.eq_tuples(&other.0)
    }

    pub fn dup(&self) -> (r: Context)
        ensures
            r == *self,
        decreases *self,
    {
        Context(self.0.dup())
    }

    /// Appends a binding after the existing ones.
    pub open spec fn spec_push(self, d: Dimension, v: Value) -> Context {
        Context(self.0.spec_append(TupleList::Cons(Box::new(Tuple { dim: d, ord: v }), Box::new(TupleList::Nil))))
    }

    pub fn push(&mut self, d: Dimension, v: Value)
        ensures
            *final(self) == old(self).spec_push(d, v),
    {
        let mut list = TupleList::Nil;
        core::mem::swap(&mut list, &mut self.0);
        self.0 = list.append(
            TupleList::Cons(Box::new(Tuple { dim: d, ord: v }), Box::new(TupleList::Nil)),
        );
    }

    /// The ordinal of the first tuple bound to `dim`, if any.
    pub open spec fn spec_lookup(self, dim: Dimension) -> Option<Value>
        decreases self.0,
    {
        match self.0 {
            TupleList::Nil => None,
            TupleList::Cons(h, t) => if h.dim == dim {
                Some(h.ord)
            } else {
                Context(*t).spec_lookup(dim)
            },
        }
    }

    pub fn lookup(&self, dim: &Dimension) -> (r: Option<Value>)
        ensures
            r == self.spec_lookup(*dim),
    {
        lookup_in(&self.0, dim)
    }

    /// The set of dimensions bound by this context, in order of first
    /// appearance.
    pub open spec fn spec_domain(self) -> Domain {
        spec_domain_acc(self.0, Domain::spec_empty())
    }

    pub fn domain(&self) -> (r: Domain)
        ensures
            r == self.spec_domain(),
    {
        domain_acc(&self.0, Domain::new())
    }

    /// Keeps, in order, exactly the tuples whose dimension lies in `d`.
    pub open spec fn spec_restrict(self, d: Domain) -> Context
        decreases self.0,
    {
        match self.0 {
            TupleList::Nil => Context(TupleList::Nil),
            TupleList::Cons(h, t) => {
                let rest = Context(*t).spec_restrict(d);
                if d.spec_has(h.dim) {
                    Context(TupleList::Cons(h, Box::new(rest.0)))
                } else {
                    rest
                }
            },
        }
    }

    pub fn restrict(&self, d: &Domain) -> (r: Context)
        ensures
            r == self.spec_restrict(*d),
    {
        restrict_in(&self.0, d)
    }

    /// Keeps, in order, exactly the tuples whose dimension lies in the
    /// difference of this context's domain and `other`'s domain, then appends
    /// every tuple of `other`: the right operand wins on overlap.
    pub open spec fn spec_perturb(self, other: Context) -> Context {
        let diff = self.spec_domain().spec_difference(other.spec_domain());
        Context(self.spec_restrict(diff).0.spec_append(other.0))
    }

    pub fn perturb(&self, other: &Context) -> (r: Context)
        ensures
            r == self.spec_perturb(*other),
    {
        let diff = self.domain().difference(&other.domain());
        let kept = self.restrict(&diff);
        Context(kept.0.append(other.0.dup()))
    }
}

/// Whether some tuple of the list binds the dimension `x`.
pub open spec fn dims_in(list: TupleList, x: Dimension) -> bool
    decreases list,
{
    match list {
        TupleList::Nil => false,
        TupleList::Cons(h, t) => h.dim == x || dims_in(*t, x),
    }
}

/// The accumulated domain holds exactly the accumulator's members and the
/// list's bound dimensions.
pub proof fn lemma_domain_acc_has(list: TupleList, acc: Domain, x: Dimension)
    ensures
        spec_domain_acc(list, acc).spec_has(x) == (acc.spec_has(x) || dims_in(list, x)),
    decreases list,
{
    match list {
        TupleList::Nil => {},
        TupleList::Cons(h, t) => {
            crate::domain::lemma_push_has(acc, h.dim, x);
            lemma_domain_acc_has(*t, acc.spec_push(h.dim), x);
        },
    }
}

/// A context's domain holds exactly the dimensions its tuples bind.
pub proof fn lemma_domain_has(k: Context, x: Dimension)
    ensures
        k.spec_domain().spec_has(x) == dims_in(k.0, x),
{
    lemma_domain_acc_has(k.0, Domain::spec_empty(), x);
    assert(Domain::spec_empty().spec_has(x) == false);
}

/// A dimension is bound by some tuple exactly when looking it up succeeds.
pub proof fn lemma_dims_in_lookup(list: TupleList, x: Dimension)
    ensures
        dims_in(list, x) == (Context(list).spec_lookup(x) is Some),
    decreases list,
{
    match list {
        TupleList::Nil => {},
        TupleList::Cons(_, t) => {
            lemma_dims_in_lookup(*t, x);
        },
    }
}

/// Appending nothing changes nothing.
pub proof fn lemma_tuples_append_nil(list: TupleList)
    ensures
        list.spec_append(TupleList::Nil) == list,
    decreases list,
{
    match list {
        TupleList::Nil => {},
        TupleList::Cons(_, t) => {
            lemma_tuples_append_nil(*t);
        },
    }
}

/// Restriction to a domain that covers every bound dimension keeps every
/// tuple.
pub proof fn lemma_restrict_all(list: TupleList, d: Domain)
    requires
        forall|x: Dimension| #[trigger] dims_in(list, x) ==> d.spec_has(x),
    ensures
        Context(list).spec_restrict(d) == Context(list),
    decreases list,
{
    match list {
        TupleList::Nil => {},
        TupleList::Cons(h, t) => {
            assert(dims_in(list, h.dim));
            assert forall|x: Dimension| #[trigger] dims_in(*t, x) implies d.spec_has(x) by {
                assert(dims_in(list, x));
            }
            lemma_restrict_all(*t, d);
        },
    }
}

/// Perturbation by the empty context is the identity: nothing is overridden
/// and nothing is appended.
pub proof fn lemma_perturb_empty(k: Context)
    ensures
        k.spec_perturb(Context(TupleList::Nil)) == k,
{
    let empty = Context(TupleList::Nil);
    assert(empty.spec_domain() == Domain::spec_empty());
    let diff = k.spec_domain().spec_difference(Domain::spec_empty());
    assert forall|x: Dimension| #[trigger] dims_in(k.0, x) implies diff.spec_has(x) by {
        lemma_domain_has(k, x);
        crate::domain::lemma_difference_has(k.spec_domain(), Domain::spec_empty(), x);
        assert(Domain::spec_empty().spec_has(x) == false);
    }
    lemma_restrict_all(k.0, diff);
    lemma_tuples_append_nil(k.spec_restrict(diff).0);
}

/// Looking up in an appended list scans the front part first.
pub proof fn lemma_lookup_append(l1: TupleList, l2: TupleList, x: Dimension)
    ensures
        Context(l1.spec_append(l2)).spec_lookup(x) == (match Context(l1).spec_lookup(x) {
            Some(v) => Some(v),
            None => Context(l2).spec_lookup(x),
        }),
    decreases l1,
{
    match l1 {
        TupleList::Nil => {},
        TupleList::Cons(_, t) => {
            lemma_lookup_append(*t, l2, x);
        },
    }
}

/// Restriction commutes with lookup: a restricted context answers exactly the
/// lookups whose dimension the domain admits.
pub proof fn lemma_restrict_lookup(k: Context, d: Domain, x: Dimension)
    ensures
        k.spec_restrict(d).spec_lookup(x) == if d.spec_has(x) {
            k.spec_lookup(x)
        } else {
            None::<Value>
        },
    decreases k.0,
{
    match k.0 {
        TupleList::Nil => {},
        TupleList::Cons(_, t) => {
            lemma_restrict_lookup(Context(*t), d, x);
        },
    }
}

/// Perturbation override: a lookup in a perturbed context answers from the
/// right operand wherever it binds the dimension, and from the left operand
/// everywhere else.
pub proof fn lemma_perturb_lookup(k: Context, k1: Context, x: Dimension)
    ensures
        k.spec_perturb(k1).spec_lookup(x) == if k1.spec_domain().spec_has(x) {
            k1.spec_lookup(x)
        } else {
            k.spec_lookup(x)
        },
{
    let diff = k.spec_domain().spec_difference(k1.spec_domain());
    let kept = k.spec_restrict(diff);
    lemma_lookup_append(kept.0, k1.0, x);
    lemma_restrict_lookup(k, diff, x);
    crate::domain::lemma_difference_has(k.spec_domain(), k1.spec_domain(), x);
    if k1.spec_domain().spec_has(x) {
        assert(kept.spec_lookup(x) is None);
    } else {
        if k.spec_domain().spec_has(x) {
            assert(kept.spec_lookup(x) == k.spec_lookup(x));
            lemma_domain_has(k, x);
            lemma_dims_in_lookup(k.0, x);
        } else {
            lemma_domain_has(k, x);
            lemma_dims_in_lookup(k.0, x);
            assert(k.spec_lookup(x) is None);
            lemma_domain_has(k1, x);
            lemma_dims_in_lookup(k1.0, x);
            assert(k1.spec_lookup(x) is None);
        }
    }
}

/// Restrict-stability, first half: restricting twice to the same domain is
/// the same as restricting once.
pub proof fn lemma_restrict_idempotent(k: Context, d: Domain)
    ensures
        k.spec_restrict(d).spec_restrict(d) == k.spec_restrict(d),
    decreases k.0,
{
    match k.0 {
        TupleList::Nil => {},
        TupleList::Cons(_, t) => {
            lemma_restrict_idempotent(Context(*t), d);
        },
    }
}

/// Restricting to a union and then to one operand is restricting to that
/// operand alone.
pub proof fn lemma_restrict_union_refines(k: Context, d1: Domain, d2: Domain)
    ensures
        k.spec_restrict(d1.spec_union(d2)).spec_restrict(d1) == k.spec_restrict(d1),
    decreases k.0,
{
    match k.0 {
        TupleList::Nil => {},
        TupleList::Cons(h, t) => {
            crate::domain::lemma_union_has(d1, d2, h.dim);
            lemma_restrict_union_refines(Context(*t), d1, d2);
        },
    }
}

/// A restriction's tuples are a sub-multiset of the context's own tuples.
pub proof fn lemma_restrict_sub_multiset(k: Context, d: Domain)
    ensures
        k.spec_restrict(d).tuples().to_multiset().spec_le(k.tuples().to_multiset()),
    decreases k.0,
{
    broadcast use vstd::multiset::group_multiset_axioms;

    match k.0 {
        TupleList::Nil => {},
        TupleList::Cons(h, t) => {
            lemma_restrict_sub_multiset(Context(*t), d);
            assert(k.tuples() == seq![*h] + (*t).seq());
            vstd::seq_lib::lemma_multiset_commutative(seq![*h], (*t).seq());
            if d.spec_has(h.dim) {
                let rest = Context(*t).spec_restrict(d);
                assert(k.spec_restrict(d).tuples() == seq![*h] + rest.tuples());
                vstd::seq_lib::lemma_multiset_commutative(seq![*h], rest.tuples());
            }
        },
    }
}

/// Restrict-stability, second half: restricting to a union keeps, as a
/// multiset, at least the tuples that restricting to one operand keeps.
pub proof fn lemma_restrict_union_super_multiset(k: Context, d1: Domain, d2: Domain)
    ensures
        k.spec_restrict(d1).tuples().to_multiset().spec_le(
            k.spec_restrict(d1.spec_union(d2)).tuples().to_multiset(),
        ),
{
    lemma_restrict_union_refines(k, d1, d2);
    lemma_restrict_sub_multiset(k.spec_restrict(d1.spec_union(d2)), d1);
}

fn lookup_in(list: &TupleList, dim: &Dimension) -> (r: Option<Value>)
    ensures
        r == Context(*list).spec_lookup(*dim),
    decreases *list,
{
    match list {
        TupleList::Nil => None,
        TupleList::Cons(h, t) => {
            if h.dim.eq_dim(dim) {
                Some(h.ord.dup())
            } else {
                lookup_in(t, dim)
            }
        },
    }
}

/// The dimensions of `list` pushed into `acc` in order, skipping those
/// already present.
pub open spec fn spec_domain_acc(list: TupleList, acc: Domain) -> Domain
    decreases list,
{
    match list {
        TupleList::Nil => acc,
        TupleList::Cons(h, t) => spec_domain_acc(*t, acc.spec_push(h.dim)),
    }
}

fn domain_acc(list: &TupleList, acc: Domain) -> (r: Domain)
    ensures
        r == spec_domain_acc(*list, acc),
    decreases *list,
{
    match list {
        TupleList::Nil => acc,
        TupleList::Cons(h, t) => {
            let mut acc2 = acc;
            acc2.push(h.dim.dup());
            domain_acc(t, acc2)
        },
    }
}

fn restrict_in(list: &TupleList, d: &Domain) -> (r: Context)
    ensures
        r == Context(*list).spec_restrict(*d),
    decreases *list,
{
    match list {
        TupleList::Nil => Context(TupleList::Nil),
        TupleList::Cons(h, t) => {
            let rest = restrict_in(t, d);
            if d.contains(&h.dim) {
                Context(TupleList::Cons(Box::new(h.dup()), Box::new(rest.0)))
            } else {
                rest
            }
        },
    }
}

} // verus!
