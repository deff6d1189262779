//! Domains: sets of dimensions, kept in insertion order and without
//! duplicates so that they double as deterministic lists.

use vstd::prelude::*;

use crate::value::{Dimension, DimList};

verus! {

/// A set of dimensions. The underlying list holds them in insertion order;
/// `push` never adds a dimension that is already present. The derived `==`
/// compares the ordered representation; the set reading of the algebra is
/// `eq_set`, which compares membership alone.
#[derive(Debug, PartialEq, Eq)]
pub struct Domain(pub DimList);

impl Domain {
    /// The dimensions of this domain, in insertion order.
    pub open spec fn dims(self) -> Seq<Dimension> {
        self.0.seq()
    }

    /// The dimensions of this domain, as a set.
    pub open spec fn set(self) -> Set<Dimension> {
        self.dims().to_set()
    }

    pub open spec fn spec_empty() -> Domain {
        Domain(DimList::Nil)
    }

    /// Whether `d` is a member.
    pub open spec fn spec_has(self, d: Dimension) -> bool
        decreases self.0,
    {
        match self.0 {
            DimList::Nil => false,
            DimList::Cons(h, t) => *h == d || Domain(*t).spec_has(d),
        }
    }

    /// Appends `d` unless it is already present.
    pub open spec fn spec_push(self, d: Dimension) -> Domain {
        if self.spec_has(d) {
            self
        } else {
            Domain(self.0.spec_append(DimList::Cons(Box::new(d), Box::new(DimList::Nil))))
        }
    }

    /// Every member of `other` pushed into `self`, in `other`'s order.
    pub open spec fn spec_union(self, other: Domain) -> Domain
        decreases other.0,
    {
        match other.0 {
            DimList::Nil => self,
            DimList::Cons(h, t) => self.spec_push(*h).spec_union(Domain(*t)),
        }
    }

    /// The members of `self` that are not members of `other`, in order.
    pub open spec fn spec_difference(self, other: Domain) -> Domain
        decreases self.0,
    {
        match self.0 {
            DimList::Nil => Domain(DimList::Nil),
            DimList::Cons(h, t) => {
                let rest = Domain(*t).spec_difference(other);
                if other.spec_has(*h) {
                    rest
                } else {
                    Domain(DimList::Cons(h, Box::new(rest.0)))
                }
            },
        }
    }

    /// Whether every member of `self` is a member of `other`.
    pub open spec fn spec_is_subset(self, other: Domain) -> bool
        decreases self.0,
    {
        match self.0 {
            DimList::Nil => true,
            DimList::Cons(h, t) => other.spec_has(*h) && Domain(*t).spec_is_subset(other),
        }
    }

    pub open spec fn spec_len(self) -> nat {
        self.0.spec_len()
    }

    pub open spec fn spec_is_empty(self) -> bool {
        self.0 is Nil
    }

    /// The empty domain.
    pub fn new() -> (r: Domain)
        ensures
            r == Domain::spec_empty(),
    {
        Domain(DimList::Nil)
    }

    pub fn dup(&self) -> (r: Domain)
        ensures
            r == *self,
    {
        Domain(self.0.dup())
    }

    pub fn eq_domain(&self, other: &Domain) -> (r: bool)
        ensures
            r == (*self == *other),
    {
        self.0.eq_dims(&other.0)
    }

    /// Set equality: whether the two domains have the same members. This is
    /// the equality of the domain algebra; the structural `==` additionally
    /// fixes the insertion order of the representation.
    pub fn eq_set(&self, other: &Domain) -> (r: bool)
        ensures
            r == (self.set() == other.set()),
    {
        let r = self.is_subset(other) && other.is_subset(self);
        proof {
            if self.spec_is_subset(*other) && other.spec_is_subset(*self) {
                lemma_subset_means(*self, *other);
                lemma_subset_means(*other, *self);
                assert forall|x: Dimension|
                    #[trigger] self.set().contains(x) == other.set().contains(x) by {
                    lemma_set_has(*self, x);
                    lemma_set_has(*other, x);
                }
                assert(self.set() =~= other.set());
            } else if !self.spec_is_subset(*other) {
                lemma_not_subset_witness(*self, *other);
                let w = choose|x: Dimension| self.spec_has(x) && !other.spec_has(x);
                lemma_set_has(*self, w);
                lemma_set_has(*other, w);
                assert(self.set().contains(w) && !other.set().contains(w));
            } else {
                lemma_not_subset_witness(*other, *self);
                let w = choose|x: Dimension| other.spec_has(x) && !self.spec_has(x);
                lemma_set_has(*self, w);
                lemma_set_has(*other, w);
                assert(other.set().contains(w) && !self.set().contains(w));
            }
        }
        r
    }

    pub fn contains(&self, d: &Dimension) -> (r: bool)
        ensures
            r == self.spec_has(*d),
    {
        has_in(&self.0, d)
    }

    /// Inserts `d`, reporting whether it was new.
    pub fn push(&mut self, d: Dimension) -> (r: bool)
        ensures
            *final(self) == old(self).spec_push(d),
            r == !old(self).spec_has(d),
    {
        if self.contains(&d) {
            false
        } else {
            let mut list = DimList::Nil;
            core::mem::swap(&mut list, &mut self.0);
            self.0 = list.append(DimList::Cons(Box::new(d), Box::new(DimList::Nil)));
            true
        }
    }

    /// Pushes `d` without mutation, for use where a fresh domain is wanted.
    pub fn cons_dedup(&self, d: &Dimension) -> (r: Domain)
        ensures
            r == self.spec_push(*d),
    {
        let mut r = self.dup();
        r.push(d.dup());
        r
    }

    pub fn is_empty(&self) -> (r: bool)
        ensures
            r == self.spec_is_empty(),
    {
        match &self.0 {
            DimList::Nil => true,
            _ => false,
        }
    }

    pub fn len(&self) -> (r: usize)
        requires
            self.spec_len() <= usize::MAX,
        ensures
            r == self.spec_len(),
    {
        self.0.len()
    }

    pub fn is_subset(&self, other: &Domain) -> (r: bool)
        ensures
            r == self.spec_is_subset(*other),
    {
        subset_in(&self.0, other)
    }

    pub fn union(&self, other: &Domain) -> (r: Domain)
        ensures
            r == self.spec_union(*other),
    {
        union_in(self.dup(), &other.0)
    }

    pub fn difference(&self, other: &Domain) -> (r: Domain)
        ensures
            r == self.spec_difference(*other),
    {
        difference_in(&self.0, other)
    }

    /// The members as a plain dimension list.
    pub fn to_list(&self) -> (r: DimList)
        ensures
            r == self.0,
    {
        self.0.dup()
    }

    /// A domain collecting the members of a dimension list, in order.
    pub open spec fn spec_from_list(l: DimList) -> Domain {
        Domain::spec_empty().spec_union(Domain(l))
    }

    pub fn from_list(l: &DimList) -> (r: Domain)
        ensures
            r == Domain::spec_from_list(*l),
    {
        union_in(Domain(DimList::Nil), l)
    }
}

/// Membership in an appended list is membership in either part.
pub proof fn lemma_has_append(l1: DimList, l2: DimList, x: Dimension)
    ensures
        Domain(l1.spec_append(l2)).spec_has(x) == (Domain(l1).spec_has(x) || Domain(
            l2,
        ).spec_has(x)),
    decreases l1,
{
    match l1 {
        DimList::Nil => {},
        DimList::Cons(_, t) => {
            lemma_has_append(*t, l2, x);
        },
    }
}

/// Pushing adds exactly one possible member.
pub proof fn lemma_push_has(d: Domain, y: Dimension, x: Dimension)
    ensures
        d.spec_push(y).spec_has(x) == (d.spec_has(x) || x == y),
{
    if !d.spec_has(y) {
        lemma_has_append(d.0, DimList::Cons(Box::new(y), Box::new(DimList::Nil)), x);
        assert(Domain(DimList::Nil).spec_has(x) == false);
        assert(Domain(DimList::Cons(Box::new(y), Box::new(DimList::Nil))).spec_has(x) == (y == x));
    }
}

/// Membership in a union is membership in either operand.
pub proof fn lemma_union_has(a: Domain, b: Domain, x: Dimension)
    ensures
        a.spec_union(b).spec_has(x) == (a.spec_has(x) || b.spec_has(x)),
    decreases b.0,
{
    match b.0 {
        DimList::Nil => {},
        DimList::Cons(h, t) => {
            lemma_push_has(a, *h, x);
            lemma_union_has(a.spec_push(*h), Domain(*t), x);
        },
    }
}

/// Membership in a difference is membership in the left operand and absence
/// from the right one.
pub proof fn lemma_difference_has(a: Domain, b: Domain, x: Dimension)
    ensures
        a.spec_difference(b).spec_has(x) == (a.spec_has(x) && !b.spec_has(x)),
    decreases a.0,
{
    match a.0 {
        DimList::Nil => {},
        DimList::Cons(_, t) => {
            lemma_difference_has(Domain(*t), b, x);
        },
    }
}

/// The subset test means just what it says: every member of the left operand
/// is a member of the right one.
pub proof fn lemma_subset_means(a: Domain, b: Domain)
    ensures
        a.spec_is_subset(b) <==> (forall|x: Dimension| #[trigger] a.spec_has(x) ==> b.spec_has(x)),
    decreases a.0,
{
    match a.0 {
        DimList::Nil => {},
        DimList::Cons(h, t) => {
            lemma_subset_means(Domain(*t), b);
            if a.spec_is_subset(b) {
                assert forall|x: Dimension| #[trigger] a.spec_has(x) implies b.spec_has(x) by {
                    if x == *h {
                    } else {
                        assert(Domain(*t).spec_has(x));
                    }
                }
            }
            if forall|x: Dimension| #[trigger] a.spec_has(x) ==> b.spec_has(x) {
                assert(a.spec_has(*h));
                assert forall|x: Dimension| #[trigger] Domain(*t).spec_has(x) implies b.spec_has(
                    x,
                ) by {
                    assert(a.spec_has(x));
                }
            }
        },
    }
}

/// A failed subset test names a witness: a member of the left operand that
/// the right one lacks.
pub proof fn lemma_not_subset_witness(a: Domain, b: Domain)
    requires
        !a.spec_is_subset(b),
    ensures
        exists|x: Dimension| a.spec_has(x) && !b.spec_has(x),
    decreases a.0,
{
    match a.0 {
        DimList::Nil => {},
        DimList::Cons(h, t) => {
            if !b.spec_has(*h) {
                assert(a.spec_has(*h) && !b.spec_has(*h));
            } else {
                lemma_not_subset_witness(Domain(*t), b);
                let x = choose|x: Dimension| Domain(*t).spec_has(x) && !b.spec_has(x);
                assert(a.spec_has(x) && !b.spec_has(x));
            }
        },
    }
}

/// Membership in the set view is exactly membership by `spec_has`.
pub proof fn lemma_set_has(d: Domain, x: Dimension)
    ensures
        d.set().contains(x) == d.spec_has(x),
    decreases d.0,
{
    broadcast use vstd::set::group_set_axioms;

    match d.0 {
        DimList::Nil => {
            assert(!d.dims().contains(x));
        },
        DimList::Cons(h, t) => {
            lemma_set_has(Domain(*t), x);
            assert(d.dims() == seq![*h] + (*t).seq());
            if d.spec_has(x) {
                if *h == x {
                    assert(d.dims()[0] == x);
                    assert(d.dims().contains(x));
                } else {
                    assert(Domain(*t).dims().contains(x));
                    let i = choose|i: int|
                        0 <= i < (*t).seq().len() && (*t).seq()[i] == x;
                    assert(d.dims()[i + 1] == x);
                    assert(d.dims().contains(x));
                }
            } else {
                assert forall|i: int| 0 <= i < d.dims().len() implies d.dims()[i] != x by {
                    if i > 0 {
                        assert(d.dims()[i] == (*t).seq()[i - 1]);
                        assert(!Domain(*t).dims().contains(x));
                    }
                }
            }
        },
    }
}

/// Every domain is a subset of itself.
pub proof fn lemma_subset_refl(a: Domain)
    ensures
        a.spec_is_subset(a),
{
    lemma_subset_means(a, a);
}

/// The subset relation is transitive.
pub proof fn lemma_subset_trans(a: Domain, b: Domain, c: Domain)
    requires
        a.spec_is_subset(b),
        b.spec_is_subset(c),
    ensures
        a.spec_is_subset(c),
{
    lemma_subset_means(a, b);
    lemma_subset_means(b, c);
    lemma_subset_means(a, c);
}

/// Both operands are subsets of their union.
pub proof fn lemma_union_upper_bounds(a: Domain, b: Domain)
    ensures
        a.spec_is_subset(a.spec_union(b)),
        b.spec_is_subset(a.spec_union(b)),
{
    let u = a.spec_union(b);
    assert forall|x: Dimension| #[trigger] a.spec_has(x) implies u.spec_has(x) by {
        lemma_union_has(a, b, x);
    }
    assert forall|x: Dimension| #[trigger] b.spec_has(x) implies u.spec_has(x) by {
        lemma_union_has(a, b, x);
    }
    lemma_subset_means(a, u);
    lemma_subset_means(b, u);
}

/// A domain is a subset of itself with one more member pushed.
pub proof fn lemma_push_upper_bound(a: Domain, y: Dimension)
    ensures
        a.spec_is_subset(a.spec_push(y)),
        a.spec_push(y).spec_has(y),
{
    assert forall|x: Dimension| #[trigger] a.spec_has(x) implies a.spec_push(y).spec_has(x) by {
        lemma_push_has(a, y, x);
    }
    lemma_subset_means(a, a.spec_push(y));
    lemma_push_has(a, y, y);
}

/// Missing-set growth: uniting a tried domain with a missing set that it does
/// not cover grows the tried domain strictly.
pub proof fn lemma_union_strict_growth(dd: Domain, d0: Domain)
    requires
        !d0.spec_is_subset(dd),
    ensures
        dd.spec_is_subset(dd.spec_union(d0)),
        !dd.spec_union(d0).spec_is_subset(dd),
{
    let u = dd.spec_union(d0);
    assert forall|x: Dimension| #[trigger] dd.spec_has(x) implies u.spec_has(x) by {
        lemma_union_has(dd, d0, x);
    }
    lemma_subset_means(dd, u);
    lemma_not_subset_witness(d0, dd);
    let w = choose|x: Dimension| d0.spec_has(x) && !dd.spec_has(x);
    lemma_union_has(dd, d0, w);
    assert(u.spec_has(w));
    lemma_subset_means(u, dd);
}

fn has_in(list: &DimList, d: &Dimension) -> (r: bool)
    ensures
        r == Domain(*list).spec_has(*d),
    decreases *list,
{
    match list {
        DimList::Nil => false,
        DimList::Cons(h, t) => h.eq_dim(d) || has_in(t, d),
    }
}

fn subset_in(list: &DimList, other: &Domain) -> (r: bool)
    ensures
        r == Domain(*list).spec_is_subset(*other),
    decreases *list,
{
    match list {
        DimList::Nil => true,
        DimList::Cons(h, t) => other.contains(h) && subset_in(t, other),
    }
}

fn union_in(acc: Domain, other: &DimList) -> (r: Domain)
    ensures
        r == acc.spec_union(Domain(*other)),
    decreases *other,
{
    match other {
        DimList::Nil => acc,
        DimList::Cons(h, t) => {
            let mut acc2 = acc;
            acc2.push(h.dup());
            union_in(acc2, t)
        },
    }
}

fn difference_in(list: &DimList, other: &Domain) -> (r: Domain)
    ensures
        r == Domain(*list).spec_difference(*other),
    decreases *list,
{
    match list {
        DimList::Nil => Domain(DimList::Nil),
        DimList::Cons(h, t) => {
            let rest = difference_in(t, other);
            if other.contains(h) {
                rest
            } else {
                Domain(DimList::Cons(Box::new(h.dup()), Box::new(rest.0)))
            }
        },
    }
}

} // verus!
