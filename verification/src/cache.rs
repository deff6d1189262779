//! The memoization cache: results of identifier evaluation keyed by the
//! identifier and the context restricted to the tried domain.

use vstd::prelude::*;

use crate::context::Context;
use crate::domain::Domain;
use crate::either::Either;
use crate::name::Name;
use crate::value::Value;

verus! {

/// A cache key: an identifier together with a restricted context.
#[derive(Debug, PartialEq, Eq)]
pub struct Key {
    pub x: Name,
    pub k: Context,
}

#[derive(Debug, PartialEq, Eq)]
pub struct CacheEntry {
    pub key: Key,
    pub val: Either<Value, Domain>,
}

#[derive(Debug, PartialEq, Eq)]
pub enum CacheList {
    Nil,
    Cons(Box<CacheEntry>, Box<CacheList>),
}

/// The cache. The newest entries stand at the front, and `find` returns the
/// first match, so a later `add` for the same key overrides an earlier one.
#[derive(Debug, PartialEq, Eq)]
pub struct Cache(pub CacheList);

impl Cache {
    /// The empty cache.
    pub fn new() -> (r: Cache)
        ensures
            r == Cache(CacheList::Nil),
    {
        Cache(CacheList::Nil)
    }

    pub fn dup(&self) -> (r: Cache)
        ensures
            r == *self,
    {
        Cache(dup_list(&self.0))
    }

    /// The value most recently stored under `(x, k)`, if any.
    pub open spec fn spec_find(self, x: Name, k: Context) -> Option<Either<Value, Domain>>
        decreases self.0,
    {
        match self.0 {
            CacheList::Nil => None,
            CacheList::Cons(h, t) => if h.key.x == x && h.key.k == k {
                Some(h.val)
            } else {
                Cache(*t).spec_find(x, k)
            },
        }
    }

    pub fn find(&self, x: &Name, k: &Context) -> (r: Option<Either<Value, Domain>>)
        ensures
            r == self.spec_find(*x, *k),
    {
        find_in(&self.0, x, k)
    }

    /// Stores `v` under `(x, k)`, overriding any earlier entry for that key.
    pub open spec fn spec_add(self, x: Name, k: Context, v: Either<Value, Domain>) -> Cache {
        Cache(
            CacheList::Cons(Box::new(CacheEntry { key: Key { x, k }, val: v }), Box::new(self.0)),
        )
    }

    pub fn add(&mut self, x: Name, k: Context, v: Either<Value, Domain>) -> (r: Either<
        Value,
        Domain,
    >)
        ensures
            *final(self) == old(self).spec_add(x, k, v),
            r == v,
    {
        let r = v.dup();
        let mut list = CacheList::Nil;
        core::mem::swap(&mut list, &mut self.0);
        self.0 = CacheList::Cons(
            Box::new(CacheEntry { key: Key { x, k }, val: v }),
            Box::new(list),
        );
        r
    }
}

fn dup_list(list: &CacheList) -> (r: CacheList)
    ensures
        r == *list,
    decreases *list,
{
    match list {
        CacheList::Nil => CacheList::Nil,
        CacheList::Cons(h, t) => CacheList::Cons(
            Box::new(
                CacheEntry {
                    key: Key { x: h.key.x.dup(), k: h.key.k.dup() },
                    val: h.val.dup(),
                },
            ),
            Box::new(dup_list(t)),
        ),
    }
}

fn find_in(list: &CacheList, x: &Name, k: &Context) -> (r: Option<Either<Value, Domain>>)
    ensures
        r == Cache(*list).spec_find(*x, *k),
    decreases *list,
{
    match list {
        CacheList::Nil => None,
        CacheList::Cons(h, t) => {
            if h.key.x.eq_name(x) && h.key.k.eq_context(k) {
                Some(h.val.dup())
            } else {
                find_in(t, x, k)
            }
        },
    }
}

/// Finding is a pure function of the cache and the key: any number of
/// subsequent `find` calls with an equal identifier and an equal restricted
/// context return the same stored result.
pub proof fn lemma_find_deterministic(c: Cache, x1: Name, k1: Context, x2: Name, k2: Context)
    requires
        x1 == x2,
        k1 == k2,
    ensures
        c.spec_find(x1, k1) == c.spec_find(x2, k2),
{
}

/// A result just stored under a key is exactly what a subsequent find for
/// that key returns, and entries under other keys are untouched.
pub proof fn lemma_add_find(c: Cache, x: Name, k: Context, v: Either<Value, Domain>, x2: Name, k2: Context)
    ensures
        c.spec_add(x, k, v).spec_find(x, k) == Some(v),
        !(x2 == x && k2 == k) ==> c.spec_add(x, k, v).spec_find(x2, k2) == c.spec_find(x2, k2),
{
}

} // verus!
