//! Identifiers, represented as byte lists so that equality in contracts is
//! plain structural equality.

use vstd::prelude::*;

verus! {

/// An identifier: a list of bytes, usually the UTF-8 encoding of a source
/// name. Using a self-contained list keeps equality structural, which lets
/// contracts speak of identifiers with `==`.
#[derive(Debug, PartialEq, Eq)]
pub enum Name {
    Nil,
    Ch(u8, Box<Name>),
}

impl Name {
    /// The bytes of this name, as a sequence, for use in contracts.
    pub open spec fn bytes(self) -> Seq<u8>
        decreases self,
    {
        match self {
            Name::Nil => Seq::empty(),
            Name::Ch(b, rest) => seq![b] + rest.bytes(),
        }
    }

    /// Builds a name from a byte slice, preserving order.
    pub fn from_bytes(s: &[u8]) -> (r: Name)
        ensures
            r.bytes() == s@,
    {
        Self::from_bytes_from(s, 0)
    }

    fn from_bytes_from(s: &[u8], i: usize) -> (r: Name)
        requires
            i <= s@.len(),
        ensures
            r.bytes() == s@.skip(i as int),
        decreases s@.len() - i,
    {
        if i == s.len() {
            assert(s@.skip(i as int) =~= Seq::<u8>::empty());
            Name::Nil
        } else {
            let rest = Self::from_bytes_from(s, i + 1);
            let r = Name::Ch(s[i], Box::new(rest));
            assert(r.bytes() =~= s@.skip(i as int));
            r
        }
    }

    /// Structural equality test.
    pub fn eq_name(&self, other: &Name) -> (r: bool)
        ensures
            r == (*self == *other),
        decreases *self,
    {
        match (self, other) {
            (Name::Nil, Name::Nil) => true,
            (Name::Ch(a, ta), Name::Ch(b, tb)) => *a == *b && ta.eq_name(tb),
            _ => false,
        }
    }

    /// A structural copy.
    pub fn dup(&self) -> (r: Name)
        ensures
            r == *self,
        decreases *self,
    {
        match self {
            Name::Nil => Name::Nil,
            Name::Ch(b, t) => Name::Ch(*b, Box::new(t.dup())),
        }
    }
}

} // verus!
