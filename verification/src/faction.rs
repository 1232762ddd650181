//! Faction tags carried by cards, and ordered collections of them.
//!
//! Duplicates and order inside a faction collection are permitted but carry no
//! gameplay meaning: only set-membership ("faction F present") matters.

use vstd::prelude::*;
use vstd::std_specs::iter::IteratorSpec;

verus! {

/// One of the four card factions.
#[derive(Debug, Clone, Copy, PartialEq, Eq, Structural)]
pub enum Faction {
    Blob,
    Trade,
    Star,
    Machine,
}

impl Faction {
    /// A stable small index for this faction, usable as an array index.
    pub fn to_usize(&self) -> (r: usize)
        ensures
            r == self.idx(),
            r < 4,
    {
        match self {
            Faction::Blob => 0,
            Faction::Trade => 1,
            Faction::Star => 2,
            Faction::Machine => 3,
        }
    }

    /// The index of this faction, as a spec-level value.
    pub open spec fn idx(self) -> int {
        match self {
            Faction::Blob => 0,
            Faction::Trade => 1,
            Faction::Star => 2,
            Faction::Machine => 3,
        }
    }
}

/// An ordered collection of zero or more faction tags.
#[verifier::ext_equal]
#[derive(Debug, PartialEq, Eq)]
pub struct Factions(Vec<Faction>);

impl View for Factions {
    type V = Seq<Faction>;

    closed spec fn view(&self) -> Seq<Faction> {
        self.0@
    }
}

impl Factions {
    /// Wraps a vector of faction tags.
    pub fn new(factions: Vec<Faction>) -> (r: Self)
        ensures
            r@ == factions@,
    {
        Self(factions)
    }

    /// A collection with no faction tag.
    pub fn none() -> (r: Self)
        ensures
            r@ == Seq::<Faction>::empty(),
    {
        Self(Vec::new())
    }

    /// Appends one faction tag.
    pub fn push(&mut self, faction: Faction)
        ensures
            final(self)@ == old(self)@.push(faction),
    {
        self.0.push(faction)
    }

    /// The first faction tag, if any.
    pub fn first(&self) -> (r: Option<&Faction>)
        ensures
            self@.len() == 0 ==> r is None,
            self@.len() > 0 ==> (r matches Some(f) && *f == self@[0]),
    {
        if self.0.len() == 0 {
            None
        } else {
            Some(&self.0[0])
        }
    }

    /// How many faction tags the collection holds.
    pub fn len(&self) -> (r: usize)
        ensures
            r == self@.len(),
    {
        self.0.len()
    }

    /// The faction tag at `index`.
    pub fn get(&self, index: usize) -> (r: &Faction)
        requires
            index < self@.len(),
        ensures
            *r == self@[index as int],
    {
        &self.0[index]
    }

    /// An iterator over the faction tags, in order.
    pub fn iter(&self) -> (r: std::slice::Iter<'_, Faction>)
        ensures
            r.remaining() == self@.as_ref(),
    {
        self.0.as_slice().iter()
    }

    /// Whether the given faction is present in the collection.
    pub fn has(&self, faction: &Faction) -> (r: bool)
        ensures
            r == self@.contains(*faction),
    {
        let n = self.0.len();
        let mut i: usize = 0;
        while i < n
            invariant
                i <= n,
                n == self@.len(),
                forall|j: int| 0 <= j < i ==> self@[j] != *faction,
            decreases n - i,
        {
            if self.0[i] == *faction {
                return true;
            }
            i += 1;
        }
        false
    }
}

impl Clone for Factions {
    /// A copy holding the same faction tags.
    fn clone(&self) -> (r: Self)
        ensures
            r@ == self@,
    {
        let n = self.0.len();
        let mut v: Vec<Faction> = Vec::new();
        let mut i: usize = 0;
        while i < n
            invariant
                i <= n,
                n == self@.len(),
                v@ == self@.take(i as int),
            decreases n - i,
        {
            v.push(self.0[i]);
            proof {
                assert(v@ =~= self@.take(i + 1));
            }
            i += 1;
        }
        proof {
            assert(self@.take(n as int) =~= self@);
        }
        Self(v)
    }
}

impl Default for Factions {
    /// An empty faction collection.
    fn default() -> (r: Self)
        ensures
            r@ == Seq::<Faction>::empty(),
    {
        Self(Vec::new())
    }
}

} // verus!
