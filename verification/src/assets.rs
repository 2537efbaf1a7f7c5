//! The asset table: which texture references resolve, and to what colour.

use vstd::prelude::*;
use crate::colour::Colour;

verus! {

/// One resolvable texture reference.
#[derive(Clone, Copy, PartialEq, Eq, Structural, Debug)]
pub struct AssetEntry {
    pub id: u64,
    pub colour: Colour,
}

/// A lookup table resolving texture references by identifier.
#[derive(Clone, Debug)]
pub struct Assets {
    pub entries: Vec<AssetEntry>,
}

/// A validation failure: the identifier of a reference that did not resolve.
#[derive(Clone, Copy, PartialEq, Eq, Structural, Debug)]
pub struct ValidationError {
    pub missing_id: u64,
}

impl Assets {
    pub open spec fn has_id(self, id: u64) -> bool {
        exists|i: int| 0 <= i < self.entries@.len() && self.entries@[i].id == id
    }

    /// The colour of the first entry carrying `id`.
    pub open spec fn colour_of(self, id: u64) -> Colour {
        colour_of_seq(self.entries@, id)
    }

    pub fn new() -> (r: Assets)
        ensures
            r.entries@.len() == 0,
    {
        Assets { entries: Vec::new() }
    }

    pub fn insert(&mut self, id: u64, colour: Colour)
        ensures
            final(self).entries@ == old(self).entries@.push(AssetEntry { id, colour }),
    {
        self.entries.push(AssetEntry { id, colour });
    }

    pub fn contains(&self, id: u64) -> (r: bool)
        ensures
            r == self.has_id(id),
    {
        let mut i: usize = 0;
        while i < self.entries.len()
            invariant
                0 <= i <= self.entries@.len(),
                forall|j: int| 0 <= j < i ==> self.entries@[j].id != id,
            decreases self.entries@.len() - i,
        {
            if self.entries[i].id == id {
                return true;
            }
            i = i + 1;
        }
        false
    }

    /// The colour an identifier resolves to; black when it does not resolve.
    pub fn resolve(&self, id: u64) -> (r: Colour)
        ensures
            self.has_id(id) ==> r == self.colour_of(id),
            !self.has_id(id) ==> r == crate::colour::black(),
    {
        let mut i: usize = 0;
        while i < self.entries.len()
            invariant
                0 <= i <= self.entries@.len(),
                forall|j: int| 0 <= j < i ==> self.entries@[j].id != id,
            decreases self.entries@.len() - i,
        {
            if self.entries[i].id == id {
                proof {
                    lemma_colour_of_first(*self, id, i as int);
                }
                return self.entries[i].colour;
            }
            i = i + 1;
        }
        Colour::black_c()
    }
}

/// The colour of the first entry of `s` carrying `id`; black when none does.
pub open spec fn colour_of_seq(s: Seq<AssetEntry>, id: u64) -> Colour
    decreases s.len(),
{
    if s.len() == 0 {
        crate::colour::black()
    } else if s[0].id == id {
        s[0].colour
    } else {
        colour_of_seq(s.drop_first(), id)
    }
}

proof fn lemma_colour_of_first(a: Assets, id: u64, i: int)
    requires
        0 <= i < a.entries@.len(),
        a.entries@[i].id == id,
        forall|j: int| 0 <= j < i ==> a.entries@[j].id != id,
    ensures
        a.colour_of(id) == a.entries@[i].colour,
    decreases i,
{
    lemma_colour_of_seq_first(a.entries@, id, i);
}

proof fn lemma_colour_of_seq_first(s: Seq<AssetEntry>, id: u64, i: int)
    requires
        0 <= i < s.len(),
        s[i].id == id,
        forall|j: int| 0 <= j < i ==> s[j].id != id,
    ensures
        colour_of_seq(s, id) == s[i].colour,
    decreases i,
{
    if i == 0 {
    } else {
        assert(forall|j: int| 0 <= j < i - 1 ==> s.drop_first()[j].id != id);
        lemma_colour_of_seq_first(s.drop_first(), id, i - 1);
    }
}

} // verus!
