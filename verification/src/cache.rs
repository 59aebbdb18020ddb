//! The identifier cache: memoizes existence lookups against the outside
//! knowledge base by namespace and normalized key, so repeated rows incur one
//! outside query per run.  The cache lives for one run and never evicts.
use crate::text::{owned, str_eq};
use vstd::prelude::*;

verus! {

/// The kinds of lookups the resolver memoizes.
#[derive(Debug, Clone, Copy, PartialEq, Eq, Structural)]
pub enum CacheNamespace {
    ChemicalByIdentifier,
    TaxonByName,
    ReferenceByDoi,
    JournalByIssn,
    JournalByTitle,
}

/// A run-scoped memo of resolver answers.  A stored `None` records that the
/// outside lookup found nothing, which is different from a miss.
#[derive(Debug)]
pub struct IdentifierCache {
    pub entries: Vec<(CacheNamespace, String, Option<String>)>,
}

/// The stored answer for `(ns, key)`: the most recently stored one wins.
pub open spec fn cache_lookup_in(
    entries: Seq<(CacheNamespace, String, Option<String>)>,
    ns: CacheNamespace,
    key: Seq<char>,
) -> Option<Option<String>>
    decreases entries.len(),
{
    if entries.len() == 0 {
        None
    } else if entries.last().0 == ns && entries.last().1@ == key {
        Some(entries.last().2)
    } else {
        cache_lookup_in(entries.drop_last(), ns, key)
    }
}

impl IdentifierCache {
    /// The stored answer for `(ns, key)`, if any.
    pub open spec fn spec_lookup(&self, ns: CacheNamespace, key: Seq<char>) -> Option<
        Option<String>,
    > {
        cache_lookup_in(self.entries@, ns, key)
    }

    /// An empty cache.
    pub fn new() -> (c: Self)
        ensures
            forall|ns: CacheNamespace, key: Seq<char>| c.spec_lookup(ns, key) is None,
    {
        IdentifierCache { entries: Vec::new() }
    }

    /// Looks a key up; `None` is a miss, `Some(None)` a memoized negative
    /// answer.
    pub fn lookup(&self, ns: CacheNamespace, key: &str) -> (r: Option<Option<String>>)
        ensures
            r is Some <==> self.spec_lookup(ns, key@) is Some,
            r is Some ==> {
                let hit = self.spec_lookup(ns, key@).unwrap();
                &&& (r.unwrap() is Some <==> hit is Some)
                &&& (r.unwrap() is Some ==> r.unwrap().unwrap()@ == hit.unwrap()@)
            },
    {
        let mut i: usize = self.entries.len();
        proof {
            assert(self.entries@.take(i as int) =~= self.entries@);
        }
        while i > 0
            invariant
                0 <= i <= self.entries@.len(),
                cache_lookup_in(self.entries@, ns, key@) == cache_lookup_in(
                    self.entries@.take(i as int),
                    ns,
                    key@,
                ),
            decreases i,
        {
            let ghost pre = self.entries@.take(i as int);
            i = i - 1;
            let entry = &self.entries[i];
            proof {
                assert(pre.last() == self.entries@[i as int]);
                assert(pre.drop_last() =~= self.entries@.take(i as int));
            }
            if entry.0 == ns && str_eq(entry.1.as_str(), key) {
                let hit: Option<String> = match &entry.2 {
                    Some(v) => Some(owned(v.as_str())),
                    None => None,
                };
                return Some(hit);
            }
        }
        proof {
            assert(self.entries@.take(0) =~= Seq::<(CacheNamespace, String, Option<String>)>::empty());
        }
        None
    }

    /// Stores an answer, shadowing any earlier one for the same key.
    pub fn store(&mut self, ns: CacheNamespace, key: String, value: Option<String>)
        ensures
            final(self).spec_lookup(ns, key@) == Some::<Option<String>>(value),
            forall|ns2: CacheNamespace, key2: Seq<char>|
                !(ns2 == ns && key2 == key@) ==> final(self).spec_lookup(ns2, key2) == old(
                    self,
                ).spec_lookup(ns2, key2),
    {
        let ghost prev = self.entries@;
        self.entries.push((ns, key, value));
        proof {
            assert(self.entries@.drop_last() =~= prev);
        }
    }
}

} // verus!
