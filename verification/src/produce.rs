//! The produce entity: an insert-once mapping from product identifier to
//! taste string, with a sentinel for absent lookups and an owner-only clear.

use vstd::prelude::*;
use vstd::string::StringExecFns;
use crate::error::ProduceError;
use crate::Upc;

verus! {

/// The fixed string a lookup returns when the identifier is absent.
/// Absence is a normal outcome of a lookup, never a failure.
pub open spec fn sentinel() -> Seq<char> {
    "No veggie found."@
}

/// The mapping described by an association list of (identifier, taste)
/// pairs. A later pair shadows an earlier one under the same identifier;
/// the entity's well-formedness rules such duplicates out.
pub open spec fn entries_map(s: Seq<(Upc, String)>) -> Map<Upc, Seq<char>>
    decreases s.len(),
{
    if s.len() == 0 {
        Map::empty()
    } else {
        entries_map(s.drop_last()).insert(s.last().0, s.last().1@)
    }
}

/// Whether the pairs of `s` carry pairwise distinct identifiers.
pub open spec fn distinct_keys(s: Seq<(Upc, String)>) -> bool {
    forall|i: int, j: int| 0 <= i < j < s.len() ==> s[i].0 != s[j].0
}

/// The mapping of an association list contains exactly the identifiers that
/// occur in some pair of the list.
proof fn lemma_entries_map_contains(s: Seq<(Upc, String)>, k: Upc)
    ensures
        entries_map(s).contains_key(k) <==> exists|i: int| 0 <= i < s.len() && s[i].0 == k,
    decreases s.len(),
{
    if s.len() == 0 {
    } else {
        lemma_entries_map_contains(s.drop_last(), k);
        if s.last().0 == k {
            assert(s[s.len() - 1].0 == k);
        } else if entries_map(s).contains_key(k) {
            let i = choose|i: int| 0 <= i < s.drop_last().len() && s.drop_last()[i].0 == k;
            assert(s[i].0 == k);
        } else if exists|i: int| 0 <= i < s.len() && s[i].0 == k {
            let i = choose|i: int| 0 <= i < s.len() && s[i].0 == k;
            assert(s.drop_last()[i].0 == k);
        }
    }
}

/// Under distinct identifiers, the mapping of an association list sends an
/// identifier to the taste of the one pair that carries it.
proof fn lemma_entries_map_value(s: Seq<(Upc, String)>, k: Upc, i: int)
    requires
        distinct_keys(s),
        0 <= i < s.len(),
        s[i].0 == k,
    ensures
        entries_map(s).contains_key(k),
        entries_map(s)[k] == s[i].1@,
    decreases s.len(),
{
    if i == s.len() - 1 {
    } else {
        assert(s.drop_last()[i].0 == k);
        lemma_entries_map_value(s.drop_last(), k, i);
        assert(s[i].0 != s.last().0);
    }
}

/// The ledger entity. It owns the mapping from identifier to taste; every
/// access goes through the operations below, and each identifier is recorded
/// at most once.
pub struct Produce {
    veggies_taste: Vec<(Upc, String)>,
}

impl View for Produce {
    type V = Map<Upc, Seq<char>>;

    closed spec fn view(&self) -> Map<Upc, Seq<char>> {
        entries_map(self.veggies_taste@)
    }
}

impl Produce {
    /// The entity's invariant: no identifier occurs twice in its backing
    /// list, so the mapping view loses no entry.
    pub closed spec fn wf(&self) -> bool {
        distinct_keys(self.veggies_taste@)
    }

    /// A fresh entity with no entries.
    pub fn new() -> (p: Produce)
        ensures
            p.wf(),
            p@ == Map::<Upc, Seq<char>>::empty(),
    {
        Produce { veggies_taste: Vec::new() }
    }

    /// The position of the pair recorded under `upc`, if any.
    fn find_index(&self, upc: Upc) -> (r: Option<usize>)
        ensures
            match r {
                Some(i) => i < self.veggies_taste@.len() && self.veggies_taste@[i as int].0
                    == upc,
                None => forall|i: int|
                    0 <= i < self.veggies_taste@.len() ==> self.veggies_taste@[i].0 != upc,
            },
    {
        let mut i: usize = 0;
        while i < self.veggies_taste.len()
            invariant
                i <= self.veggies_taste@.len(),
                forall|j: int| 0 <= j < i ==> self.veggies_taste@[j].0 != upc,
            decreases self.veggies_taste@.len() - i,
        {
            if self.veggies_taste[i].0 == upc {
                return Some(i);
            }
            i += 1;
        }
        None
    }

    /// Record a taste under an identifier. Succeeds exactly when the
    /// identifier is absent, adding the one entry; an identifier already
    /// present is refused and nothing changes.
    pub fn add_veggie_taste(&mut self, upc: Upc, taste: String) -> (r: Result<(), ProduceError>)
        requires
            old(self).wf(),
        ensures
            final(self).wf(),
            match r {
                Ok(()) => !old(self)@.contains_key(upc) && final(self)@ == old(self)@.insert(
                    upc,
                    taste@,
                ),
                Err(e) => e == ProduceError::DuplicateIdentifier && old(self)@.contains_key(upc)
                    && *final(self) == *old(self),
            },
    {
        match self.find_index(upc) {
            Some(i) => {
                proof {
                    lemma_entries_map_contains(self.veggies_taste@, upc);
                }
                Err(ProduceError::DuplicateIdentifier)
            },
            None => {
                proof {
                    lemma_entries_map_contains(self.veggies_taste@, upc);
                }
                let ghost prior = self.veggies_taste@;
                self.veggies_taste.push((upc, taste));
                proof {
                    assert(self.veggies_taste@.drop_last() =~= prior);
                    assert forall|i: int, j: int|
                        0 <= i < j < self.veggies_taste@.len() implies self.veggies_taste@[i].0
                        != self.veggies_taste@[j].0 by {
                        if j < prior.len() {
                            assert(prior[i].0 != prior[j].0);
                        } else {
                            assert(prior[i].0 != upc);
                        }
                    }
                }
                Ok(())
            },
        }
    }

    /// Return the taste recorded under an identifier, or the fixed sentinel
    /// when none is. Absence is not a failure, and nothing is mutated.
    pub fn get_taste(&self, upc: Upc) -> (r: String)
        requires
            self.wf(),
        ensures
            self@.contains_key(upc) ==> r@ == self@[upc],
            !self@.contains_key(upc) ==> r@ == sentinel(),
    {
        match self.find_index(upc) {
            Some(i) => {
                proof {
                    lemma_entries_map_value(self.veggies_taste@, upc, i as int);
                }
                self.veggies_taste[i].1.clone()
            },
            None => {
                proof {
                    lemma_entries_map_contains(self.veggies_taste@, upc);
                }
                "No veggie found.".to_owned()
            },
        }
    }

    /// Whether a taste is recorded under `upc`.
    pub fn contains(&self, upc: Upc) -> (r: bool)
        ensures
            r == self@.contains_key(upc),
    {
        match self.find_index(upc) {
            Some(i) => {
                proof {
                    lemma_entries_map_contains(self.veggies_taste@, upc);
                }
                true
            },
            None => {
                proof {
                    lemma_entries_map_contains(self.veggies_taste@, upc);
                }
                false
            },
        }
    }

    /// Rebuild an entity from a list of (identifier, taste) pairs, as a host
    /// hands it back from durable storage. A list that names an identifier
    /// twice never came from a well-formed entity and is refused.
    pub fn from_entries(entries: Vec<(Upc, String)>) -> (r: Option<Produce>)
        ensures
            match r {
                Some(p) => p.wf() && distinct_keys(entries@) && p@ == entries_map(entries@),
                None => !distinct_keys(entries@),
            },
    {
        let n = entries.len();
        let mut i: usize = 0;
        while i < n
            invariant
                n == entries@.len(),
                i <= n,
                forall|a: int, b: int| 0 <= a < b < i ==> entries@[a].0 != entries@[b].0,
            decreases n - i,
        {
            let mut j: usize = 0;
            while j < i
                invariant
                    n == entries@.len(),
                    i < n,
                    j <= i,
                    forall|a: int| 0 <= a < j ==> entries@[a].0 != entries@[i as int].0,
                decreases i - j,
            {
                if entries[j].0 == entries[i].0 {
                    return None;
                }
                j += 1;
            }
            i += 1;
        }
        Some(Produce { veggies_taste: entries })
    }

    /// The entity's entries as a list of (identifier, taste) pairs, for a
    /// host to persist; the identifiers are distinct and the list describes
    /// exactly the entity's mapping.
    pub fn entries(&self) -> (r: &Vec<(Upc, String)>)
        requires
            self.wf(),
        ensures
            distinct_keys(r@),
            entries_map(r@) == self@,
    {
        &self.veggies_taste
    }

    /// Remove every entry, on the entity's own behalf only: the invoking
    /// identity must equal the entity's own identity, else nothing changes.
    pub fn perish_all(&mut self, current_account: &String, predecessor_account: &String) -> (r:
        Result<(), ProduceError>)
        requires
            old(self).wf(),
        ensures
            final(self).wf(),
            match r {
                Ok(()) => predecessor_account@ == current_account@ && final(self)@ == Map::<
                    Upc,
                    Seq<char>,
                >::empty(),
                Err(e) => e == ProduceError::Unauthorized && predecessor_account@
                    != current_account@ && *final(self) == *old(self),
            },
    {
        if *current_account == *predecessor_account {
            self.veggies_taste = Vec::new();
            Ok(())
        } else {
            Err(ProduceError::Unauthorized)
        }
    }
}

/// The event-log line that accompanies a successful lookup of a stored taste.
pub fn taste_log_message(taste: &String) -> (r: String)
    ensures
        r@ == "This veggie is pretty "@ + taste@,
{
    let mut m: String = "This veggie is pretty ".to_owned();
    m.append(taste.as_str());
    m
}

/// The event-log line that accompanies a successful bulk clear.
pub fn perish_log_message() -> (r: String)
    ensures
        r@ == "All veggies removed, time to restock!"@,
{
    "All veggies removed, time to restock!".to_owned()
}

} // verus!
