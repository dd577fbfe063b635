//! The deployment-level state machine around the produce entity.
//!
//! A deployment is either uninitialized (no entity exists yet) or
//! initialized (it holds a well-formed entity). Initialization is a one-shot
//! constructor; every other operation is refused while uninitialized.

use vstd::prelude::*;
use crate::error::ProduceError;
use crate::produce::Produce;
use crate::produce::sentinel;
use crate::Upc;

verus! {

/// One deployment of the produce ledger: the owner identity it runs under
/// and its backing state, treated as absent until `initialize` has run.
pub struct ProduceLedger {
    owner: String,
    initialized: bool,
    produce: Produce,
}

impl ProduceLedger {
    /// The deployment identity the ledger runs under; `clear_all` is allowed
    /// to this identity alone.
    pub closed spec fn owner_id(&self) -> Seq<char> {
        self.owner@
    }

    /// Whether backing state exists. Exactly two lifecycle states exist:
    /// uninitialized (no entity) and initialized (a valid entity).
    pub closed spec fn is_initialized(&self) -> bool {
        self.initialized
    }

    /// The entries of the backing entity; meaningful only once initialized.
    pub closed spec fn entries(&self) -> Map<Upc, Seq<char>> {
        self.produce@
    }

    /// The deployment's invariant: the backing entity is well-formed.
    pub closed spec fn wf(&self) -> bool {
        self.produce.wf()
    }

    /// A fresh deployment under `owner`, with no backing state yet: every
    /// operation but `initialize` is refused on it.
    pub fn deploy(owner: String) -> (l: ProduceLedger)
        ensures
            l.wf(),
            !l.is_initialized(),
            l.owner_id() == owner@,
    {
        ProduceLedger { owner, initialized: false, produce: Produce::new() }
    }

    /// One-shot initialization: creates the empty entity, and is refused if
    /// backing state already exists, leaving everything unchanged.
    pub fn initialize(&mut self) -> (r: Result<(), ProduceError>)
        requires
            old(self).wf(),
        ensures
            final(self).wf(),
            final(self).owner_id() == old(self).owner_id(),
            match r {
                Ok(()) => !old(self).is_initialized() && final(self).is_initialized()
                    && final(self).entries() == Map::<Upc, Seq<char>>::empty(),
                Err(e) => e == ProduceError::AlreadyInitialized && old(self).is_initialized()
                    && *final(self) == *old(self),
            },
    {
        if self.initialized {
            Err(ProduceError::AlreadyInitialized)
        } else {
            self.initialized = true;
            self.produce = Produce::new();
            Ok(())
        }
    }

    /// Record `taste` under `upc`. Refused while uninitialized; refused, with
    /// no change, when `upc` is already present; otherwise adds exactly that
    /// one entry.
    pub fn record(&mut self, upc: Upc, taste: String) -> (r: Result<(), ProduceError>)
        requires
            old(self).wf(),
        ensures
            final(self).wf(),
            final(self).owner_id() == old(self).owner_id(),
            final(self).is_initialized() == old(self).is_initialized(),
            !old(self).is_initialized() ==> r
                == Err::<(), ProduceError>(ProduceError::Uninitialized)
                && *final(self) == *old(self),
            old(self).is_initialized() && old(self).entries().contains_key(upc) ==> r
                == Err::<(), ProduceError>(ProduceError::DuplicateIdentifier)
                && *final(self) == *old(self),
            old(self).is_initialized() && !old(self).entries().contains_key(upc) ==> r is Ok
                && final(self).entries() == old(self).entries().insert(upc, taste@),
    {
        if !self.initialized {
            Err(ProduceError::Uninitialized)
        } else {
            self.produce.add_veggie_taste(upc, taste)
        }
    }

    /// Look up the taste recorded under `upc`. Refused while uninitialized;
    /// once initialized it never fails: an absent identifier yields the
    /// fixed sentinel string, and nothing is mutated either way.
    pub fn lookup(&self, upc: Upc) -> (r: Result<String, ProduceError>)
        requires
            self.wf(),
        ensures
            !self.is_initialized() ==> r
                == Err::<String, ProduceError>(ProduceError::Uninitialized),
            self.is_initialized() ==> r is Ok,
            self.is_initialized() && self.entries().contains_key(upc) ==> r->Ok_0@
                == self.entries()[upc],
            self.is_initialized() && !self.entries().contains_key(upc) ==> r->Ok_0@ == sentinel(),
    {
        if !self.initialized {
            Err(ProduceError::Uninitialized)
        } else {
            Ok(self.produce.get_taste(upc))
        }
    }

    /// Remove every entry, unconditionally on its size, when `caller` is the
    /// deployment identity itself; any other caller is refused and nothing
    /// changes. Refused while uninitialized.
    pub fn clear_all(&mut self, caller: &String) -> (r: Result<(), ProduceError>)
        requires
            old(self).wf(),
        ensures
            final(self).wf(),
            final(self).owner_id() == old(self).owner_id(),
            final(self).is_initialized() == old(self).is_initialized(),
            !old(self).is_initialized() ==> r
                == Err::<(), ProduceError>(ProduceError::Uninitialized)
                && *final(self) == *old(self),
            old(self).is_initialized() && caller@ != old(self).owner_id() ==> r
                == Err::<(), ProduceError>(ProduceError::Unauthorized)
                && *final(self) == *old(self),
            old(self).is_initialized() && caller@ == old(self).owner_id() ==> r is Ok
                && final(self).entries() == Map::<Upc, Seq<char>>::empty(),
    {
        if !self.initialized {
            Err(ProduceError::Uninitialized)
        } else {
            let owner = self.owner.clone();
            self.produce.perish_all(&owner, caller)
        }
    }
}

/// Insert-once law: once a taste is recorded under an identifier, the
/// identifier is present from then on, so a second record under it is the
/// refused case of `record` and cannot change the entry, and a lookup of it
/// yields the first taste, never a later one.
pub proof fn lemma_insert_once(entries: Map<Upc, Seq<char>>, k: Upc, v1: Seq<char>, v2: Seq<char>)
    requires
        !entries.contains_key(k),
    ensures
        entries.insert(k, v1).contains_key(k),
        entries.insert(k, v1)[k] == v1,
        v1 != v2 ==> entries.insert(k, v1)[k] != v2,
{
}

} // verus!
