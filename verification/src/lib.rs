//! A minimal persistent produce ledger: a mapping from numeric product
//! identifiers to descriptive taste strings, with insert-once semantics,
//! a sentinel for absent lookups, and an owner-only bulk clear.

use vstd::prelude::*;

mod error;
mod ledger;
mod produce;

pub use error::ProduceError;
pub use ledger::ProduceLedger;
pub use ledger::lemma_insert_once;
pub use produce::Produce;
pub use produce::distinct_keys;
pub use produce::entries_map;
pub use produce::perish_log_message;
pub use produce::sentinel;
pub use produce::taste_log_message;

verus! {

/// A product identifier: an unsigned 128-bit key naming one ledger entry.
pub type Upc = u128;

} // verus!
