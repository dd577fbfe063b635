//! The failure kinds of the ledger's operations.

use vstd::prelude::*;

verus! {

/// Why a ledger operation was refused. Every refusal leaves the ledger
/// unchanged; the variants are the only failure kinds the ledger produces.
#[derive(Clone, Copy, Debug, PartialEq, Eq, Structural)]
pub enum ProduceError {
    /// An operation other than initialization ran before the ledger was
    /// initialized.
    Uninitialized,
    /// Initialization ran while the ledger was already initialized.
    AlreadyInitialized,
    /// A record was attempted under an identifier that is already present.
    DuplicateIdentifier,
    /// A bulk clear was attempted by an identity other than the owner.
    Unauthorized,
}

impl ProduceError {
    /// A human-readable description of the failure, suitable for a host's
    /// event log or abort message.
    pub fn message(&self) -> (r: String)
        ensures
            *self == ProduceError::Uninitialized ==> r@ == "The contract is not initialized."@,
            *self == ProduceError::AlreadyInitialized ==> r@ == "Already initialized"@,
            *self == ProduceError::DuplicateIdentifier ==> r@ == "Sorry, already added this UPC."@,
            *self == ProduceError::Unauthorized ==> r@
                == "To cause all veggies to perish, this method must be called by the (implied) contract owner."@,
    {
        match self {
            ProduceError::Uninitialized => "The contract is not initialized.".to_owned(),
            ProduceError::AlreadyInitialized => "Already initialized".to_owned(),
            ProduceError::DuplicateIdentifier => "Sorry, already added this UPC.".to_owned(),
            ProduceError::Unauthorized => "To cause all veggies to perish, this method must be called by the (implied) contract owner.".to_owned(),
        }
    }
}

} // verus!
