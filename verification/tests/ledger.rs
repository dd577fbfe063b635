use produce_ledger::perish_log_message;
use produce_ledger::taste_log_message;
use produce_ledger::Produce;
use produce_ledger::ProduceError;
use produce_ledger::ProduceLedger;

const CUCUMBER_UPC: u128 = 679508051007679508;
const SENTINEL: &str = "No veggie found.";

fn initialized(owner: &str) -> ProduceLedger {
    let mut ledger = ProduceLedger::deploy(owner.to_string());
    ledger.initialize().unwrap();
    ledger
}

#[test]
fn add_veggie() {
    let mut contract = Produce::new();
    let soso = "so-so".to_string();
    contract.add_veggie_taste(CUCUMBER_UPC, soso.clone()).unwrap();
    let returned_taste = contract.get_taste(CUCUMBER_UPC);
    println!("Taste returned: {}", returned_taste.clone());
    assert_eq!(soso, returned_taste);
}

#[test]
fn no_double_initialize() {
    let mut ledger = ProduceLedger::deploy("alice.testnet".to_string());
    assert_eq!(ledger.initialize(), Ok(()));
    ledger.record(CUCUMBER_UPC, "so-so".to_string()).unwrap();
    assert_eq!(ledger.initialize(), Err(ProduceError::AlreadyInitialized));
    assert_eq!(ledger.lookup(CUCUMBER_UPC), Ok("so-so".to_string()));
}

#[test]
fn insert_once_keeps_first_value() {
    let mut ledger = initialized("alice.testnet");
    assert_eq!(ledger.record(7, "v1".to_string()), Ok(()));
    assert_eq!(
        ledger.record(7, "v2".to_string()),
        Err(ProduceError::DuplicateIdentifier)
    );
    assert_eq!(ledger.lookup(7), Ok("v1".to_string()));
}

#[test]
fn absent_lookup_returns_sentinel() {
    let ledger = initialized("alice.testnet");
    assert_eq!(ledger.lookup(42), Ok(SENTINEL.to_string()));
}

#[test]
fn record_then_lookup() {
    let mut ledger = initialized("alice.testnet");
    assert_eq!(ledger.record(CUCUMBER_UPC, "so-so".to_string()), Ok(()));
    assert_eq!(ledger.lookup(CUCUMBER_UPC), Ok("so-so".to_string()));
}

#[test]
fn duplicate_record_keeps_stored_taste() {
    let mut ledger = initialized("alice.testnet");
    ledger.record(CUCUMBER_UPC, "so-so".to_string()).unwrap();
    assert_eq!(
        ledger.record(CUCUMBER_UPC, "crunchy".to_string()),
        Err(ProduceError::DuplicateIdentifier)
    );
    assert_eq!(ledger.lookup(CUCUMBER_UPC), Ok("so-so".to_string()));
}

#[test]
fn owner_clear_empties_ledger() {
    let mut ledger = initialized("alice.testnet");
    ledger.record(CUCUMBER_UPC, "so-so".to_string()).unwrap();
    assert_eq!(ledger.clear_all(&"alice.testnet".to_string()), Ok(()));
    assert_eq!(ledger.lookup(CUCUMBER_UPC), Ok(SENTINEL.to_string()));
}

#[test]
fn foreign_clear_is_refused() {
    let mut ledger = initialized("alice.testnet");
    ledger.record(CUCUMBER_UPC, "so-so".to_string()).unwrap();
    assert_eq!(
        ledger.clear_all(&"robert.testnet".to_string()),
        Err(ProduceError::Unauthorized)
    );
    assert_eq!(ledger.lookup(CUCUMBER_UPC), Ok("so-so".to_string()));
}

#[test]
fn owner_clear_of_empty_ledger_succeeds() {
    let mut ledger = initialized("alice.testnet");
    assert_eq!(ledger.clear_all(&"alice.testnet".to_string()), Ok(()));
    assert_eq!(ledger.lookup(1), Ok(SENTINEL.to_string()));
}

#[test]
fn uninitialized_operations_are_refused() {
    let mut ledger = ProduceLedger::deploy("alice.testnet".to_string());
    assert_eq!(
        ledger.record(CUCUMBER_UPC, "so-so".to_string()),
        Err(ProduceError::Uninitialized)
    );
    assert_eq!(ledger.lookup(CUCUMBER_UPC), Err(ProduceError::Uninitialized));
    assert_eq!(
        ledger.clear_all(&"alice.testnet".to_string()),
        Err(ProduceError::Uninitialized)
    );
}

#[test]
fn produce_rejects_duplicate_and_keeps_entry() {
    let mut produce = Produce::new();
    assert_eq!(produce.add_veggie_taste(1, "crisp".to_string()), Ok(()));
    assert_eq!(
        produce.add_veggie_taste(1, "soggy".to_string()),
        Err(ProduceError::DuplicateIdentifier)
    );
    assert_eq!(produce.get_taste(1), "crisp".to_string());
    assert_eq!(produce.get_taste(2), SENTINEL.to_string());
}

#[test]
fn produce_perish_all_checks_identity() {
    let mut produce = Produce::new();
    produce.add_veggie_taste(1, "crisp".to_string()).unwrap();
    assert_eq!(
        produce.perish_all(&"alice.testnet".to_string(), &"robert.testnet".to_string()),
        Err(ProduceError::Unauthorized)
    );
    assert_eq!(produce.get_taste(1), "crisp".to_string());
    assert_eq!(
        produce.perish_all(&"alice.testnet".to_string(), &"alice.testnet".to_string()),
        Ok(())
    );
    assert_eq!(produce.get_taste(1), SENTINEL.to_string());
}

#[test]
fn log_messages() {
    assert_eq!(
        taste_log_message(&"so-so".to_string()),
        "This veggie is pretty so-so".to_string()
    );
    assert_eq!(
        perish_log_message(),
        "All veggies removed, time to restock!".to_string()
    );
}

#[test]
fn error_messages() {
    assert_eq!(
        ProduceError::Uninitialized.message(),
        "The contract is not initialized.".to_string()
    );
    assert_eq!(
        ProduceError::AlreadyInitialized.message(),
        "Already initialized".to_string()
    );
    assert_eq!(
        ProduceError::DuplicateIdentifier.message(),
        "Sorry, already added this UPC.".to_string()
    );
    assert_eq!(
        ProduceError::Unauthorized.message(),
        "To cause all veggies to perish, this method must be called by the (implied) contract owner.".to_string()
    );
}

#[test]
fn largest_identifier_is_ordinary() {
    let mut ledger = initialized("alice.testnet");
    assert_eq!(ledger.record(u128::MAX, "ripe".to_string()), Ok(()));
    assert_eq!(ledger.lookup(u128::MAX), Ok("ripe".to_string()));
    assert_eq!(ledger.lookup(u128::MAX - 1), Ok(SENTINEL.to_string()));
}
