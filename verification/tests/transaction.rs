use bitnun::blockchain::transaction::transactions_to_json;
use bitnun::blockchain::Transaction;

fn sample() -> Transaction {
    Transaction::transfer_at(
        "id1".to_string(),
        "t1".to_string(),
        "alice",
        "bob",
        5,
        "transfer",
    )
}

#[test]
fn transfer_has_given_fields_and_ten_grams() {
    let tx = sample();
    assert_eq!(tx.id, "id1");
    assert_eq!(tx.timestamp, "t1");
    assert_eq!(tx.from_address, "alice");
    assert_eq!(tx.to_address, "bob");
    assert_eq!(tx.amount, 5);
    assert_eq!(tx.transaction_type, "transfer");
    assert_eq!(tx.action_proof, None);
    assert_eq!(tx.carbon_offset, 10);
}

#[test]
fn new_transfer_gets_a_hyphenated_uuid() {
    let tx = Transaction::new("alice", "bob", 7, "transfer");
    assert_eq!(tx.id.chars().count(), 36);
    let hyphens: Vec<usize> = tx.id.char_indices().filter(|(_, c)| *c == '-').map(|(i, _)| i).collect();
    assert_eq!(hyphens, vec![8, 13, 18, 23]);
    assert!(uuid::Uuid::parse_str(&tx.id).is_ok());
    assert_eq!(tx.from_address, "alice");
    assert_eq!(tx.to_address, "bob");
    assert_eq!(tx.amount, 7);
    assert_eq!(tx.carbon_offset, 10);
}

#[test]
fn new_transfers_get_different_ids() {
    let first = Transaction::new("alice", "bob", 1, "transfer");
    let second = Transaction::new("alice", "bob", 1, "transfer");
    assert_ne!(first.id, second.id);
}

#[test]
fn new_transfer_is_stamped_in_rfc3339() {
    let tx = Transaction::new("alice", "bob", 7, "transfer");
    assert!(chrono::DateTime::parse_from_rfc3339(&tx.timestamp).is_ok());
}

#[test]
fn action_mining_reward_is_system_issued() {
    let tx = Transaction::action_mining_at(
        "id2".to_string(),
        "t2".to_string(),
        "carol",
        "click",
        12,
        "proofhash",
    );
    assert_eq!(tx.from_address, "");
    assert_eq!(tx.to_address, "carol");
    assert_eq!(tx.amount, 12);
    assert_eq!(tx.transaction_type, "action_mining_click");
    assert_eq!(tx.action_proof, Some("proofhash".to_string()));
    assert_eq!(tx.carbon_offset, 5);
    let fresh = Transaction::new_action_mining("carol", "share", 3, "p");
    assert_eq!(fresh.transaction_type, "action_mining_share");
    assert_eq!(fresh.id.len(), 36);
    assert_eq!(fresh.carbon_offset, 5);
}

#[test]
fn mining_reward_is_system_issued() {
    let tx = Transaction::mining_reward_at("id3".to_string(), "t3".to_string(), "miner", 1000);
    assert_eq!(tx.from_address, "");
    assert_eq!(tx.to_address, "miner");
    assert_eq!(tx.amount, 1000);
    assert_eq!(tx.transaction_type, "mining_reward");
    assert_eq!(tx.action_proof, None);
    assert_eq!(tx.carbon_offset, 15);
    let fresh = Transaction::new_mining_reward("miner", 1000);
    assert_eq!(fresh.transaction_type, "mining_reward");
    assert_eq!(fresh.id.len(), 36);
}

#[test]
fn genesis_transaction_has_fixed_id() {
    let tx = Transaction::genesis_at("t0".to_string(), "genesis", 1_000_000_000);
    assert_eq!(tx.id, "genesis");
    assert_eq!(tx.from_address, "");
    assert_eq!(tx.to_address, "genesis");
    assert_eq!(tx.amount, 1_000_000_000);
    assert_eq!(tx.transaction_type, "genesis");
    assert_eq!(tx.carbon_offset, 0);
    let fresh = Transaction::new_genesis("root", 5);
    assert_eq!(fresh.id, "genesis");
    assert_eq!(fresh.to_address, "root");
    assert_eq!(fresh.amount, 5);
}

#[test]
fn set_action_proof_changes_only_the_proof() {
    let mut tx = sample();
    tx.set_action_proof("abc");
    assert_eq!(tx.action_proof, Some("abc".to_string()));
    assert_eq!(tx.id, "id1");
    assert_eq!(tx.amount, 5);
    tx.set_action_proof("def");
    assert_eq!(tx.action_proof, Some("def".to_string()));
}

#[test]
fn validity_needs_id_recipient_and_amount() {
    assert!(sample().is_valid());
    let mut no_amount = sample();
    no_amount.amount = 0;
    assert!(!no_amount.is_valid());
    let mut no_recipient = sample();
    no_recipient.to_address = String::new();
    assert!(!no_recipient.is_valid());
    let mut no_id = sample();
    no_id.id = String::new();
    assert!(!no_id.is_valid());
    let mut no_sender = sample();
    no_sender.from_address = String::new();
    assert!(no_sender.is_valid());
}

#[test]
fn json_lists_fields_in_declaration_order() {
    assert_eq!(
        sample().to_json(),
        "{\"id\":\"id1\",\"from_address\":\"alice\",\"to_address\":\"bob\",\"amount\":5,\
         \"timestamp\":\"t1\",\"transaction_type\":\"transfer\",\"action_proof\":null,\
         \"carbon_offset\":10}"
    );
}

#[test]
fn json_escapes_strings_and_writes_the_proof() {
    let mut tx = sample();
    tx.id = "a\"b\\c\nd".to_string();
    tx.set_action_proof("p\t1");
    assert_eq!(
        tx.to_json(),
        "{\"id\":\"a\\\"b\\\\c\\nd\",\"from_address\":\"alice\",\"to_address\":\"bob\",\
         \"amount\":5,\"timestamp\":\"t1\",\"transaction_type\":\"transfer\",\
         \"action_proof\":\"p\\t1\",\"carbon_offset\":10}"
    );
}

#[test]
fn json_parses_back_to_the_same_values() {
    let mut tx = sample();
    tx.from_address = "\u{1}x\u{7f}é".to_string();
    tx.amount = u64::MAX;
    let parsed: serde_json::Value = serde_json::from_str(&tx.to_json()).unwrap();
    assert_eq!(parsed["from_address"].as_str(), Some("\u{1}x\u{7f}é"));
    assert_eq!(parsed["amount"].as_u64(), Some(u64::MAX));
    assert!(parsed["action_proof"].is_null());
    assert_eq!(parsed["carbon_offset"].as_u64(), Some(10));
}

#[test]
fn json_array_of_transactions() {
    assert_eq!(transactions_to_json(&[]), "[]");
    let one = sample().to_json();
    assert_eq!(transactions_to_json(&[sample()]), format!("[{}]", one));
    let mut other = sample();
    other.id = "id2".to_string();
    assert_eq!(
        transactions_to_json(&[sample(), other.clone()]),
        format!("[{},{}]", one, other.to_json())
    );
}

#[test]
fn clone_keeps_every_field() {
    let mut tx = sample();
    tx.set_action_proof("abc");
    let copy = tx.clone();
    assert_eq!(copy.to_json(), tx.to_json());
}
