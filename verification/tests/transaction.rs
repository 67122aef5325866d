use graphite_chain::transaction::Transaction;
use sha2::{Digest, Sha256};

fn sha256_upper_hex(data: &str) -> String {
    let mut hasher = Sha256::new();
    hasher.update(data);
    format!("{:X}", hasher.finalize())
}

fn sample_transaction(timestamp: u128) -> Transaction {
    Transaction {
        hash: String::new(),
        source_addr: String::from("alice"),
        destination_addr: String::from("bob"),
        input_amount: format!("{}", 1.5f64),
        output_amount: format!("{}", 1.25f64),
        timestamp,
    }
}

#[test]
fn it_stores_the_digest_of_its_fields_at_construction() {
    let t = Transaction::new(
        String::from("alice"),
        String::from("bob"),
        format!("{}", 0.1f64),
        format!("{}", 0.0f64),
    );

    let expected = sha256_upper_hex(&format!(
        "{}{}{}{}{}",
        t.source_addr, t.destination_addr, t.input_amount, t.output_amount, t.timestamp
    ));

    assert_eq!(expected, t.hash);
    assert_eq!(&t.hash, t.hash());
}

#[test]
fn it_computes_the_same_hash_for_identical_fields() {
    let a = sample_transaction(1700000000000000);
    let b = sample_transaction(1700000000000000);

    assert_eq!(a.calculate_hash(), b.calculate_hash());
}

#[test]
fn it_computes_a_different_hash_when_only_the_timestamp_differs() {
    let a = sample_transaction(1700000000000000);
    let b = sample_transaction(1700000000000001);

    assert_ne!(a.calculate_hash(), b.calculate_hash());
}

#[test]
fn it_hashes_a_known_transaction_to_a_known_digest() {
    let t = Transaction {
        hash: String::new(),
        source_addr: String::from("src"),
        destination_addr: String::from("dest"),
        input_amount: String::from("1"),
        output_amount: String::from("2"),
        timestamp: 42,
    };

    let expected = sha256_upper_hex("srcdest1242");

    assert_eq!(expected, t.calculate_hash());
}
