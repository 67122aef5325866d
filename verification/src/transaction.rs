//! Immutable value-transfer records whose content digest is fixed at
//! construction time.

use crate::clock::current_time_micros;
use crate::decimal::{dec_str, push_decimal};
use crate::digest::{sha256_hex, sha256_hex_of};
use vstd::prelude::*;
use vstd::string::StringExecFns;

verus! {

/// A record of a value transfer. The amounts are carried in their decimal
/// text form, which is exactly the form that enters the digest.
#[derive(Debug, Clone)]
pub struct Transaction {
    pub hash: String,
    pub source_addr: String,
    pub destination_addr: String,
    pub input_amount: String,
    pub output_amount: String,
    pub timestamp: u128,
}

/// The text whose digest is a transaction's hash: source, destination, the
/// two amounts, and the decimal timestamp, concatenated in that fixed order.
pub open spec fn tx_hash_input(
    source: Seq<char>,
    destination: Seq<char>,
    input_amount: Seq<char>,
    output_amount: Seq<char>,
    timestamp: u128,
) -> Seq<char> {
    source + destination + input_amount + output_amount + dec_str(timestamp as nat)
}

/// The hash input built from a transaction's own fields.
pub open spec fn spec_tx_input(t: Transaction) -> Seq<char> {
    tx_hash_input(
        t.source_addr@,
        t.destination_addr@,
        t.input_amount@,
        t.output_amount@,
        t.timestamp,
    )
}

/// The transaction invariant: the stored hash is the digest of the other
/// five fields.
pub open spec fn tx_hash_ok(t: Transaction) -> bool {
    t.hash@ == sha256_hex_of(spec_tx_input(t))
}

impl Transaction {
    /// Creates a transaction stamped with the current wall-clock time. The
    /// stored hash is computed here, once; the record never changes after.
    pub fn new(
        source_addr: String,
        destination_addr: String,
        input_amount: String,
        output_amount: String,
    ) -> (t: Transaction)
        ensures
            t.source_addr@ == source_addr@,
            t.destination_addr@ == destination_addr@,
            t.input_amount@ == input_amount@,
            t.output_amount@ == output_amount@,
            tx_hash_ok(t),
    {
        let timestamp = current_time_micros();
        let mut t = Transaction {
            hash: String::new(),
            source_addr,
            destination_addr,
            input_amount,
            output_amount,
            timestamp,
        };
        let h = t.calculate_hash();
        t.hash = h;
        t
    }

    /// Recomputes the digest of the transaction's current fields.
    pub fn calculate_hash(&self) -> (r: String)
        ensures
            r@ == sha256_hex_of(spec_tx_input(*self)),
            r@.len() == 64,
    {
        let mut data = String::new();
        data.append(self.source_addr.as_str());
        data.append(self.destination_addr.as_str());
        data.append(self.input_amount.as_str());
        data.append(self.output_amount.as_str());
        push_decimal(&mut data, self.timestamp);
        proof {
            assert(data@ =~= spec_tx_input(*self));
        }
        sha256_hex(data.as_str())
    }

    /// The stored hash; a pure accessor.
    pub fn hash(&self) -> (r: &String)
        ensures
            r@ == self.hash@,
    {
        &self.hash
    }
}

/// Law: a transaction's hash is a pure function of its five content fields —
/// two well-hashed transactions that agree on source, destination, both
/// amounts, and timestamp carry the same hash.
pub proof fn lemma_transaction_hash_deterministic(a: Transaction, b: Transaction)
    requires
        a.source_addr@ == b.source_addr@,
        a.destination_addr@ == b.destination_addr@,
        a.input_amount@ == b.input_amount@,
        a.output_amount@ == b.output_amount@,
        a.timestamp == b.timestamp,
        tx_hash_ok(a),
        tx_hash_ok(b),
    ensures
        a.hash@ == b.hash@,
{
    assert(spec_tx_input(a) == spec_tx_input(b));
}

} // verus!
