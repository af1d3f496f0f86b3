//! Identifiers for new records: a clock reading in the high bits and a per-process sequence
//! number in the low sixteen.

use vstd::prelude::*;

verus! {

/// The identifier made of a clock reading in nanoseconds and a sequence number: the
/// reading shifted left by sixteen bits (bits shifted out are lost), with the sequence
/// number's low sixteen bits below it.
pub open spec fn entity_id(nanos: u128, sequence: u64) -> u128 {
    (nanos << 16u128) | ((sequence as u128) & 0xFFFFu128)
}

/// Makes the identifier for a record created at `nanos` (nanoseconds since the Unix epoch,
/// read by the caller) as the `sequence`-th of this process.
pub fn next_entity_id(nanos: u128, sequence: u64) -> (r: u128)
    ensures r == entity_id(nanos, sequence),
{
    (nanos << 16u128) | ((sequence as u128) & 0xFFFFu128)
}

/// Two records made at the same instant get different identifiers when their sequence
/// numbers differ in the low sixteen bits; the low bits always hold the sequence number.
pub proof fn lemma_entity_ids_separate_sequences(nanos: u128, first: u64, second: u64)
    ensures
        entity_id(nanos, first) & 0xFFFFu128 == (first as u128) & 0xFFFFu128,
        (first as u128) & 0xFFFFu128 != (second as u128) & 0xFFFFu128 ==> entity_id(nanos, first) != entity_id(nanos, second),
{
    assert(((nanos << 16u128) | ((first as u128) & 0xFFFFu128)) & 0xFFFFu128 == (first as u128) & 0xFFFFu128) by (bit_vector);
    assert(((nanos << 16u128) | ((second as u128) & 0xFFFFu128)) & 0xFFFFu128 == (second as u128) & 0xFFFFu128) by (bit_vector);
}

/// The time since the Unix epoch in nanoseconds (`SystemTime::now`,
/// `duration_since(UNIX_EPOCH)`, `Duration::as_nanos`), or none when the clock reads before
/// the epoch. The reading depends on the clock, so nothing is promised of its value.
#[verifier::external_body]
fn clock_nanos() -> (r: Option<u128>) {
    match std::time::SystemTime::now().duration_since(std::time::UNIX_EPOCH) {
        Ok(duration) => Some(duration.as_nanos()),
        Err(_) => None,
    }
}

/// Makes the identifier for the `sequence`-th record of this process from the clock: the
/// nanoseconds since the Unix epoch, or 1 when the clock reads before it.
pub fn new_entity_id(sequence: u64) -> (r: u128)
    ensures
        exists|nanos: u128| r == entity_id(nanos, sequence),
        r & 0xFFFFu128 == (sequence as u128) & 0xFFFFu128,
{
    let nanos: u128 = match clock_nanos() {
        Some(n) => n,
        None => 1,
    };
    proof {
        lemma_entity_ids_separate_sequences(nanos, sequence, sequence);
    }
    next_entity_id(nanos, sequence)
}

} // verus!
