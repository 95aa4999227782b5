//! The fingerprint by which the overlay tells one message from another.
//!
//! A fingerprint is made of the payload alone, so that a message has the
//! same one on every node and along every path. It is the 64-bit SipHash of
//! std's `DefaultHasher`, fed with the payload's length as eight
//! little-endian bytes and then the payload, and it is written in decimal.
use std::collections::hash_map::DefaultHasher;
use std::hash::Hasher;
use vstd::bytes::{spec_u64_to_le_bytes, u64_to_le_bytes};
use vstd::prelude::*;
use vstd::std_specs::hash::DefaultHasherAdditionalSpecFns;
use crate::utils::peer::NodeIdentifier;

verus! {

/// A message of the overlay, as the network stack hands it over.
#[derive(Debug, Clone, PartialEq, Eq)]
pub struct Message {
    /// Who signed the message, where it says so.
    pub source: Option<NodeIdentifier>,
    /// The payload.
    pub data: Vec<u8>,
    /// The sender's running number, where the message carries one.
    pub sequence_number: Option<u64>,
    /// The topic the message was published on.
    pub topic: String,
}

/// Identifies a payload: two messages with the same fingerprint count as the
/// same message.
#[derive(Debug, Clone, Copy, PartialEq, Eq, Structural)]
pub struct MessageId {
    /// The payload's 64-bit hash.
    pub hash: u64,
}

/// What is fed to the hasher for a payload: its length, then its bytes.
pub open spec fn hash_input(data: Seq<u8>) -> Seq<Seq<u8>> {
    seq![spec_u64_to_le_bytes(data.len() as u64), data]
}

/// The 64-bit hash of a payload.
pub open spec fn payload_hash(data: Seq<u8>) -> u64 {
    DefaultHasher::spec_finish(hash_input(data))
}

/// The ASCII character of the digit `d`.
pub open spec fn digit(d: nat) -> u8 {
    (48 + d) as u8
}

/// `n` in decimal, most significant digit first, as ASCII.
pub open spec fn decimal_digits(n: nat) -> Seq<u8>
    decreases n,
{
    if n < 10 {
        seq![digit(n)]
    } else {
        decimal_digits(n / 10).push(digit(n % 10))
    }
}

/// A number has at least one digit and each digit is `0` to `9`.
pub proof fn lemma_decimal_digits_shape(n: nat)
    ensures
        decimal_digits(n).len() >= 1,
        n >= 10 ==> decimal_digits(n).len() >= 2,
        forall|i: int|
            0 <= i < decimal_digits(n).len() ==> 48 <= #[trigger] decimal_digits(n)[i] <= 57,
    decreases n,
{
    if n >= 10 {
        lemma_decimal_digits_shape(n / 10);
    }
}

/// Different numbers are written differently.
pub proof fn lemma_decimal_digits_injective(a: nat, b: nat)
    requires
        decimal_digits(a) == decimal_digits(b),
    ensures
        a == b,
    decreases a,
{
    lemma_decimal_digits_shape(a);
    lemma_decimal_digits_shape(b);
    if a < 10 || b < 10 {
        assert(a < 10 && b < 10);
        assert(decimal_digits(a)[0] == digit(a));
        assert(decimal_digits(b)[0] == digit(b));
    } else {
        let front_a = decimal_digits(a / 10);
        let front_b = decimal_digits(b / 10);
        assert(front_a.push(digit(a % 10)).drop_last() =~= front_a);
        assert(front_b.push(digit(b % 10)).drop_last() =~= front_b);
        assert(front_a.push(digit(a % 10)).last() == digit(a % 10));
        assert(front_b.push(digit(b % 10)).last() == digit(b % 10));
        assert(front_a == front_b);
        assert(digit(a % 10) == digit(b % 10));
        lemma_decimal_digits_injective(a / 10, b / 10);
        assert(a % 10 == b % 10);
    }
}

impl MessageId {
    /// The fingerprint in decimal, the form in which it travels.
    pub fn to_bytes(&self) -> (text: Vec<u8>)
        ensures
            text@ == decimal_digits(self.hash as nat),
    {
        let mut rest: u64 = self.hash;
        let mut low: Vec<u8> = Vec::new();
        while rest >= 10
            invariant
                decimal_digits(self.hash as nat) == decimal_digits(rest as nat) + low@.reverse(),
            decreases rest,
        {
            let d: u8 = (rest % 10) as u8;
            proof {
                let grown = low@.push((48 + d) as u8);
                assert(grown.reverse() =~= seq![(48 + d) as u8] + low@.reverse());
                assert(decimal_digits(rest as nat) == decimal_digits((rest / 10) as nat).push(
                    digit((rest % 10) as nat),
                ));
                assert(decimal_digits((rest / 10) as nat).push((48 + d) as u8) + low@.reverse()
                    =~= decimal_digits((rest / 10) as nat) + grown.reverse());
            }
            low.push(48 + d);
            rest = rest / 10;
        }
        proof {
            let grown = low@.push((48 + rest) as u8);
            assert(grown.reverse() =~= seq![(48 + rest) as u8] + low@.reverse());
        }
        low.push(48 + rest as u8);
        let mut text: Vec<u8> = Vec::new();
        let mut i: usize = low.len();
        while i > 0
            invariant
                i <= low.len(),
                text@ == low@.reverse().take(low.len() - i),
            decreases i,
        {
            i -= 1;
            text.push(low[i]);
            assert(text@ =~= low@.reverse().take(low.len() - i));
        }
        assert(text@ =~= low@.reverse());
        text
    }
}

/// The fingerprint of a payload.
pub fn fingerprint(payload: &Vec<u8>) -> (id: MessageId)
    ensures
        id.hash == payload_hash(payload@),
{
    let mut state = DefaultHasher::new();
    let prefix = u64_to_le_bytes(payload.len() as u64);
    state.write(prefix.as_slice());
    state.write(payload.as_slice());
    assert(state@ =~= hash_input(payload@));
    MessageId { hash: state.finish() }
}

/// The fingerprint of a message. It depends on the payload and on nothing
/// else: not on the sender, the running number or the topic.
pub fn message_id(message: &Message) -> (id: MessageId)
    ensures
        id.hash == payload_hash(message.data@),
{
    fingerprint(&message.data)
}

/// Messages with the same payload have the same fingerprint, whoever sent
/// them and whatever else they carry.
pub proof fn lemma_fingerprint_of_payload_only(first: Message, second: Message)
    requires
        first.data@ == second.data@,
    ensures
        payload_hash(first.data@) == payload_hash(second.data@),
{
}

/// What is hashed tells payloads apart: two payloads are fed to the hasher
/// as the same input only if they are the same payload.
pub proof fn lemma_hash_input_injective(first: Seq<u8>, second: Seq<u8>)
    requires
        hash_input(first) == hash_input(second),
    ensures
        first == second,
{
    assert(hash_input(first)[1] == first);
    assert(hash_input(second)[1] == second);
}

/// Two fingerprints are written with the same digits only if they are the
/// same fingerprint.
pub proof fn lemma_fingerprint_text_injective(first: MessageId, second: MessageId)
    requires
        decimal_digits(first.hash as nat) == decimal_digits(second.hash as nat),
    ensures
        first == second,
{
    lemma_decimal_digits_injective(first.hash as nat, second.hash as nat);
}

} // verus!
