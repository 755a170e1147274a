//! The bridge to the chain's scheduler: what to book so that a poll is closed at its end,
//! and the key under which the booking is made and revoked.

use crate::encoding::{
    encode_tag, encode_u32, encode_u64, le_bytes, lemma_capacity_of_integers,
    lemma_le_bytes_injective, lemma_le_bytes_len,
};
use crate::types::{BlockNumber, PollCurrency, PollIndex};
use vstd::prelude::*;

verus! {

/// The tag that every scheduler key of this registry starts with: the bytes of "UnitPoll".
pub const POLLS_ID: [u8; 8] = [0x55, 0x6e, 0x69, 0x74, 0x50, 0x6f, 0x6c, 0x6c];

/// The priority at which the closing of a poll is booked.
pub const CLOSING_PRIORITY: u8 = 63;

/// The bytes that stand for a currency in a key: a byte that tells the two kinds apart,
/// and after it, for an asset, the asset's identifier.
pub open spec fn currency_bytes(currency: PollCurrency) -> Seq<u8> {
    match currency {
        PollCurrency::Asset(asset) => seq![0u8] + le_bytes(asset as nat, 4),
        PollCurrency::Native => seq![1u8],
    }
}

/// The scheduler key of the poll `poll_id` of `currency`: the tag, the currency, the
/// identifier.
pub open spec fn key_bytes(currency: PollCurrency, poll_id: PollIndex) -> Seq<u8> {
    POLLS_ID@ + currency_bytes(currency) + le_bytes(poll_id as nat, 8)
}

/// Two polls never share a scheduler key.
pub proof fn lemma_key_names_one_poll(
    currency_a: PollCurrency,
    poll_a: PollIndex,
    currency_b: PollCurrency,
    poll_b: PollIndex,
)
    requires
        key_bytes(currency_a, poll_a) == key_bytes(currency_b, poll_b),
    ensures
        currency_a == currency_b,
        poll_a == poll_b,
{
    let key_a = key_bytes(currency_a, poll_a);
    let key_b = key_bytes(currency_b, poll_b);
    lemma_capacity_of_integers();
    lemma_le_bytes_len(poll_a as nat, 8);
    lemma_le_bytes_len(poll_b as nat, 8);
    assert(POLLS_ID@.len() == 8);
    assert(key_a[8] == currency_bytes(currency_a)[0]);
    assert(key_b[8] == currency_bytes(currency_b)[0]);
    match (currency_a, currency_b) {
        (PollCurrency::Asset(asset_a), PollCurrency::Asset(asset_b)) => {
            lemma_le_bytes_len(asset_a as nat, 4);
            lemma_le_bytes_len(asset_b as nat, 4);
            assert(key_a.subrange(9, 13) == le_bytes(asset_a as nat, 4));
            assert(key_b.subrange(9, 13) == le_bytes(asset_b as nat, 4));
            lemma_le_bytes_injective(asset_a as nat, asset_b as nat, 4);
            assert(key_a.subrange(13, 21) == le_bytes(poll_a as nat, 8));
            assert(key_b.subrange(13, 21) == le_bytes(poll_b as nat, 8));
        },
        (PollCurrency::Native, PollCurrency::Native) => {
            assert(key_a.subrange(9, 17) == le_bytes(poll_a as nat, 8));
            assert(key_b.subrange(9, 17) == le_bytes(poll_b as nat, 8));
        },
        (PollCurrency::Asset(asset_a), PollCurrency::Native) => {
            lemma_le_bytes_len(asset_a as nat, 4);
            assert(key_a.len() == 21 && key_b.len() == 17);
        },
        (PollCurrency::Native, PollCurrency::Asset(asset_b)) => {
            lemma_le_bytes_len(asset_b as nat, 4);
            assert(key_a.len() == 17 && key_b.len() == 21);
        },
    }
    lemma_le_bytes_injective(poll_a as nat, poll_b as nat, 8);
}

/// Appends `tail` to `bytes`.
fn append(bytes: &mut Vec<u8>, tail: &Vec<u8>)
    ensures
        final(bytes)@ == old(bytes)@ + tail@,
{
    let mut i: usize = 0;
    while i < tail.len()
        invariant
            i <= tail@.len(),
            bytes@ == old(bytes)@ + tail@.take(i as int),
        decreases tail@.len() - i,
    {
        bytes.push(tail[i]);
        i = i + 1;
        assert(tail@.take(i as int) == tail@.take(i - 1).push(tail@[i - 1]));
    }
    assert(tail@.take(i as int) == tail@);
}

/// The key under which the closing of the poll `poll_id` of `currency` is booked with the
/// scheduler, and under which the booking is revoked.
pub fn schedule_key(currency: PollCurrency, poll_id: PollIndex) -> (key: Vec<u8>)
    ensures
        key@ == key_bytes(currency, poll_id),
{
    let mut key: Vec<u8> = encode_tag(&POLLS_ID);
    match currency {
        PollCurrency::Asset(asset) => {
            key.push(0);
            let asset_bytes = encode_u32(asset);
            append(&mut key, &asset_bytes);
        },
        PollCurrency::Native => {
            key.push(1);
        },
    }
    let id_bytes = encode_u64(poll_id);
    append(&mut key, &id_bytes);
    key
}

/// The name of the booking for a scheduler that names its tasks by 32 bytes: the key,
/// with zeros after it.
pub open spec fn name_bytes(currency: PollCurrency, poll_id: PollIndex) -> Seq<u8> {
    let key = key_bytes(currency, poll_id);
    Seq::new(32, |i: int| if i < key.len() { key[i] } else { 0u8 })
}

/// A key is shorter than a name, so a name holds all of its key.
pub proof fn lemma_key_fits_name(currency: PollCurrency, poll_id: PollIndex)
    ensures
        key_bytes(currency, poll_id).len() == (if currency is Asset { 21int } else { 17int }),
        name_bytes(currency, poll_id).take(key_bytes(currency, poll_id).len() as int) == key_bytes(
            currency,
            poll_id,
        ),
{
    lemma_le_bytes_len(poll_id as nat, 8);
    if let PollCurrency::Asset(asset) = currency {
        lemma_le_bytes_len(asset as nat, 4);
    }
    assert(POLLS_ID@.len() == 8);
}

/// Two polls never share a name.
pub proof fn lemma_name_names_one_poll(
    currency_a: PollCurrency,
    poll_a: PollIndex,
    currency_b: PollCurrency,
    poll_b: PollIndex,
)
    requires
        name_bytes(currency_a, poll_a) == name_bytes(currency_b, poll_b),
    ensures
        currency_a == currency_b,
        poll_a == poll_b,
{
    let key_a = key_bytes(currency_a, poll_a);
    let key_b = key_bytes(currency_b, poll_b);
    let name_a = name_bytes(currency_a, poll_a);
    let name_b = name_bytes(currency_b, poll_b);
    lemma_key_fits_name(currency_a, poll_a);
    lemma_key_fits_name(currency_b, poll_b);
    lemma_le_bytes_len(poll_a as nat, 8);
    lemma_le_bytes_len(poll_b as nat, 8);
    assert(POLLS_ID@.len() == 8);
    assert(name_a[8] == key_a[8] && name_b[8] == key_b[8]);
    assert(key_a[8] == currency_bytes(currency_a)[0]);
    assert(key_b[8] == currency_bytes(currency_b)[0]);
    assert(key_a.len() == key_b.len());
    assert(key_a == name_a.take(key_a.len() as int));
    assert(key_b == name_b.take(key_b.len() as int));
    lemma_key_names_one_poll(currency_a, poll_a, currency_b, poll_b);
}

/// The name under which the closing of the poll `poll_id` of `currency` is booked with a
/// scheduler that names its tasks by 32 bytes.
pub fn task_name(currency: PollCurrency, poll_id: PollIndex) -> (name: [u8; 32])
    ensures
        name@ == name_bytes(currency, poll_id),
{
    let key = schedule_key(currency, poll_id);
    proof {
        lemma_key_fits_name(currency, poll_id);
    }
    let mut name: [u8; 32] = [0u8; 32];
    let mut i: usize = 0;
    while i < key.len()
        invariant
            i <= key@.len() <= 32,
            forall|j: int| 0 <= j < i ==> name@[j] == key@[j],
            forall|j: int| i <= j < 32 ==> name@[j] == 0u8,
        decreases key@.len() - i,
    {
        name[i] = key[i];
        i = i + 1;
    }
    assert(name@ =~= name_bytes(currency, poll_id));
    name
}

/// What the chain's scheduler is asked to keep: one deferred call that closes a poll.
#[derive(Clone, Debug, PartialEq, Eq)]
pub struct Booking {
    /// The key of the booking; no other poll has it.
    pub key: Vec<u8>,
    /// The block at which the scheduler makes the call.
    pub at: BlockNumber,
    /// The priority of the call among those of its block.
    pub priority: u8,
    /// The currency of the poll to close.
    pub currency: PollCurrency,
    /// The identifier of the poll to close.
    pub poll_id: PollIndex,
}

impl Booking {
    /// The booking that closes the poll `poll_id` of `currency` at block `end`.
    pub open spec fn closes(self, currency: PollCurrency, poll_id: PollIndex, end: BlockNumber) -> bool {
        &&& self.key@ == key_bytes(currency, poll_id)
        &&& self.at == end
        &&& self.priority == CLOSING_PRIORITY
        &&& self.currency == currency
        &&& self.poll_id == poll_id
    }

    /// Makes the booking that closes the poll `poll_id` of `currency` at block `end`.
    pub fn closing(currency: PollCurrency, poll_id: PollIndex, end: BlockNumber) -> (r: Booking)
        ensures
            r.closes(currency, poll_id, end),
    {
        Booking { key: schedule_key(currency, poll_id), at: end, priority: CLOSING_PRIORITY, currency, poll_id }
    }
}

} // verus!
