//! Where the registry keeps its polls: an indexed map from currency and identifier to poll.

use crate::poll::PollDetails;
use crate::types::{PollCurrency, PollIndex};
use std::collections::HashMap;
use vstd::prelude::*;

verus! {

broadcast use vstd::std_specs::hash::group_hash_axioms;

/// The number that stands for a currency in a slot: 0 for the native currency, and for an
/// asset the number after its identifier.
pub open spec fn currency_code(currency: PollCurrency) -> nat {
    match currency {
        PollCurrency::Native => 0,
        PollCurrency::Asset(asset) => (asset + 1) as nat,
    }
}

/// The slot of the poll `poll_id` of `currency`: the currency's code in the upper half,
/// the identifier in the lower.
pub open spec fn slot_of(currency: PollCurrency, poll_id: PollIndex) -> u128 {
    (currency_code(currency) * 0x1_0000_0000_0000_0000 + poll_id) as u128
}

/// Two polls never share a slot.
pub proof fn lemma_slot_names_one_poll(a: (PollCurrency, PollIndex), b: (PollCurrency, PollIndex))
    requires
        slot_of(a.0, a.1) == slot_of(b.0, b.1),
    ensures
        a == b,
{
}

/// The polls of the registry, by currency and identifier.
pub struct PollStore {
    slots: HashMap<u128, PollDetails>,
}

impl View for PollStore {
    type V = Map<(PollCurrency, PollIndex), PollDetails>;

    closed spec fn view(&self) -> Map<(PollCurrency, PollIndex), PollDetails> {
        Map::new(
            |key: (PollCurrency, PollIndex)| self.slots@.contains_key(slot_of(key.0, key.1)),
            |key: (PollCurrency, PollIndex)| self.slots@[slot_of(key.0, key.1)],
        )
    }
}

/// Computes the slot of a poll.
fn slot(currency: PollCurrency, poll_id: PollIndex) -> (r: u128)
    ensures
        r == slot_of(currency, poll_id),
{
    let code: u128 = match currency {
        PollCurrency::Native => 0,
        PollCurrency::Asset(asset) => asset as u128 + 1,
    };
    code * 0x1_0000_0000_0000_0000 + poll_id as u128
}

impl PollStore {
    /// A store without polls.
    pub fn new() -> (r: Self)
        ensures
            r@ == Map::<(PollCurrency, PollIndex), PollDetails>::empty(),
    {
        let r = PollStore { slots: HashMap::new() };
        assert(r@ =~= Map::<(PollCurrency, PollIndex), PollDetails>::empty());
        r
    }

    /// The poll `poll_id` of `currency`, if there is one.
    pub fn get(&self, currency: PollCurrency, poll_id: PollIndex) -> (r: Option<&PollDetails>)
        ensures
            match r {
                Some(poll) => self@.contains_key((currency, poll_id)) && *poll == self@[(
                    currency,
                    poll_id,
                )],
                None => !self@.contains_key((currency, poll_id)),
            },
    {
        let key: u128 = slot(currency, poll_id);
        self.slots.get(&key)
    }

    /// Puts `poll` in the place of the poll `poll_id` of `currency`.
    pub fn insert(&mut self, currency: PollCurrency, poll_id: PollIndex, poll: PollDetails)
        ensures
            final(self)@ == old(self)@.insert((currency, poll_id), poll),
    {
        let key: u128 = slot(currency, poll_id);
        self.slots.insert(key, poll);
        proof {
            assert forall|other: (PollCurrency, PollIndex)| other != (currency, poll_id) implies slot_of(
                other.0,
                other.1,
            ) != key by {
                if slot_of(other.0, other.1) == key {
                    lemma_slot_names_one_poll(other, (currency, poll_id));
                }
            }
            assert(self@ =~= old(self)@.insert((currency, poll_id), poll));
        }
    }

    /// Takes the poll `poll_id` of `currency` out of the store, if there is one.
    pub fn remove(&mut self, currency: PollCurrency, poll_id: PollIndex) -> (r: Option<PollDetails>)
        ensures
            final(self)@ == old(self)@.remove((currency, poll_id)),
            match r {
                Some(poll) => old(self)@.contains_key((currency, poll_id)) && poll == old(self)@[(
                    currency,
                    poll_id,
                )],
                None => !old(self)@.contains_key((currency, poll_id)),
            },
    {
        let key: u128 = slot(currency, poll_id);
        let r = self.slots.remove(&key);
        proof {
            assert forall|other: (PollCurrency, PollIndex)| other != (currency, poll_id) implies slot_of(
                other.0,
                other.1,
            ) != key by {
                if slot_of(other.0, other.1) == key {
                    lemma_slot_names_one_poll(other, (currency, poll_id));
                }
            }
            assert(self@ =~= old(self)@.remove((currency, poll_id)));
        }
        r
    }
}

} // verus!
