//! The vote ledger: which option each account chose in each poll. A record is written
//! once and stays; that it exists is what says that the account has voted.

use crate::types::{AccountId, PollIndex};
use std::collections::HashMap;
use vstd::prelude::*;

verus! {

broadcast use vstd::std_specs::hash::group_hash_axioms;

/// The slot of the record of `voter` in the poll `poll_id`: the account in the upper half,
/// the identifier in the lower.
pub open spec fn record_of(voter: AccountId, poll_id: PollIndex) -> u128 {
    (voter * 0x1_0000_0000_0000_0000 + poll_id) as u128
}

/// Two records never share a slot.
pub proof fn lemma_slot_names_one_record(a: (AccountId, PollIndex), b: (AccountId, PollIndex))
    requires
        record_of(a.0, a.1) == record_of(b.0, b.1),
    ensures
        a == b,
{
}

/// The vote records, by voter and poll.
pub struct VoteLedger {
    records: HashMap<u128, u8>,
}

impl View for VoteLedger {
    type V = Map<(AccountId, PollIndex), u8>;

    closed spec fn view(&self) -> Map<(AccountId, PollIndex), u8> {
        Map::new(
            |key: (AccountId, PollIndex)| self.records@.contains_key(record_of(key.0, key.1)),
            |key: (AccountId, PollIndex)| self.records@[record_of(key.0, key.1)],
        )
    }
}

/// Computes the slot of a record.
fn slot(voter: AccountId, poll_id: PollIndex) -> (r: u128)
    ensures
        r == record_of(voter, poll_id),
{
    voter as u128 * 0x1_0000_0000_0000_0000 + poll_id as u128
}

impl VoteLedger {
    /// A ledger without records.
    pub fn new() -> (r: Self)
        ensures
            r@ == Map::<(AccountId, PollIndex), u8>::empty(),
    {
        let r = VoteLedger { records: HashMap::new() };
        assert(r@ =~= Map::<(AccountId, PollIndex), u8>::empty());
        r
    }

    /// The option that `voter` chose in the poll `poll_id`, if the account voted there.
    pub fn get(&self, voter: AccountId, poll_id: PollIndex) -> (r: Option<u8>)
        ensures
            r == (if self@.contains_key((voter, poll_id)) {
                Some(self@[(voter, poll_id)])
            } else {
                None
            }),
    {
        let key: u128 = slot(voter, poll_id);
        match self.records.get(&key) {
            Some(option) => Some(*option),
            None => None,
        }
    }

    /// Whether `voter` has voted in the poll `poll_id`.
    pub fn has_voted(&self, voter: AccountId, poll_id: PollIndex) -> (r: bool)
        ensures
            r == self@.contains_key((voter, poll_id)),
    {
        let key: u128 = slot(voter, poll_id);
        self.records.contains_key(&key)
    }

    /// Writes down that `voter` chose `option` in the poll `poll_id`. An earlier record of
    /// the same voter in the same poll stays as it is; the answer says whether the record
    /// was written.
    pub fn record(&mut self, voter: AccountId, poll_id: PollIndex, option: u8) -> (written: bool)
        ensures
            written == !old(self)@.contains_key((voter, poll_id)),
            final(self)@ == (if written {
                old(self)@.insert((voter, poll_id), option)
            } else {
                old(self)@
            }),
    {
        let key: u128 = slot(voter, poll_id);
        if self.records.contains_key(&key) {
            return false;
        }
        self.records.insert(key, option);
        proof {
            assert forall|other: (AccountId, PollIndex)| other != (voter, poll_id) implies record_of(
                other.0,
                other.1,
            ) != key by {
                if record_of(other.0, other.1) == key {
                    lemma_slot_names_one_record(other, (voter, poll_id));
                }
            }
            assert(self@ =~= old(self)@.insert((voter, poll_id), option));
        }
        true
    }
}

} // verus!
