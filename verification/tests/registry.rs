//! The registry driven by a small chain: a clock, balances, assets and a scheduler that
//! keeps bookings and makes the booked calls when their block comes.

use pallet_polls::{Booking, Error, Event, Pallet, PollCurrency, PollStatus, Votes};
use std::collections::HashMap;

struct Chain {
    block: u64,
    free: HashMap<u64, u128>,
    assets: HashMap<u32, HashMap<u64, u128>>,
    agenda: Vec<Booking>,
    scheduler_down: bool,
    polls: Pallet,
}

impl Chain {
    fn new() -> Chain {
        Chain {
            block: 0,
            free: HashMap::new(),
            assets: HashMap::new(),
            agenda: Vec::new(),
            scheduler_down: false,
            polls: Pallet::new(),
        }
    }

    fn balance_of(&self, who: u64, currency: PollCurrency) -> u128 {
        match currency {
            PollCurrency::Native => self.free.get(&who).copied().unwrap_or(0),
            PollCurrency::Asset(id) => {
                self.assets.get(&id).and_then(|held| held.get(&who)).copied().unwrap_or(0)
            }
        }
    }

    fn issuance_of(&self, currency: PollCurrency) -> u128 {
        match currency {
            PollCurrency::Native => self.free.values().sum(),
            PollCurrency::Asset(id) => {
                self.assets.get(&id).map(|held| held.values().sum()).unwrap_or(0)
            }
        }
    }

    fn book(&mut self, booking: Booking) -> bool {
        if self.scheduler_down || self.agenda.iter().any(|b| b.key == booking.key) {
            return false;
        }
        self.agenda.push(booking);
        true
    }

    fn revoke(&mut self, key: &[u8]) -> bool {
        if self.scheduler_down {
            return false;
        }
        match self.agenda.iter().position(|b| b.key == key) {
            Some(at) => {
                self.agenda.remove(at);
                true
            }
            None => false,
        }
    }

    fn create_poll(
        &mut self,
        who: u64,
        cid: Vec<u8>,
        options_count: u8,
        currency: PollCurrency,
        start: u64,
        end: u64,
        min_balance: u128,
    ) -> Result<Event, Error> {
        let issuance = self.issuance_of(currency);
        let booked =
            match self.polls.closing_to_book(options_count, currency, start, end, self.block, issuance) {
                Ok(booking) => self.book(booking),
                Err(_) => false,
            };
        self.polls.create_poll(
            who,
            cid,
            options_count,
            currency,
            start,
            end,
            min_balance,
            self.block,
            issuance,
            booked,
        )
    }

    fn vote(&mut self, who: u64, currency: PollCurrency, poll_id: u64, option: u8) -> Result<Event, Error> {
        let balance = self.balance_of(who, currency);
        self.polls.vote(who, currency, poll_id, option, self.block, balance)
    }

    fn emergency_cancel(&mut self, who: u64, currency: PollCurrency, poll_id: u64) -> Result<Event, Error> {
        let revoked = match self.polls.closing_to_revoke(who, currency, poll_id) {
            Ok(key) => self.revoke(&key),
            Err(_) => false,
        };
        self.polls.emergency_cancel(who, currency, poll_id, self.block, revoked)
    }

    fn update_poll(
        &mut self,
        who: u64,
        poll_id: u64,
        cid: Vec<u8>,
        options_count: u8,
        currency: PollCurrency,
        start: u64,
        end: u64,
        min_balance: u128,
    ) -> Result<Event, Error> {
        self.polls.update_poll(
            who,
            poll_id,
            cid,
            options_count,
            currency,
            start,
            end,
            min_balance,
            self.block,
        )
    }

    fn next_block(&mut self) {
        self.block += 1;
        let mut due = Vec::new();
        let mut kept = Vec::new();
        for booking in self.agenda.drain(..) {
            if booking.at == self.block {
                due.push(booking);
            } else {
                kept.push(booking);
            }
        }
        self.agenda = kept;
        for booking in due {
            let _ = self.polls.enact_poll_end(booking.currency, booking.poll_id);
        }
    }

    fn fast_forward_to(&mut self, n: u64) {
        while self.block < n {
            self.next_block();
        }
    }

    fn set_balances(&mut self, who: u64) {
        self.free.insert(who, 20);
        assert_eq!(self.balance_of(who, PollCurrency::Native), 20);
    }

    fn mint(&mut self, asset: u32, who: u64, amount: u128) {
        *self.assets.entry(asset).or_default().entry(who).or_insert(0) += amount;
    }

    fn tally(&self, currency: PollCurrency, poll_id: u64) -> Vec<u128> {
        self.polls.poll_details_of(currency, poll_id).unwrap().votes.0.clone()
    }

    fn status(&self, currency: PollCurrency, poll_id: u64) -> PollStatus {
        self.polls.poll_details_of(currency, poll_id).unwrap().status
    }
}

fn cid() -> Vec<u8> {
    (0..46).collect()
}

/// A native poll of four options, open from block 1 to block 10, created by `who` at
/// block 0; the chain is then taken to block 2.
fn begin_poll(chain: &mut Chain, who: u64, min_balance: u128) -> u64 {
    chain.block = 0;
    let created = chain.create_poll(who, cid(), 4, PollCurrency::Native, 1, 10, min_balance);
    assert!(created.is_ok());
    chain.fast_forward_to(2);
    1
}

fn begin_poll_with_asset(chain: &mut Chain, who: u64, voter: u64, balance: u128) -> (u64, u32) {
    chain.block = 0;
    let asset_id: u32 = 0;
    chain.mint(asset_id, voter, balance);
    let created = chain.create_poll(who, cid(), 4, PollCurrency::Asset(0), 1, 10, 0);
    assert!(created.is_ok());
    chain.fast_forward_to(2);
    (1, asset_id)
}

#[test]
fn check_initial_state() {
    let registry = Pallet::new();
    assert_eq!(registry.poll_count(), 0);
    assert!(registry.poll_details_of(PollCurrency::Native, 1).is_none());
    assert!(registry.poll_details_of(PollCurrency::Asset(999), 1).is_none());
    assert_eq!(registry.voting_of(1, 1), None);
}

#[test]
fn tests_check_initial_state() {
    let mut chain = Chain::new();
    chain.mint(999, 0, 1);
    let created = chain.create_poll(0, cid(), 4, PollCurrency::Asset(999), 1, 10, 0);
    assert_eq!(
        created,
        Ok(Event::PollCreated { currency: PollCurrency::Asset(999), poll_id: 1, cid: cid(), creator: 0 })
    );
    let poll = chain.polls.poll_details_of(PollCurrency::Asset(999), 1).unwrap();
    assert_eq!(poll.created_by, 0);
    assert_eq!(poll.ipfs_cid, cid());
    assert_eq!(poll.options_count, 4);
    assert_eq!(poll.votes, Votes(vec![0, 0, 0, 0]));
    assert_eq!(poll.currency, PollCurrency::Asset(999));
    assert_eq!(poll.status, PollStatus::Ongoing { start: 1, end: 10 });
    assert_eq!(poll.min_balance, 0);
    assert_eq!(chain.polls.poll_count(), 1);
    assert!(chain.polls.poll_details_of(PollCurrency::Native, 1).is_none());
}

#[test]
fn vote_without_balance_should_fail() {
    let mut chain = Chain::new();
    // The poll asks for a balance of at least 1; account 1 holds nothing.
    let pid = begin_poll(&mut chain, 1, 1);
    let v = 2u8;
    assert_eq!(chain.vote(1, PollCurrency::Native, pid, v), Err(Error::InsufficientFunds));
    assert_eq!(chain.tally(PollCurrency::Native, pid), vec![0, 0, 0, 0]);
    assert_eq!(chain.polls.voting_of(1, pid), None);
}

#[test]
fn vote_at_the_least_balance_is_counted() {
    let mut chain = Chain::new();
    chain.set_balances(3);
    let pid = begin_poll(&mut chain, 1, 20);
    assert!(chain.vote(3, PollCurrency::Native, pid, 0).is_ok());
    assert_eq!(chain.tally(PollCurrency::Native, pid), vec![20, 0, 0, 0]);
}

#[test]
fn vote_without_balance_in_a_poll_that_asks_for_none_weighs_nothing() {
    let mut chain = Chain::new();
    let pid = begin_poll(&mut chain, 1, 0);
    assert_eq!(
        chain.vote(1, PollCurrency::Native, pid, 2),
        Ok(Event::Voted { voter: 1, currency: PollCurrency::Native, poll_id: pid, vote: 2 })
    );
    assert_eq!(chain.tally(PollCurrency::Native, pid), vec![0, 0, 0, 0]);
    assert_eq!(chain.polls.voting_of(1, pid), Some(2));
    assert_eq!(chain.vote(1, PollCurrency::Native, pid, 2), Err(Error::AlreadyVoted));
}

#[test]
fn vote_with_balances_should_work() {
    let mut chain = Chain::new();
    let voter = 2;
    chain.set_balances(voter);

    let pid = begin_poll(&mut chain, 1, 0);

    // third option, counted from 0
    let v = 2u8;

    assert!(chain.vote(voter, PollCurrency::Native, pid, v).is_ok());

    assert_eq!(chain.balance_of(voter, PollCurrency::Native), 20);

    assert_eq!(
        chain.polls.poll_details_of(PollCurrency::Native, pid).unwrap().votes,
        Votes(vec![0, 0, 20, 0])
    );

    assert_eq!(chain.vote(voter, PollCurrency::Native, pid, 3u8), Err(Error::AlreadyVoted));
    assert_eq!(chain.tally(PollCurrency::Native, pid), vec![0, 0, 20, 0]);

    chain.fast_forward_to(11);

    let poll = chain.polls.poll_details_of(PollCurrency::Native, pid).unwrap();
    if let PollStatus::Finished { winning_option, end } = poll.status {
        assert_eq!(winning_option, Some(2));
        assert_eq!(end, 10);
    } else {
        panic!("poll not finished");
    }
}

#[test]
fn emergency_cancel_should_work() {
    let mut chain = Chain::new();
    let voter = 5;
    chain.set_balances(voter);
    let pid = begin_poll(&mut chain, 1, 0);

    let v = 2u8;

    assert!(chain.vote(voter, PollCurrency::Native, pid, v).is_ok());

    chain.next_block();

    assert!(chain.emergency_cancel(1, PollCurrency::Native, pid).is_ok());

    let poll = chain.polls.poll_details_of(PollCurrency::Native, pid).unwrap();

    assert_eq!(poll.status, PollStatus::Cancelled(3));

    let voter_2 = 6;
    assert_eq!(chain.vote(voter_2, PollCurrency::Native, pid, v), Err(Error::PollAlreadyFinished));
    assert_eq!(chain.tally(PollCurrency::Native, pid), vec![0, 0, 20, 0]);
}

#[test]
fn vote_with_assets_should_work() {
    let mut chain = Chain::new();
    let poll_creator = 1;
    let voter = 2;
    let voter_balance = 20;

    chain.set_balances(voter);
    let (pid, _) = begin_poll_with_asset(&mut chain, poll_creator, voter, voter_balance);

    let v = 3u8;
    assert!(chain.vote(voter, PollCurrency::Asset(0), pid, v).is_ok());

    chain.next_block();

    chain.fast_forward_to(10);
    assert_eq!(chain.polls.poll_count(), 1);

    let poll = chain.polls.poll_details_of(PollCurrency::Asset(0), pid).unwrap();
    if let PollStatus::Finished { winning_option, end } = poll.status {
        assert_eq!(winning_option, Some(3));
        assert_eq!(end, 10);
    } else {
        panic!("poll not finished");
    }
}

#[test]
fn end_to_end_native_poll() {
    let mut chain = Chain::new();
    chain.set_balances(2);
    let created = chain.create_poll(1, cid(), 4, PollCurrency::Native, 1, 10, 0);
    assert_eq!(
        created,
        Ok(Event::PollCreated { currency: PollCurrency::Native, poll_id: 1, cid: cid(), creator: 1 })
    );
    assert_eq!(chain.agenda.len(), 1);
    assert_eq!(chain.agenda[0].at, 10);
    chain.next_block();
    assert_eq!(
        chain.vote(2, PollCurrency::Native, 1, 2),
        Ok(Event::Voted { voter: 2, currency: PollCurrency::Native, poll_id: 1, vote: 2 })
    );
    assert_eq!(chain.tally(PollCurrency::Native, 1), vec![0, 0, 20, 0]);
    assert_eq!(chain.polls.voting_of(2, 1), Some(2));
    assert_eq!(chain.vote(2, PollCurrency::Native, 1, 2), Err(Error::AlreadyVoted));
    assert_eq!(chain.tally(PollCurrency::Native, 1), vec![0, 0, 20, 0]);
    chain.fast_forward_to(9);
    assert_eq!(chain.status(PollCurrency::Native, 1), PollStatus::Ongoing { start: 1, end: 10 });
    chain.next_block();
    assert_eq!(
        chain.status(PollCurrency::Native, 1),
        PollStatus::Finished { winning_option: Some(2), end: 10 }
    );
    assert!(chain.agenda.is_empty());
    assert_eq!(chain.vote(3, PollCurrency::Native, 1, 0), Err(Error::PollAlreadyFinished));
}

#[test]
fn cancelled_poll_refuses_votes_as_a_finished_one() {
    let mut chain = Chain::new();
    chain.set_balances(5);
    chain.set_balances(6);
    let pid = begin_poll(&mut chain, 1, 0);
    assert!(chain.vote(5, PollCurrency::Native, pid, 1).is_ok());
    assert_eq!(
        chain.emergency_cancel(1, PollCurrency::Native, pid),
        Ok(Event::Cancelled { currency: PollCurrency::Native, poll_id: pid })
    );
    assert_eq!(chain.status(PollCurrency::Native, pid), PollStatus::Cancelled(2));
    assert!(chain.agenda.is_empty());
    assert_eq!(chain.vote(6, PollCurrency::Native, pid, 1), Err(Error::PollAlreadyFinished));
    // The closing was revoked: block 10 passes and the poll stays cancelled.
    chain.fast_forward_to(12);
    assert_eq!(chain.status(PollCurrency::Native, pid), PollStatus::Cancelled(2));
    assert_eq!(chain.tally(PollCurrency::Native, pid), vec![0, 20, 0, 0]);
}

#[test]
fn update_after_start_is_refused() {
    let mut chain = Chain::new();
    chain.block = 5;
    assert!(chain.create_poll(1, cid(), 3, PollCurrency::Native, 5, 20, 0).is_ok());
    assert_eq!(
        chain.update_poll(1, 1, vec![9], 3, PollCurrency::Native, 6, 30, 1),
        Err(Error::PollAlreadyStarted)
    );
    chain.next_block();
    assert_eq!(
        chain.update_poll(1, 1, vec![9], 3, PollCurrency::Native, 7, 30, 1),
        Err(Error::PollAlreadyStarted)
    );
    let poll = chain.polls.poll_details_of(PollCurrency::Native, 1).unwrap();
    assert_eq!(poll.ipfs_cid, cid());
    assert_eq!(poll.status, PollStatus::Ongoing { start: 5, end: 20 });
    assert_eq!(poll.min_balance, 0);
}

#[test]
fn update_by_another_account_is_refused_whenever_it_comes() {
    let mut chain = Chain::new();
    assert!(chain.create_poll(1, cid(), 3, PollCurrency::Native, 5, 20, 0).is_ok());
    // before the poll opens
    assert_eq!(
        chain.update_poll(2, 1, vec![9], 3, PollCurrency::Native, 6, 30, 1),
        Err(Error::NotPollCreator)
    );
    // after it opened
    chain.fast_forward_to(7);
    assert_eq!(
        chain.update_poll(2, 1, vec![9], 3, PollCurrency::Native, 8, 30, 1),
        Err(Error::NotPollCreator)
    );
    // after it was closed
    chain.fast_forward_to(21);
    assert_eq!(
        chain.update_poll(2, 1, vec![9], 3, PollCurrency::Native, 22, 30, 1),
        Err(Error::NotPollCreator)
    );
}

#[test]
fn update_before_start_changes_content_window_and_least_balance() {
    let mut chain = Chain::new();
    chain.set_balances(2);
    assert!(chain.create_poll(1, cid(), 3, PollCurrency::Native, 5, 20, 0).is_ok());
    chain.fast_forward_to(4);
    assert_eq!(
        chain.update_poll(1, 1, vec![7, 7], 9, PollCurrency::Native, 6, 30, 21),
        Ok(Event::PollUpdated { currency: PollCurrency::Native, poll_id: 1, cid: vec![7, 7], creator: 1 })
    );
    let poll = chain.polls.poll_details_of(PollCurrency::Native, 1).unwrap();
    assert_eq!(poll.ipfs_cid, vec![7, 7]);
    assert_eq!(poll.status, PollStatus::Ongoing { start: 6, end: 30 });
    assert_eq!(poll.min_balance, 21);
    // the number of options is fixed at creation
    assert_eq!(poll.options_count, 3);
    assert_eq!(poll.votes, Votes(vec![0, 0, 0]));
    assert_eq!(poll.created_by, 1);
    chain.fast_forward_to(5);
    assert_eq!(chain.vote(2, PollCurrency::Native, 1, 0), Err(Error::PollNotStarted));
    chain.fast_forward_to(6);
    assert_eq!(chain.vote(2, PollCurrency::Native, 1, 0), Err(Error::InsufficientFunds));
}

#[test]
fn update_with_a_bad_window_is_refused() {
    let mut chain = Chain::new();
    assert!(chain.create_poll(1, cid(), 3, PollCurrency::Native, 5, 20, 0).is_ok());
    chain.fast_forward_to(3);
    // opens in the past
    assert_eq!(
        chain.update_poll(1, 1, vec![], 3, PollCurrency::Native, 2, 30, 0),
        Err(Error::InvalidPollPeriod)
    );
    // ends when it opens
    assert_eq!(
        chain.update_poll(1, 1, vec![], 3, PollCurrency::Native, 8, 8, 0),
        Err(Error::InvalidPollPeriod)
    );
    // ends before it opens
    assert_eq!(
        chain.update_poll(1, 1, vec![], 3, PollCurrency::Native, 9, 8, 0),
        Err(Error::InvalidPollPeriod)
    );
    assert_eq!(chain.status(PollCurrency::Native, 1), PollStatus::Ongoing { start: 5, end: 20 });
    // opens now
    assert!(chain.update_poll(1, 1, vec![], 3, PollCurrency::Native, 3, 4, 0).is_ok());
    assert_eq!(chain.status(PollCurrency::Native, 1), PollStatus::Ongoing { start: 3, end: 4 });
}

#[test]
fn update_of_a_missing_or_closed_poll_is_refused() {
    let mut chain = Chain::new();
    assert_eq!(
        chain.update_poll(1, 1, vec![], 3, PollCurrency::Native, 5, 20, 0),
        Err(Error::PollNotFound)
    );
    assert!(chain.create_poll(1, cid(), 3, PollCurrency::Native, 5, 20, 0).is_ok());
    assert_eq!(
        chain.update_poll(1, 1, vec![], 3, PollCurrency::Asset(0), 5, 20, 0),
        Err(Error::PollNotFound)
    );
    assert!(chain.emergency_cancel(1, PollCurrency::Native, 1).is_ok());
    assert_eq!(
        chain.update_poll(1, 1, vec![], 3, PollCurrency::Native, 5, 20, 0),
        Err(Error::PollAlreadyFinished)
    );
    assert_eq!(chain.status(PollCurrency::Native, 1), PollStatus::Cancelled(0));
}

#[test]
fn create_with_fewer_than_two_options_is_refused() {
    let mut chain = Chain::new();
    assert_eq!(
        chain.create_poll(1, cid(), 1, PollCurrency::Native, 1, 10, 0),
        Err(Error::InvalidPollOptions)
    );
    assert_eq!(
        chain.create_poll(1, cid(), 0, PollCurrency::Native, 1, 10, 0),
        Err(Error::InvalidPollOptions)
    );
    // the options are looked at before the window
    assert_eq!(
        chain.create_poll(1, cid(), 1, PollCurrency::Native, 10, 1, 0),
        Err(Error::InvalidPollOptions)
    );
    assert_eq!(chain.polls.poll_count(), 0);
    assert!(chain.agenda.is_empty());
    assert!(chain.create_poll(1, cid(), 2, PollCurrency::Native, 1, 10, 0).is_ok());
    assert_eq!(chain.tally(PollCurrency::Native, 1), vec![0, 0]);
}

#[test]
fn create_with_a_bad_window_is_refused() {
    let mut chain = Chain::new();
    chain.block = 5;
    // opens in the past
    assert_eq!(
        chain.create_poll(1, cid(), 4, PollCurrency::Native, 4, 10, 0),
        Err(Error::InvalidPollPeriod)
    );
    // ends when it opens
    assert_eq!(
        chain.create_poll(1, cid(), 4, PollCurrency::Native, 7, 7, 0),
        Err(Error::InvalidPollPeriod)
    );
    // ends before it opens
    assert_eq!(
        chain.create_poll(1, cid(), 4, PollCurrency::Native, 8, 7, 0),
        Err(Error::InvalidPollPeriod)
    );
    // ends now
    assert_eq!(
        chain.create_poll(1, cid(), 4, PollCurrency::Native, 5, 5, 0),
        Err(Error::InvalidPollPeriod)
    );
    assert_eq!(chain.polls.poll_count(), 0);
    assert!(chain.agenda.is_empty());
    // opens now, ends at the next block
    assert!(chain.create_poll(1, cid(), 4, PollCurrency::Native, 5, 6, 0).is_ok());
    assert_eq!(chain.status(PollCurrency::Native, 1), PollStatus::Ongoing { start: 5, end: 6 });
}

#[test]
fn create_for_an_asset_without_issuance_is_refused() {
    let mut chain = Chain::new();
    assert_eq!(
        chain.create_poll(1, cid(), 4, PollCurrency::Asset(7), 1, 10, 0),
        Err(Error::InvalidPollCurrency)
    );
    assert_eq!(chain.polls.poll_count(), 0);
    chain.mint(7, 3, 1);
    assert!(chain.create_poll(1, cid(), 4, PollCurrency::Asset(7), 1, 10, 0).is_ok());
    // the native currency is not asked for its issuance
    assert!(chain.create_poll(1, cid(), 4, PollCurrency::Native, 1, 10, 0).is_ok());
}

#[test]
fn create_without_a_booking_is_refused_and_leaves_nothing() {
    let mut chain = Chain::new();
    chain.scheduler_down = true;
    assert_eq!(
        chain.create_poll(1, cid(), 4, PollCurrency::Native, 1, 10, 0),
        Err(Error::UnexpectedBehavior)
    );
    assert_eq!(chain.polls.poll_count(), 0);
    assert!(chain.polls.poll_details_of(PollCurrency::Native, 1).is_none());
    chain.scheduler_down = false;
    assert!(chain.create_poll(1, cid(), 4, PollCurrency::Native, 1, 10, 0).is_ok());
    assert_eq!(chain.polls.poll_count(), 1);
}

#[test]
fn cancel_without_a_revocation_is_refused_and_leaves_the_poll_ongoing() {
    let mut chain = Chain::new();
    let pid = begin_poll(&mut chain, 1, 0);
    chain.scheduler_down = true;
    assert_eq!(
        chain.emergency_cancel(1, PollCurrency::Native, pid),
        Err(Error::UnexpectedBehavior)
    );
    assert_eq!(chain.status(PollCurrency::Native, pid), PollStatus::Ongoing { start: 1, end: 10 });
    chain.scheduler_down = false;
    chain.fast_forward_to(10);
    assert_eq!(
        chain.status(PollCurrency::Native, pid),
        PollStatus::Finished { winning_option: None, end: 10 }
    );
}

#[test]
fn cancel_is_for_the_creator_of_an_ongoing_poll() {
    let mut chain = Chain::new();
    assert_eq!(chain.emergency_cancel(1, PollCurrency::Native, 1), Err(Error::PollNotFound));
    let pid = begin_poll(&mut chain, 1, 0);
    assert_eq!(chain.emergency_cancel(1, PollCurrency::Asset(3), pid), Err(Error::PollNotFound));
    assert_eq!(chain.emergency_cancel(2, PollCurrency::Native, pid), Err(Error::NotPollCreator));
    assert_eq!(chain.status(PollCurrency::Native, pid), PollStatus::Ongoing { start: 1, end: 10 });
    chain.fast_forward_to(10);
    assert_eq!(chain.emergency_cancel(2, PollCurrency::Native, pid), Err(Error::NotPollCreator));
    assert_eq!(
        chain.emergency_cancel(1, PollCurrency::Native, pid),
        Err(Error::PollAlreadyFinished)
    );
    assert_eq!(
        chain.status(PollCurrency::Native, pid),
        PollStatus::Finished { winning_option: None, end: 10 }
    );
}

#[test]
fn enact_is_for_ongoing_polls() {
    let mut chain = Chain::new();
    assert_eq!(chain.polls.enact_poll_end(PollCurrency::Native, 1), Err(Error::PollNotFound));
    chain.set_balances(4);
    let pid = begin_poll(&mut chain, 1, 0);
    assert!(chain.vote(4, PollCurrency::Native, pid, 3).is_ok());
    assert_eq!(chain.polls.enact_poll_end(PollCurrency::Asset(1), pid), Err(Error::PollNotFound));
    assert_eq!(
        chain.polls.enact_poll_end(PollCurrency::Native, pid),
        Ok(Event::Finished { currency: PollCurrency::Native, poll_id: pid })
    );
    assert_eq!(
        chain.status(PollCurrency::Native, pid),
        PollStatus::Finished { winning_option: Some(3), end: 10 }
    );
    assert_eq!(
        chain.polls.enact_poll_end(PollCurrency::Native, pid),
        Err(Error::PollAlreadyFinished)
    );
    assert_eq!(
        chain.status(PollCurrency::Native, pid),
        PollStatus::Finished { winning_option: Some(3), end: 10 }
    );
}

#[test]
fn vote_refusals_come_in_order() {
    let mut chain = Chain::new();
    chain.set_balances(2);
    // no such poll
    assert_eq!(chain.vote(2, PollCurrency::Native, 1, 0), Err(Error::PollInvalid));
    chain.block = 0;
    assert!(chain.create_poll(1, cid(), 4, PollCurrency::Native, 3, 10, 21).is_ok());
    // the poll lives in the native partition only
    assert_eq!(chain.vote(2, PollCurrency::Asset(0), 1, 0), Err(Error::PollInvalid));
    // no such option, though the poll has not opened and the balance is too low
    assert_eq!(chain.vote(2, PollCurrency::Native, 1, 4), Err(Error::InvalidPollVote));
    assert_eq!(chain.vote(2, PollCurrency::Native, 1, 255), Err(Error::InvalidPollVote));
    // not open yet, though the balance is too low
    assert_eq!(chain.vote(2, PollCurrency::Native, 1, 3), Err(Error::PollNotStarted));
    chain.fast_forward_to(2);
    assert_eq!(chain.vote(2, PollCurrency::Native, 1, 3), Err(Error::PollNotStarted));
    chain.fast_forward_to(3);
    assert_eq!(chain.vote(2, PollCurrency::Native, 1, 3), Err(Error::InsufficientFunds));
    chain.free.insert(2, 21);
    assert!(chain.vote(2, PollCurrency::Native, 1, 3).is_ok());
    assert_eq!(chain.vote(2, PollCurrency::Native, 1, 3), Err(Error::AlreadyVoted));
    // an earlier vote is looked at last
    assert_eq!(chain.vote(2, PollCurrency::Native, 1, 4), Err(Error::InvalidPollVote));
    chain.free.insert(2, 20);
    assert_eq!(chain.vote(2, PollCurrency::Native, 1, 3), Err(Error::InsufficientFunds));
    assert_eq!(chain.tally(PollCurrency::Native, 1), vec![0, 0, 0, 21]);
}

#[test]
fn tally_holds_the_weight_of_the_voters() {
    let mut chain = Chain::new();
    let balances: [(u64, u128, u8); 5] = [(10, 7, 0), (11, 5, 3), (12, 11, 0), (13, 1, 2), (14, 30, 3)];
    for (who, balance, _) in balances {
        chain.free.insert(who, balance);
    }
    let pid = begin_poll(&mut chain, 1, 0);
    for (who, _, option) in balances {
        assert!(chain.vote(who, PollCurrency::Native, pid, option).is_ok());
    }
    // nobody counts twice
    for (who, _, option) in balances {
        assert_eq!(chain.vote(who, PollCurrency::Native, pid, option), Err(Error::AlreadyVoted));
    }
    let tally = chain.tally(PollCurrency::Native, pid);
    assert_eq!(tally, vec![18, 0, 1, 35]);
    assert_eq!(tally.iter().sum::<u128>(), 7 + 5 + 11 + 1 + 30);
    for (who, _, option) in balances {
        assert_eq!(chain.polls.voting_of(who, pid), Some(option));
    }
    chain.fast_forward_to(10);
    assert_eq!(
        chain.status(PollCurrency::Native, pid),
        PollStatus::Finished { winning_option: Some(3), end: 10 }
    );
}

#[test]
fn tally_stops_at_the_largest_weight() {
    let mut chain = Chain::new();
    chain.free.insert(2, u128::MAX);
    chain.free.insert(3, 1);
    chain.free.insert(4, u128::MAX - 1);
    let pid = begin_poll(&mut chain, 1, 0);
    assert!(chain.vote(2, PollCurrency::Native, pid, 1).is_ok());
    assert!(chain.vote(3, PollCurrency::Native, pid, 1).is_ok());
    assert!(chain.vote(4, PollCurrency::Native, pid, 0).is_ok());
    assert_eq!(chain.tally(PollCurrency::Native, pid), vec![u128::MAX - 1, u128::MAX, 0, 0]);
}

#[test]
fn polls_are_numbered_one_after_the_other() {
    let mut chain = Chain::new();
    chain.mint(4, 1, 10);
    assert_eq!(
        chain.create_poll(1, vec![1], 2, PollCurrency::Native, 1, 10, 0),
        Ok(Event::PollCreated { currency: PollCurrency::Native, poll_id: 1, cid: vec![1], creator: 1 })
    );
    assert_eq!(
        chain.create_poll(2, vec![2], 3, PollCurrency::Asset(4), 2, 11, 0),
        Ok(Event::PollCreated { currency: PollCurrency::Asset(4), poll_id: 2, cid: vec![2], creator: 2 })
    );
    assert_eq!(
        chain.create_poll(1, vec![3], 4, PollCurrency::Native, 3, 12, 0),
        Ok(Event::PollCreated { currency: PollCurrency::Native, poll_id: 3, cid: vec![3], creator: 1 })
    );
    assert_eq!(chain.polls.poll_count(), 3);
    assert!(chain.polls.poll_details_of(PollCurrency::Native, 2).is_none());
    assert!(chain.polls.poll_details_of(PollCurrency::Asset(4), 1).is_none());
    assert_eq!(chain.polls.poll_details_of(PollCurrency::Asset(4), 2).unwrap().options_count, 3);
    assert_eq!(chain.agenda.len(), 3);
    // a refused poll takes no number
    assert!(chain.create_poll(1, vec![4], 1, PollCurrency::Native, 3, 12, 0).is_err());
    assert_eq!(chain.polls.poll_count(), 3);
    assert!(chain.create_poll(1, vec![4], 2, PollCurrency::Native, 3, 12, 0).is_ok());
    assert_eq!(chain.polls.poll_count(), 4);
}

#[test]
fn bookings_are_what_the_registry_asks_for() {
    let mut chain = Chain::new();
    chain.mint(9, 1, 10);
    let asked = chain.polls.closing_to_book(4, PollCurrency::Asset(9), 1, 10, 0, 10).unwrap();
    assert_eq!(asked.at, 10);
    assert_eq!(asked.priority, 63);
    assert_eq!(asked.currency, PollCurrency::Asset(9));
    assert_eq!(asked.poll_id, 1);
    assert_eq!(asked.key, pallet_polls::schedule_key(PollCurrency::Asset(9), 1));
    assert_eq!(
        chain.polls.closing_to_book(1, PollCurrency::Asset(9), 1, 10, 0, 10),
        Err(Error::InvalidPollOptions)
    );
    assert_eq!(
        chain.polls.closing_to_book(4, PollCurrency::Asset(9), 1, 1, 0, 10),
        Err(Error::InvalidPollPeriod)
    );
    assert_eq!(
        chain.polls.closing_to_book(4, PollCurrency::Asset(9), 1, 10, 0, 0),
        Err(Error::InvalidPollCurrency)
    );
    assert_eq!(chain.polls.closing_to_revoke(1, PollCurrency::Asset(9), 1), Err(Error::PollNotFound));
    assert!(chain.create_poll(1, cid(), 4, PollCurrency::Asset(9), 1, 10, 0).is_ok());
    assert_eq!(
        chain.polls.closing_to_revoke(1, PollCurrency::Asset(9), 1),
        Ok(pallet_polls::schedule_key(PollCurrency::Asset(9), 1))
    );
    assert_eq!(chain.polls.closing_to_revoke(2, PollCurrency::Asset(9), 1), Err(Error::NotPollCreator));
    chain.fast_forward_to(10);
    assert_eq!(
        chain.polls.closing_to_revoke(1, PollCurrency::Asset(9), 1),
        Err(Error::PollAlreadyFinished)
    );
}

#[test]
fn ongoing_is_the_only_state_that_is_ongoing() {
    assert!(PollStatus::Ongoing { start: 1, end: 2 }.is_ongoing());
    assert!(!PollStatus::Cancelled(1).is_ongoing());
    assert!(!PollStatus::Finished { winning_option: None, end: 2 }.is_ongoing());
    assert!(!PollStatus::Finished { winning_option: Some(0), end: 2 }.is_ongoing());
    assert!(!PollStatus::Failed(1).is_ongoing());
}

#[test]
fn balances_are_weights_as_they_stand() {
    assert_eq!(Pallet::balance_to_u128_saturated(0), 0);
    assert_eq!(Pallet::balance_to_u128_saturated(20), 20);
    assert_eq!(Pallet::balance_to_u128_saturated(u128::MAX), u128::MAX);
    assert_eq!(Pallet::vote_weight(20), 20);
}
