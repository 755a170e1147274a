//! The registry of polls: creation, voting, closing at the end, cancellation and change.
//!
//! The registry reads no clock, no balance and no scheduler of its own. Whoever calls it
//! hands in the current block, the balance or issuance that the call turns on, and whether
//! the scheduler did its part; the registry decides, and changes nothing where it refuses.

use crate::laws::{lemma_created_keeps_inv, lemma_replaced_keeps_inv, lemma_voted_keeps_inv};
use crate::ledger::VoteLedger;
use crate::model::{Ballot, Call, State};
use crate::poll::{Poll, PollDetails};
use crate::saturating::{saturated_into_u128, saturating_inc};
use crate::schedule::{key_bytes, schedule_key, Booking};
use crate::store::PollStore;
use crate::types::{
    AccountId, Balance, BlockNumber, Error, Event, IpfsCid, PollCurrency, PollIndex, PollStatus,
};
use crate::votes::zeros;
use vstd::prelude::*;

verus! {

/// The registry of polls.
pub struct Pallet {
    poll_count: PollIndex,
    polls: PollStore,
    votes: VoteLedger,
    ballots: Ghost<Map<PollIndex, Seq<Ballot>>>,
}

impl View for Pallet {
    type V = State;

    closed spec fn view(&self) -> State {
        State {
            poll_count: self.poll_count,
            polls: Map::new(
                |key: (PollCurrency, PollIndex)| self.polls@.contains_key(key),
                |key: (PollCurrency, PollIndex)| self.polls@[key]@,
            ),
            votes: self.votes@,
            ballots: self.ballots@,
        }
    }
}

impl Pallet {
    /// The registry is sound: its polls, records and counter fit together.
    pub open spec fn wf(&self) -> bool {
        self@.inv()
    }

    /// A registry without polls.
    pub fn new() -> (r: Self)
        ensures
            r.wf(),
            r@ == State::empty(),
    {
        let r = Pallet {
            poll_count: 0,
            polls: PollStore::new(),
            votes: VoteLedger::new(),
            ballots: Ghost(Map::empty()),
        };
        assert(r@.polls =~= State::empty().polls);
        r
    }

    /// How many polls have been created.
    pub fn poll_count(&self) -> (r: PollIndex)
        ensures
            r == self@.poll_count,
    {
        self.poll_count
    }

    /// The poll `poll_id` of `currency`, if there is one.
    pub fn poll_details_of(&self, currency: PollCurrency, poll_id: PollIndex) -> (r: Option<
        &PollDetails,
    >)
        ensures
            match r {
                Some(poll) => self@.polls.contains_key((currency, poll_id)) && poll@ == self@.polls[(
                    currency,
                    poll_id,
                )],
                None => !self@.polls.contains_key((currency, poll_id)),
            },
    {
        self.polls.get(currency, poll_id)
    }

    /// The option that `who` chose in the poll `poll_id`, if the account voted there.
    pub fn voting_of(&self, who: AccountId, poll_id: PollIndex) -> (r: Option<u8>)
        ensures
            r == (if self@.votes.contains_key((who, poll_id)) {
                Some(self@.votes[(who, poll_id)])
            } else {
                None
            }),
    {
        self.votes.get(who, poll_id)
    }

    /// A balance as the weight of a vote.
    pub fn balance_to_u128_saturated(input: Balance) -> (r: u128)
        ensures
            r == input,
    {
        saturated_into_u128(input)
    }

    /// Whether `balance` lets its holder vote in `poll`: it does where it is at least the
    /// poll's least balance.
    pub fn check_balance(balance: Balance, poll: &PollDetails) -> (r: bool)
        ensures
            r == (balance >= poll.min_balance),
    {
        balance >= poll.min_balance
    }

    /// The weight of a vote cast by an account that holds `balance`: the balance as it is.
    pub fn vote_weight(balance: Balance) -> (r: u128)
        ensures
            r == balance,
    {
        Self::balance_to_u128_saturated(balance)
    }

    /// The poll `poll_id` of `currency`, if it is there and ongoing.
    pub fn poll_status(&self, poll_currency: PollCurrency, poll_id: PollIndex) -> (r: Result<
        &PollDetails,
        Error,
    >)
        ensures
            match r {
                Ok(poll) => {
                    &&& self@.polls.contains_key((poll_currency, poll_id))
                    &&& poll@ == self@.polls[(poll_currency, poll_id)]
                    &&& poll.status is Ongoing
                },
                Err(e) => if self@.polls.contains_key((poll_currency, poll_id)) {
                    e == Error::PollAlreadyFinished && !(self@.polls[(
                        poll_currency,
                        poll_id,
                    )].status is Ongoing)
                } else {
                    e == Error::PollInvalid
                },
            },
    {
        match self.polls.get(poll_currency, poll_id) {
            None => Err(Error::PollInvalid),
            Some(poll) => {
                if poll.status.is_ongoing() {
                    Ok(poll)
                } else {
                    Err(Error::PollAlreadyFinished)
                }
            },
        }
    }

    /// The booking to make with the scheduler before `create_poll` is called with the same
    /// arguments: it closes the poll that would be created, at its end. Where the poll
    /// would be refused whatever the scheduler says, the answer is the refusal.
    pub fn closing_to_book(
        &self,
        options_count: u8,
        currency: PollCurrency,
        start: BlockNumber,
        end: BlockNumber,
        now: BlockNumber,
        issuance: Balance,
    ) -> (r: Result<Booking, Error>)
        ensures
            match self@.create_refusal(options_count, currency, start, end, now, issuance, true) {
                Some(e) => r == Err::<Booking, Error>(e),
                None => r matches Ok(booking) && booking.closes(
                    currency,
                    self@.next_poll_id(),
                    end,
                ),
            },
    {
        if options_count <= 1 {
            return Err(Error::InvalidPollOptions);
        }
        if !(start >= now && end > now && end > start) {
            return Err(Error::InvalidPollPeriod);
        }
        if let PollCurrency::Asset(_) = currency {
            if issuance == 0 {
                return Err(Error::InvalidPollCurrency);
            }
        }
        let mut poll_id: PollIndex = self.poll_count;
        saturating_inc(&mut poll_id);
        if poll_id == self.poll_count {
            return Err(Error::StorageOverflow);
        }
        Ok(Booking::closing(currency, poll_id, end))
    }

    /// Puts a fresh poll into the registry and answers its identifier.
    ///
    /// `issuance` is the total issuance of the asset that the poll's currency names, and
    /// `booked` says whether the scheduler accepted the booking of the poll's closing.
    /// The checks are made in this order: the number of options, that the poll is ongoing,
    /// the window, the currency, the counter, the scheduler. A refusal changes nothing.
    fn try_create_poll(
        &mut self,
        poll: PollDetails,
        now: BlockNumber,
        issuance: Balance,
        booked: bool,
    ) -> (r: Result<PollIndex, Error>)
        requires
            old(self).wf(),
            poll@.tally == zeros(poll.options_count as nat),
        ensures
            final(self).wf(),
            match poll.status {
                PollStatus::Ongoing { start, end } => match old(self)@.create_refusal(
                    poll.options_count,
                    poll.currency,
                    start,
                    end,
                    now,
                    issuance,
                    booked,
                ) {
                    Some(e) => r == Err::<PollIndex, Error>(e) && final(self)@ == old(self)@,
                    None => r == Ok::<PollIndex, Error>(old(self)@.next_poll_id()) && final(self)@
                        == old(self)@.created(poll@),
                },
                _ => final(self)@ == old(self)@ && r == Err::<PollIndex, Error>(
                    if poll.options_count <= 1 {
                        Error::InvalidPollOptions
                    } else {
                        Error::InvalidPollDetails
                    },
                ),
            },
    {
        if poll.options_count <= 1 {
            return Err(Error::InvalidPollOptions);
        }
        let (start, end) = match poll.status {
            PollStatus::Ongoing { start, end } => (start, end),
            _ => {
                return Err(Error::InvalidPollDetails);
            },
        };
        if !(start >= now && end > now && end > start) {
            return Err(Error::InvalidPollPeriod);
        }
        if let PollCurrency::Asset(_) = poll.currency {
            if issuance == 0 {
                return Err(Error::InvalidPollCurrency);
            }
        }
        let mut poll_id: PollIndex = self.poll_count;
        saturating_inc(&mut poll_id);
        if poll_id == self.poll_count {
            return Err(Error::StorageOverflow);
        }
        if !booked {
            return Err(Error::UnexpectedBehavior);
        }
        proof {
            lemma_created_keeps_inv(
                self@,
                poll.created_by,
                poll.ipfs_cid@,
                poll.options_count,
                poll.currency,
                start,
                end,
                poll.min_balance,
                now,
                issuance,
            );
            assert(poll@ == Poll::fresh(
                poll.created_by,
                poll.ipfs_cid@,
                poll.options_count,
                poll.currency,
                start,
                end,
                poll.min_balance,
            ));
        }
        let currency = poll.currency;
        self.polls.insert(currency, poll_id, poll);
        self.poll_count = poll_id;
        proof {
            self.ballots@ = self.ballots@.insert(poll_id, Seq::empty());
            assert(self@.polls =~= old(self)@.created(poll@).polls);
        }
        Ok(poll_id)
    }

    /// Creates a poll for `who`, open to votes from `start` and closed at `end`.
    ///
    /// `now` is the current block, `issuance` the total issuance of the asset that
    /// `currency` names (it is not looked at for the native currency), and `booked` says
    /// whether the scheduler accepted the booking that `closing_to_book` answers for the
    /// same arguments. The poll is refused where it offers fewer than two options, where
    /// its window is not in the future or is empty, where its asset has nothing issued,
    /// where the counter is spent, and where the closing is not booked. A refusal changes
    /// nothing. The new poll gets the identifier after the counter, which becomes the
    /// counter.
    pub fn create_poll(
        &mut self,
        who: AccountId,
        ipfs_cid: IpfsCid,
        options_count: u8,
        currency: PollCurrency,
        start: BlockNumber,
        end: BlockNumber,
        min_balance: Balance,
        now: BlockNumber,
        issuance: Balance,
        booked: bool,
    ) -> (r: Result<Event, Error>)
        requires
            old(self).wf(),
        ensures
            final(self).wf(),
            final(self)@ == old(self)@.step(
                Call::CreatePoll {
                    who,
                    ipfs_cid: ipfs_cid@,
                    options_count,
                    currency,
                    start,
                    end,
                    min_balance,
                    now,
                    issuance,
                    booked,
                },
            ),
            match old(self)@.create_refusal(
                options_count,
                currency,
                start,
                end,
                now,
                issuance,
                booked,
            ) {
                Some(e) => r == Err::<Event, Error>(e),
                None => {
                    &&& r matches Ok(Event::PollCreated { currency: c, poll_id, cid, creator })
                    &&& c == currency
                    &&& poll_id == old(self)@.next_poll_id()
                    &&& cid@ == ipfs_cid@
                    &&& creator == who
                },
            },
    {
        let cid = ipfs_cid.clone();
        let poll = PollDetails::new(who, ipfs_cid, options_count, currency, start, end, min_balance);
        match self.try_create_poll(poll, now, issuance, booked) {
            Ok(poll_id) => Ok(Event::PollCreated { currency, poll_id, cid, creator: who }),
            Err(e) => Err(e),
        }
    }

    /// Counts the vote of `who` for the option `votes` of a poll.
    ///
    /// `now` is the current block and `balance` what `who` holds in the poll's currency.
    /// The checks are made in this order: the poll, that it is ongoing, the option, the
    /// window, the balance, an earlier vote. A refusal changes nothing.
    fn try_vote(
        &mut self,
        who: AccountId,
        poll_currency: PollCurrency,
        poll_id: PollIndex,
        votes: u8,
        now: BlockNumber,
        balance: Balance,
    ) -> (r: Result<(), Error>)
        requires
            old(self).wf(),
        ensures
            final(self).wf(),
            final(self)@ == old(self)@.step(
                Call::Vote { who, currency: poll_currency, poll_id, option: votes, now, balance },
            ),
            match old(self)@.vote_refusal(who, poll_currency, poll_id, votes, now, balance) {
                Some(e) => r == Err::<(), Error>(e),
                None => r is Ok,
            },
    {
        match self.poll_status(poll_currency, poll_id) {
            Err(e) => {
                return Err(e);
            },
            Ok(poll) => {
                if votes >= poll.options_count {
                    return Err(Error::InvalidPollVote);
                }
                if let PollStatus::Ongoing { start, .. } = poll.status {
                    if now < start {
                        return Err(Error::PollNotStarted);
                    }
                }
                if !Self::check_balance(balance, poll) {
                    return Err(Error::InsufficientFunds);
                }
            },
        }
        if self.votes.has_voted(who, poll_id) {
            return Err(Error::AlreadyVoted);
        }
        let weight: u128 = Self::vote_weight(balance);
        proof {
            lemma_voted_keeps_inv(self@, who, poll_currency, poll_id, votes, now, balance);
        }
        match self.polls.remove(poll_currency, poll_id) {
            None => {},
            Some(poll) => {
                let mut poll = poll;
                poll.votes.add_weight(votes, weight);
                self.polls.insert(poll_currency, poll_id, poll);
            },
        }
        self.votes.record(who, poll_id, votes);
        proof {
            self.ballots@ = self.ballots@.insert(
                poll_id,
                self.ballots@[poll_id].push(Ballot { voter: who, option: votes, weight }),
            );
            let expected = old(self)@.voted(who, poll_currency, poll_id, votes, balance);
            assert(self@.polls =~= expected.polls);
        }
        Ok(())
    }

    /// Votes for `who`: adds the account's balance to the option `vote` of the poll
    /// `poll_id` of `poll_currency`, and writes down the choice.
    ///
    /// `now` is the current block and `balance` what `who` holds in the poll's currency at
    /// this moment. The vote is refused where there is no such poll, where the poll is
    /// closed or cancelled, where it has no such option, where voting has not opened,
    /// where the balance is under the poll's least balance, and where the account has
    /// voted in this poll before. A refusal changes nothing. The weight that an option
    /// gathers stops at the largest `u128`.
    pub fn vote(
        &mut self,
        who: AccountId,
        poll_currency: PollCurrency,
        poll_id: PollIndex,
        vote: u8,
        now: BlockNumber,
        balance: Balance,
    ) -> (r: Result<Event, Error>)
        requires
            old(self).wf(),
        ensures
            final(self).wf(),
            final(self)@ == old(self)@.step(
                Call::Vote { who, currency: poll_currency, poll_id, option: vote, now, balance },
            ),
            match old(self)@.vote_refusal(who, poll_currency, poll_id, vote, now, balance) {
                Some(e) => r == Err::<Event, Error>(e),
                None => r == Ok::<Event, Error>(
                    Event::Voted { voter: who, currency: poll_currency, poll_id, vote },
                ),
            },
    {
        match self.try_vote(who, poll_currency, poll_id, vote, now, balance) {
            Ok(()) => Ok(Event::Voted { voter: who, currency: poll_currency, poll_id, vote }),
            Err(e) => Err(e),
        }
    }

    /// Closes the poll: names the winner of its tally and marks the poll finished at the
    /// end it was given. Refused where there is no such poll or it is no longer ongoing.
    fn do_enact_poll_end(&mut self, poll_currency: PollCurrency, poll_id: PollIndex) -> (r: Result<
        (),
        Error,
    >)
        requires
            old(self).wf(),
        ensures
            final(self).wf(),
            final(self)@ == old(self)@.step(Call::EnactPollEnd { currency: poll_currency, poll_id }),
            match old(self)@.enact_refusal(poll_currency, poll_id) {
                Some(e) => r == Err::<(), Error>(e),
                None => r is Ok,
            },
    {
        let (end, winning_option) = match self.polls.get(poll_currency, poll_id) {
            None => {
                return Err(Error::PollNotFound);
            },
            Some(poll) => match poll.status {
                PollStatus::Ongoing { end, .. } => (end, poll.votes.winning_option()),
                _ => {
                    return Err(Error::PollAlreadyFinished);
                },
            },
        };
        let status = PollStatus::Finished { winning_option, end };
        self.set_status(poll_currency, poll_id, status);
        Ok(())
    }

    /// Gives the poll `poll_id` of `currency`, which is ongoing, the state `status`.
    fn set_status(&mut self, currency: PollCurrency, poll_id: PollIndex, status: PollStatus)
        requires
            old(self).wf(),
            old(self)@.polls.contains_key((currency, poll_id)),
            !(status is Failed),
            status matches PollStatus::Ongoing { start, end } ==> start < end,
        ensures
            final(self).wf(),
            final(self)@ == (State {
                polls: old(self)@.polls.insert(
                    (currency, poll_id),
                    Poll { status, ..old(self)@.polls[(currency, poll_id)] },
                ),
                ..old(self)@
            }),
    {
        proof {
            lemma_replaced_keeps_inv(
                self@,
                currency,
                poll_id,
                Poll { status, ..self@.polls[(currency, poll_id)] },
            );
        }
        match self.polls.remove(currency, poll_id) {
            None => {},
            Some(poll) => {
                let mut poll = poll;
                poll.status = status;
                self.polls.insert(currency, poll_id, poll);
            },
        }
        proof {
            let expected = old(self)@.polls.insert(
                (currency, poll_id),
                Poll { status, ..old(self)@.polls[(currency, poll_id)] },
            );
            assert(self@.polls =~= expected);
        }
    }

    /// Closes the poll `poll_id` of `poll_currency` at its end; the call that the
    /// scheduler makes.
    ///
    /// The poll becomes finished, with the end it was given and the winner that its tally
    /// names: the option that holds some weight and strictly more than every other, or
    /// none where the largest weight is shared or nobody voted. Refused where there is no
    /// such poll, and where the poll is closed or cancelled already. A refusal changes
    /// nothing.
    pub fn enact_poll_end(&mut self, poll_currency: PollCurrency, poll_id: PollIndex) -> (r: Result<
        Event,
        Error,
    >)
        requires
            old(self).wf(),
        ensures
            final(self).wf(),
            final(self)@ == old(self)@.step(Call::EnactPollEnd { currency: poll_currency, poll_id }),
            match old(self)@.enact_refusal(poll_currency, poll_id) {
                Some(e) => r == Err::<Event, Error>(e),
                None => r == Ok::<Event, Error>(
                    Event::Finished { currency: poll_currency, poll_id },
                ),
            },
    {
        match self.do_enact_poll_end(poll_currency, poll_id) {
            Ok(()) => Ok(Event::Finished { currency: poll_currency, poll_id }),
            Err(e) => Err(e),
        }
    }

    /// The key of the booking to revoke with the scheduler before `emergency_cancel` is
    /// called with the same arguments. Where the cancellation would be refused whatever
    /// the scheduler says, the answer is the refusal.
    pub fn closing_to_revoke(&self, who: AccountId, poll_currency: PollCurrency, poll_id: PollIndex) -> (r:
        Result<Vec<u8>, Error>)
        ensures
            match self@.cancel_refusal(who, poll_currency, poll_id, true) {
                Some(e) => r == Err::<Vec<u8>, Error>(e),
                None => r matches Ok(key) && key@ == key_bytes(poll_currency, poll_id),
            },
    {
        match self.polls.get(poll_currency, poll_id) {
            None => Err(Error::PollNotFound),
            Some(poll) => {
                if poll.created_by != who {
                    Err(Error::NotPollCreator)
                } else if !poll.status.is_ongoing() {
                    Err(Error::PollAlreadyFinished)
                } else {
                    Ok(schedule_key(poll_currency, poll_id))
                }
            },
        }
    }

    /// Marks the poll cancelled at block `now`. The checks are made in this order: the
    /// poll, the caller, that the poll is ongoing, the scheduler.
    fn try_emergency_cancel(
        &mut self,
        who: AccountId,
        poll_currency: PollCurrency,
        poll_id: PollIndex,
        now: BlockNumber,
        revoked: bool,
    ) -> (r: Result<(), Error>)
        requires
            old(self).wf(),
        ensures
            final(self).wf(),
            final(self)@ == old(self)@.step(
                Call::EmergencyCancel { who, currency: poll_currency, poll_id, now, revoked },
            ),
            match old(self)@.cancel_refusal(who, poll_currency, poll_id, revoked) {
                Some(e) => r == Err::<(), Error>(e),
                None => r is Ok,
            },
    {
        match self.polls.get(poll_currency, poll_id) {
            None => {
                return Err(Error::PollNotFound);
            },
            Some(poll) => {
                if poll.created_by != who {
                    return Err(Error::NotPollCreator);
                }
                if !poll.status.is_ongoing() {
                    return Err(Error::PollAlreadyFinished);
                }
            },
        }
        if !revoked {
            return Err(Error::UnexpectedBehavior);
        }
        self.set_status(poll_currency, poll_id, PollStatus::Cancelled(now));
        Ok(())
    }

    /// Cancels the poll `poll_id` of `poll_currency` for `who`, at block `now`.
    ///
    /// `revoked` says whether the scheduler revoked the booking whose key
    /// `closing_to_revoke` answers for the same arguments. Refused where there is no such
    /// poll, where `who` did not create it, where it is closed or cancelled already, and
    /// where the booking is not revoked. A refusal changes nothing. A cancelled poll
    /// refuses votes as a finished one does.
    pub fn emergency_cancel(
        &mut self,
        who: AccountId,
        poll_currency: PollCurrency,
        poll_id: PollIndex,
        now: BlockNumber,
        revoked: bool,
    ) -> (r: Result<Event, Error>)
        requires
            old(self).wf(),
        ensures
            final(self).wf(),
            final(self)@ == old(self)@.step(
                Call::EmergencyCancel { who, currency: poll_currency, poll_id, now, revoked },
            ),
            match old(self)@.cancel_refusal(who, poll_currency, poll_id, revoked) {
                Some(e) => r == Err::<Event, Error>(e),
                None => r == Ok::<Event, Error>(
                    Event::Cancelled { currency: poll_currency, poll_id },
                ),
            },
    {
        match self.try_emergency_cancel(who, poll_currency, poll_id, now, revoked) {
            Ok(()) => Ok(Event::Cancelled { currency: poll_currency, poll_id }),
            Err(e) => Err(e),
        }
    }

    /// Gives a poll that has not opened new content, a new window and a new least balance.
    /// The checks are made in this order: the poll, the caller, that the poll is ongoing,
    /// that it has not opened, the new window.
    fn try_update_poll(
        &mut self,
        who: AccountId,
        poll_currency: PollCurrency,
        poll_id: PollIndex,
        ipfs_cid: IpfsCid,
        options_count: u8,
        start: BlockNumber,
        end: BlockNumber,
        min_balance: Balance,
        now: BlockNumber,
    ) -> (r: Result<(), Error>)
        requires
            old(self).wf(),
        ensures
            final(self).wf(),
            final(self)@ == old(self)@.step(
                Call::UpdatePoll {
                    who,
                    poll_id,
                    ipfs_cid: ipfs_cid@,
                    options_count,
                    currency: poll_currency,
                    start,
                    end,
                    min_balance,
                    now,
                },
            ),
            match old(self)@.update_refusal(who, poll_currency, poll_id, start, end, now) {
                Some(e) => r == Err::<(), Error>(e),
                None => r is Ok,
            },
    {
        match self.polls.get(poll_currency, poll_id) {
            None => {
                return Err(Error::PollNotFound);
            },
            Some(poll) => {
                if poll.created_by != who {
                    return Err(Error::NotPollCreator);
                }
                match poll.status {
                    PollStatus::Ongoing { start: opens, .. } => {
                        if now >= opens {
                            return Err(Error::PollAlreadyStarted);
                        }
                    },
                    _ => {
                        return Err(Error::PollAlreadyFinished);
                    },
                }
            },
        }
        if !(start >= now && end > now && end > start) {
            return Err(Error::InvalidPollPeriod);
        }
        let status = PollStatus::Ongoing { start, end };
        proof {
            lemma_replaced_keeps_inv(
                self@,
                poll_currency,
                poll_id,
                Poll {
                    ipfs_cid: ipfs_cid@,
                    status,
                    min_balance,
                    ..self@.polls[(poll_currency, poll_id)]
                },
            );
        }
        match self.polls.remove(poll_currency, poll_id) {
            None => {},
            Some(poll) => {
                let mut poll = poll;
                poll.ipfs_cid = ipfs_cid;
                poll.status = status;
                poll.min_balance = min_balance;
                self.polls.insert(poll_currency, poll_id, poll);
            },
        }
        proof {
            let expected = old(self)@.updated(
                poll_currency,
                poll_id,
                ipfs_cid@,
                start,
                end,
                min_balance,
            );
            assert(self@.polls =~= expected.polls);
        }
        Ok(())
    }

    /// Changes the poll `poll_id` of `currency` for `who`: new content, a new window and a
    /// new least balance.
    ///
    /// `now` is the current block. Refused where there is no such poll, where `who` did
    /// not create it, where it is closed or cancelled, where voting has opened, and where
    /// the new window is not in the future or is empty. A refusal changes nothing. The
    /// number of options is fixed when a poll is created: `options_count` is not looked
    /// at, and the tally stays as it is.
    pub fn update_poll(
        &mut self,
        who: AccountId,
        poll_id: PollIndex,
        ipfs_cid: IpfsCid,
        options_count: u8,
        currency: PollCurrency,
        start: BlockNumber,
        end: BlockNumber,
        min_balance: Balance,
        now: BlockNumber,
    ) -> (r: Result<Event, Error>)
        requires
            old(self).wf(),
        ensures
            final(self).wf(),
            final(self)@ == old(self)@.step(
                Call::UpdatePoll {
                    who,
                    poll_id,
                    ipfs_cid: ipfs_cid@,
                    options_count,
                    currency,
                    start,
                    end,
                    min_balance,
                    now,
                },
            ),
            match old(self)@.update_refusal(who, currency, poll_id, start, end, now) {
                Some(e) => r == Err::<Event, Error>(e),
                None => {
                    &&& r matches Ok(Event::PollUpdated { currency: c, poll_id: p, cid, creator })
                    &&& c == currency
                    &&& p == poll_id
                    &&& cid@ == ipfs_cid@
                    &&& creator == who
                },
            },
    {
        let cid = ipfs_cid.clone();
        match self.try_update_poll(
            who,
            currency,
            poll_id,
            ipfs_cid,
            options_count,
            start,
            end,
            min_balance,
            now,
        ) {
            Ok(()) => Ok(Event::PollUpdated { currency, poll_id, cid, creator: who }),
            Err(e) => Err(e),
        }
    }
}

} // verus!
