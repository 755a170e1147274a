//! The registry as a mathematical value, and its operations as functions on that value.
//! Every operation of the executable registry is held to the function given here.

use crate::poll::Poll;
use crate::types::{AccountId, Balance, BlockNumber, Error, PollCurrency, PollIndex, PollStatus};
use crate::votes::{saturating_sum, winner};
use vstd::prelude::*;

verus! {

/// One vote as it was cast: who voted, for which option, with which weight.
pub struct Ballot {
    pub voter: AccountId,
    pub option: u8,
    pub weight: u128,
}

/// The registry as a mathematical value.
pub struct State {
    /// How many polls have been created; also the identifier of the newest.
    pub poll_count: PollIndex,
    /// The polls, by currency and identifier.
    pub polls: Map<(PollCurrency, PollIndex), Poll>,
    /// The option that each account chose in each poll it voted in.
    pub votes: Map<(AccountId, PollIndex), u8>,
    /// The votes cast in each poll, in the order in which they were cast.
    pub ballots: Map<PollIndex, Seq<Ballot>>,
}

/// A request to the registry, together with what the chain reports at the moment of the
/// request: the current block, the balance or issuance asked about, and whether the
/// scheduler did its part.
pub enum Call {
    /// Create a poll. `issuance` is the total issuance of the asset that `currency` names;
    /// `booked` says whether the scheduler accepted the booking of the poll's closing.
    CreatePoll {
        who: AccountId,
        ipfs_cid: Seq<u8>,
        options_count: u8,
        currency: PollCurrency,
        start: BlockNumber,
        end: BlockNumber,
        min_balance: Balance,
        now: BlockNumber,
        issuance: Balance,
        booked: bool,
    },
    /// Vote for `option`. `balance` is what `who` holds in the poll's currency.
    Vote {
        who: AccountId,
        currency: PollCurrency,
        poll_id: PollIndex,
        option: u8,
        now: BlockNumber,
        balance: Balance,
    },
    /// Close a poll at its end; the scheduler's call.
    EnactPollEnd { currency: PollCurrency, poll_id: PollIndex },
    /// Cancel a poll. `revoked` says whether the scheduler revoked the booking of the
    /// poll's closing.
    EmergencyCancel {
        who: AccountId,
        currency: PollCurrency,
        poll_id: PollIndex,
        now: BlockNumber,
        revoked: bool,
    },
    /// Change a poll before voting opens.
    UpdatePoll {
        who: AccountId,
        poll_id: PollIndex,
        ipfs_cid: Seq<u8>,
        options_count: u8,
        currency: PollCurrency,
        start: BlockNumber,
        end: BlockNumber,
        min_balance: Balance,
        now: BlockNumber,
    },
}

/// A voting window that can be asked for at block `now`: it opens no earlier than `now`
/// and ends after it opens.
pub open spec fn valid_period(start: BlockNumber, end: BlockNumber, now: BlockNumber) -> bool {
    start >= now && end > now && end > start
}

/// The winning option of a tally, as the byte by which polls number their options.
pub open spec fn winning(tally: Seq<u128>) -> Option<u8> {
    match winner(tally) {
        Some(option) => Some(option as u8),
        None => None,
    }
}

/// The weight that the ballots give to `option`.
pub open spec fn weight_for(ballots: Seq<Ballot>, option: u8) -> nat
    decreases ballots.len(),
{
    if ballots.len() == 0 {
        0
    } else {
        let before = weight_for(ballots.drop_last(), option);
        if ballots.last().option == option {
            before + ballots.last().weight as nat
        } else {
            before
        }
    }
}

/// The weight of all the ballots together.
pub open spec fn total_weight(ballots: Seq<Ballot>) -> nat
    decreases ballots.len(),
{
    if ballots.len() == 0 {
        0
    } else {
        total_weight(ballots.drop_last()) + ballots.last().weight as nat
    }
}

/// The sum of the entries of a tally.
pub open spec fn tally_sum(tally: Seq<u128>) -> nat
    decreases tally.len(),
{
    if tally.len() == 0 {
        0
    } else {
        tally_sum(tally.drop_last()) + tally.last() as nat
    }
}

/// A weight as a tally can hold it.
pub open spec fn saturate(weight: nat) -> u128 {
    if weight > u128::MAX {
        u128::MAX
    } else {
        weight as u128
    }
}

/// The tally counts the ballots: every ballot is for an option of the tally, and every
/// option holds the weight of the ballots cast for it, as far as a tally can hold it.
pub open spec fn counted(tally: Seq<u128>, ballots: Seq<Ballot>) -> bool {
    &&& forall|k: int| 0 <= k < ballots.len() ==> (#[trigger] ballots[k]).option < tally.len()
    &&& forall|option: u8|
        option < tally.len() ==> tally[option as int] == saturate(
            #[trigger] weight_for(ballots, option),
        )
}

/// No account has more than one ballot.
pub open spec fn one_ballot_each(ballots: Seq<Ballot>) -> bool {
    forall|j: int, k: int|
        0 <= j < k < ballots.len() ==> (#[trigger] ballots[j]).voter != (#[trigger] ballots[k]).voter
}

/// The account `voter` has a ballot.
pub open spec fn has_ballot(ballots: Seq<Ballot>, voter: AccountId) -> bool {
    exists|k: int| 0 <= k < ballots.len() && (#[trigger] ballots[k]).voter == voter
}

/// The vote records of the poll `poll_id` are those of its ballots: every ballot is on
/// record with its option, and every record is that of a ballot.
pub open spec fn recorded(
    votes: Map<(AccountId, PollIndex), u8>,
    poll_id: PollIndex,
    ballots: Seq<Ballot>,
) -> bool {
    &&& forall|k: int|
        0 <= k < ballots.len() ==> {
            &&& votes.contains_key(((#[trigger] ballots[k]).voter, poll_id))
            &&& votes[(ballots[k].voter, poll_id)] == ballots[k].option
        }
    &&& forall|voter: AccountId| #[trigger]
        votes.contains_key((voter, poll_id)) ==> has_ballot(ballots, voter)
}

impl State {
    /// The registry before anything was asked of it.
    pub open spec fn empty() -> State {
        State { poll_count: 0, polls: Map::empty(), votes: Map::empty(), ballots: Map::empty() }
    }

    /// What holds of the registry whatever was asked of it.
    ///
    /// Identifiers run from 1 to the counter and belong to one poll each. Every poll is
    /// well formed, lives in the partition of its own currency, and has a tally that
    /// counts its ballots. Nobody has two ballots in a poll, and the vote records are
    /// those of the ballots.
    pub open spec fn inv(self) -> bool {
        &&& forall|currency: PollCurrency, poll_id: PollIndex| #[trigger]
            self.polls.contains_key((currency, poll_id)) ==> {
                &&& 1 <= poll_id <= self.poll_count
                &&& self.polls[(currency, poll_id)].wf()
                &&& self.polls[(currency, poll_id)].currency == currency
                &&& self.ballots.contains_key(poll_id)
                &&& counted(self.polls[(currency, poll_id)].tally, self.ballots[poll_id])
            }
        &&& forall|a: PollCurrency, b: PollCurrency, poll_id: PollIndex|
            #[trigger] self.polls.contains_key((a, poll_id)) && #[trigger] self.polls.contains_key(
                (b, poll_id),
            ) ==> a == b
        &&& forall|poll_id: PollIndex| #[trigger]
            self.ballots.contains_key(poll_id) ==> {
                &&& 1 <= poll_id <= self.poll_count
                &&& one_ballot_each(self.ballots[poll_id])
                &&& recorded(self.votes, poll_id, self.ballots[poll_id])
            }
        &&& forall|voter: AccountId, poll_id: PollIndex| #[trigger]
            self.votes.contains_key((voter, poll_id)) ==> self.ballots.contains_key(poll_id)
    }

    /// The reason for which creating a poll is refused, if it is. The checks are made in
    /// this order: the number of options, the window, the currency, the counter, the
    /// scheduler.
    pub open spec fn create_refusal(
        self,
        options_count: u8,
        currency: PollCurrency,
        start: BlockNumber,
        end: BlockNumber,
        now: BlockNumber,
        issuance: Balance,
        booked: bool,
    ) -> Option<Error> {
        if options_count <= 1 {
            Some(Error::InvalidPollOptions)
        } else if !valid_period(start, end, now) {
            Some(Error::InvalidPollPeriod)
        } else if currency is Asset && issuance == 0 {
            Some(Error::InvalidPollCurrency)
        } else if self.poll_count == u64::MAX {
            Some(Error::StorageOverflow)
        } else if !booked {
            Some(Error::UnexpectedBehavior)
        } else {
            None
        }
    }

    /// The identifier that the next poll gets.
    pub open spec fn next_poll_id(self) -> PollIndex {
        if self.poll_count == u64::MAX {
            u64::MAX
        } else {
            (self.poll_count + 1) as u64
        }
    }

    /// The registry after `poll` was created in it.
    pub open spec fn created(self, poll: Poll) -> State {
        let poll_id = self.next_poll_id();
        State {
            poll_count: poll_id,
            polls: self.polls.insert((poll.currency, poll_id), poll),
            votes: self.votes,
            ballots: self.ballots.insert(poll_id, Seq::empty()),
        }
    }

    /// The reason for which a vote is refused, if it is. The checks are made in this
    /// order: the poll, its state, the option, the window, the balance, an earlier vote.
    pub open spec fn vote_refusal(
        self,
        who: AccountId,
        currency: PollCurrency,
        poll_id: PollIndex,
        option: u8,
        now: BlockNumber,
        balance: Balance,
    ) -> Option<Error> {
        if !self.polls.contains_key((currency, poll_id)) {
            Some(Error::PollInvalid)
        } else {
            let poll = self.polls[(currency, poll_id)];
            match poll.status {
                PollStatus::Ongoing { start, end } => {
                    if option >= poll.options_count {
                        Some(Error::InvalidPollVote)
                    } else if now < start {
                        Some(Error::PollNotStarted)
                    } else if balance < poll.min_balance {
                        Some(Error::InsufficientFunds)
                    } else if self.votes.contains_key((who, poll_id)) {
                        Some(Error::AlreadyVoted)
                    } else {
                        None
                    }
                },
                _ => Some(Error::PollAlreadyFinished),
            }
        }
    }

    /// The registry after `who` voted for `option` with `weight`.
    pub open spec fn voted(
        self,
        who: AccountId,
        currency: PollCurrency,
        poll_id: PollIndex,
        option: u8,
        weight: u128,
    ) -> State {
        let poll = self.polls[(currency, poll_id)];
        let tally = poll.tally.update(
            option as int,
            saturating_sum(poll.tally[option as int], weight),
        );
        State {
            poll_count: self.poll_count,
            polls: self.polls.insert((currency, poll_id), Poll { tally, ..poll }),
            votes: self.votes.insert((who, poll_id), option),
            ballots: self.ballots.insert(
                poll_id,
                self.ballots[poll_id].push(Ballot { voter: who, option, weight }),
            ),
        }
    }

    /// The reason for which closing a poll is refused, if it is.
    pub open spec fn enact_refusal(self, currency: PollCurrency, poll_id: PollIndex) -> Option<
        Error,
    > {
        if !self.polls.contains_key((currency, poll_id)) {
            Some(Error::PollNotFound)
        } else if !(self.polls[(currency, poll_id)].status is Ongoing) {
            Some(Error::PollAlreadyFinished)
        } else {
            None
        }
    }

    /// The registry after the poll was closed: the poll is finished, with the winner that
    /// its tally names and the end that it was given.
    pub open spec fn enacted(self, currency: PollCurrency, poll_id: PollIndex) -> State {
        let poll = self.polls[(currency, poll_id)];
        let status = PollStatus::Finished {
            winning_option: winning(poll.tally),
            end: poll.status->Ongoing_end,
        };
        State { polls: self.polls.insert((currency, poll_id), Poll { status, ..poll }), ..self }
    }

    /// The reason for which cancelling a poll is refused, if it is. The checks are made in
    /// this order: the poll, the caller, the poll's state, the scheduler.
    pub open spec fn cancel_refusal(
        self,
        who: AccountId,
        currency: PollCurrency,
        poll_id: PollIndex,
        revoked: bool,
    ) -> Option<Error> {
        if !self.polls.contains_key((currency, poll_id)) {
            Some(Error::PollNotFound)
        } else if self.polls[(currency, poll_id)].created_by != who {
            Some(Error::NotPollCreator)
        } else if !(self.polls[(currency, poll_id)].status is Ongoing) {
            Some(Error::PollAlreadyFinished)
        } else if !revoked {
            Some(Error::UnexpectedBehavior)
        } else {
            None
        }
    }

    /// The registry after the poll was cancelled at block `now`.
    pub open spec fn cancelled(
        self,
        currency: PollCurrency,
        poll_id: PollIndex,
        now: BlockNumber,
    ) -> State {
        let poll = self.polls[(currency, poll_id)];
        let status = PollStatus::Cancelled(now);
        State { polls: self.polls.insert((currency, poll_id), Poll { status, ..poll }), ..self }
    }

    /// The reason for which changing a poll is refused, if it is. The checks are made in
    /// this order: the poll, the caller, the poll's state, its old window, its new window.
    pub open spec fn update_refusal(
        self,
        who: AccountId,
        currency: PollCurrency,
        poll_id: PollIndex,
        start: BlockNumber,
        end: BlockNumber,
        now: BlockNumber,
    ) -> Option<Error> {
        if !self.polls.contains_key((currency, poll_id)) {
            Some(Error::PollNotFound)
        } else {
            let poll = self.polls[(currency, poll_id)];
            if poll.created_by != who {
                Some(Error::NotPollCreator)
            } else {
                match poll.status {
                    PollStatus::Ongoing { start: opens, end: closes } => {
                        if now >= opens {
                            Some(Error::PollAlreadyStarted)
                        } else if !valid_period(start, end, now) {
                            Some(Error::InvalidPollPeriod)
                        } else {
                            None
                        }
                    },
                    _ => Some(Error::PollAlreadyFinished),
                }
            }
        }
    }

    /// The registry after the poll was given new content, a new window and a new least
    /// balance. The number of options and the tally stay as they are.
    pub open spec fn updated(
        self,
        currency: PollCurrency,
        poll_id: PollIndex,
        ipfs_cid: Seq<u8>,
        start: BlockNumber,
        end: BlockNumber,
        min_balance: Balance,
    ) -> State {
        let poll = self.polls[(currency, poll_id)];
        let status = PollStatus::Ongoing { start, end };
        State {
            polls: self.polls.insert(
                (currency, poll_id),
                Poll { ipfs_cid, status, min_balance, ..poll },
            ),
            ..self
        }
    }

    /// The reason for which `call` is refused, if it is.
    pub open spec fn refusal(self, call: Call) -> Option<Error> {
        match call {
            Call::CreatePoll { options_count, currency, start, end, now, issuance, booked, .. } => {
                self.create_refusal(options_count, currency, start, end, now, issuance, booked)
            },
            Call::Vote { who, currency, poll_id, option, now, balance } => {
                self.vote_refusal(who, currency, poll_id, option, now, balance)
            },
            Call::EnactPollEnd { currency, poll_id } => self.enact_refusal(currency, poll_id),
            Call::EmergencyCancel { who, currency, poll_id, revoked, .. } => {
                self.cancel_refusal(who, currency, poll_id, revoked)
            },
            Call::UpdatePoll { who, poll_id, currency, start, end, now, .. } => {
                self.update_refusal(who, currency, poll_id, start, end, now)
            },
        }
    }

    /// The registry after `call`: as before where the call is refused, else changed as the
    /// call asks.
    pub open spec fn step(self, call: Call) -> State {
        if self.refusal(call) is Some {
            self
        } else {
            match call {
                Call::CreatePoll {
                    who,
                    ipfs_cid,
                    options_count,
                    currency,
                    start,
                    end,
                    min_balance,
                    ..
                } => self.created(
                    Poll::fresh(who, ipfs_cid, options_count, currency, start, end, min_balance),
                ),
                Call::Vote { who, currency, poll_id, option, balance, .. } => self.voted(
                    who,
                    currency,
                    poll_id,
                    option,
                    balance,
                ),
                Call::EnactPollEnd { currency, poll_id } => self.enacted(currency, poll_id),
                Call::EmergencyCancel { currency, poll_id, now, .. } => self.cancelled(
                    currency,
                    poll_id,
                    now,
                ),
                Call::UpdatePoll { poll_id, ipfs_cid, currency, start, end, min_balance, .. } => {
                    self.updated(currency, poll_id, ipfs_cid, start, end, min_balance)
                },
            }
        }
    }
}

/// The registry after a sequence of calls, made one after the other on the registry `s`.
pub open spec fn after_calls(s: State, calls: Seq<Call>) -> State
    decreases calls.len(),
{
    if calls.len() == 0 {
        s
    } else {
        after_calls(s, calls.drop_last()).step(calls.last())
    }
}

/// The registry after a sequence of calls, made one after the other on the empty registry.
pub open spec fn run(calls: Seq<Call>) -> State {
    after_calls(State::empty(), calls)
}

} // verus!
