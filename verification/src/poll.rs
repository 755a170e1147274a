//! A poll as the registry keeps it, and the same poll as a mathematical value.

use crate::types::{AccountId, Balance, BlockNumber, IpfsCid, PollCurrency, PollStatus};
use crate::votes::{zeros, Votes};
use vstd::prelude::*;

verus! {

/// A poll as the registry keeps it.
#[derive(Clone, Debug, PartialEq, Eq)]
pub struct PollDetails {
    /// The account that created the poll.
    pub created_by: AccountId,
    /// Reference to the content that describes the poll.
    pub ipfs_cid: IpfsCid,
    /// How many options the poll offers.
    pub options_count: u8,
    /// The weight that each option has gathered.
    pub votes: Votes,
    /// The currency in which voters are weighed.
    pub currency: PollCurrency,
    /// Where the poll stands in its life cycle.
    pub status: PollStatus,
    /// The least balance that lets an account vote.
    pub min_balance: Balance,
}

/// A poll as a mathematical value.
pub struct Poll {
    pub created_by: AccountId,
    pub ipfs_cid: Seq<u8>,
    pub options_count: u8,
    pub tally: Seq<u128>,
    pub currency: PollCurrency,
    pub status: PollStatus,
    pub min_balance: Balance,
}

impl Poll {
    /// The poll as it is created: open from `start` to `end`, with nothing in its tally.
    pub open spec fn fresh(
        created_by: AccountId,
        ipfs_cid: Seq<u8>,
        options_count: u8,
        currency: PollCurrency,
        start: BlockNumber,
        end: BlockNumber,
        min_balance: Balance,
    ) -> Poll {
        Poll {
            created_by,
            ipfs_cid,
            options_count,
            tally: zeros(options_count as nat),
            currency,
            status: PollStatus::Ongoing { start, end },
            min_balance,
        }
    }

    /// What holds of every poll that the registry keeps: it offers at least two options,
    /// its tally has one entry for each of them, its window does not end before it opens,
    /// and it is not in the reserved state.
    pub open spec fn wf(self) -> bool {
        &&& self.options_count >= 2
        &&& self.tally.len() == self.options_count
        &&& self.status matches PollStatus::Ongoing { start, end } ==> start < end
        &&& !(self.status is Failed)
    }
}

impl View for PollDetails {
    type V = Poll;

    open spec fn view(&self) -> Poll {
        Poll {
            created_by: self.created_by,
            ipfs_cid: self.ipfs_cid@,
            options_count: self.options_count,
            tally: self.votes.0@,
            currency: self.currency,
            status: self.status,
            min_balance: self.min_balance,
        }
    }
}

impl PollDetails {
    /// A new poll: open from `start` to `end`, with nothing in its tally.
    pub fn new(
        created_by: AccountId,
        ipfs_cid: IpfsCid,
        options_count: u8,
        currency: PollCurrency,
        start: BlockNumber,
        end: BlockNumber,
        min_balance: Balance,
    ) -> (r: Self)
        ensures
            r@ == Poll::fresh(
                created_by,
                ipfs_cid@,
                options_count,
                currency,
                start,
                end,
                min_balance,
            ),
    {
        PollDetails {
            created_by,
            ipfs_cid,
            options_count,
            votes: Votes::new(options_count),
            currency,
            status: PollStatus::Ongoing { start, end },
            min_balance,
        }
    }
}

} // verus!
