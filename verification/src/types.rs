//! Identifiers, the currency selector, the poll life cycle, notifications and errors.

use vstd::prelude::*;

verus! {

/// An account of the chain.
pub type AccountId = u64;

/// An amount of the native currency or of a fungible asset.
pub type Balance = u128;

/// Identifier of a fungible asset.
pub type AssetId = u32;

/// Number of a block; the logical clock of the chain.
pub type BlockNumber = u64;

/// Identifier of a poll, handed out by the registry's counter.
pub type PollIndex = u64;

/// Reference to the content that describes a poll, kept as opaque bytes.
pub type IpfsCid = Vec<u8>;

/// The denomination of a poll: it decides whose balance counts as voting weight and in
/// which partition of the registry the poll lives.
#[derive(Clone, Copy, Debug, PartialEq, Eq, Hash, Structural)]
pub enum PollCurrency {
    /// A fungible asset, named by its identifier.
    Asset(AssetId),
    /// The native currency of the chain.
    Native,
}

/// Where a poll stands in its life cycle.
#[derive(Clone, Copy, Debug, PartialEq, Eq, Structural)]
pub enum PollStatus {
    /// Voting opens at `start`; the poll is closed at `end`.
    Ongoing { start: BlockNumber, end: BlockNumber },
    /// The creator cancelled the poll at the given block.
    Cancelled(BlockNumber),
    /// The poll was closed at `end`; `winning_option` is the option that held strictly the
    /// most weight, if there was one.
    Finished { winning_option: Option<u8>, end: BlockNumber },
    /// Reserved: a poll that failed at the given block. No operation produces it.
    Failed(BlockNumber),
}

impl PollStatus {
    /// `true` exactly for a poll that has neither been closed nor cancelled.
    pub fn is_ongoing(&self) -> (r: bool)
        ensures
            r == (*self is Ongoing),
    {
        match self {
            PollStatus::Ongoing { .. } => true,
            _ => false,
        }
    }
}

/// Why an operation was refused. A refused operation changes nothing.
#[derive(Clone, Copy, Debug, PartialEq, Eq, Structural)]
pub enum Error {
    /// A value that was expected is missing.
    NoneValue,
    /// The poll counter cannot grow any further.
    StorageOverflow,
    /// No poll has the given identifier in the given currency.
    PollInvalid,
    /// The poll has been closed or cancelled.
    PollAlreadyFinished,
    /// No poll has the given identifier in the given currency.
    PollNotFound,
    /// The scheduler did not do what the registry relies on.
    UnexpectedBehavior,
    /// The poll handed in is not a fresh one.
    InvalidPollDetails,
    /// The voting window is empty, inverted or not in the future.
    InvalidPollPeriod,
    /// The asset that the poll names has nothing issued.
    InvalidPollCurrency,
    /// The option voted for is not one that the poll offers.
    InvalidPollVote,
    /// Voting has not opened yet.
    PollNotStarted,
    /// The voter holds less than the poll asks for.
    InsufficientFunds,
    /// Voting has opened, so the poll can no longer be changed.
    PollAlreadyStarted,
    /// Only the account that created the poll may do this.
    NotPollCreator,
    /// The account has already voted in this poll.
    AlreadyVoted,
    /// A poll needs at least two options.
    InvalidPollOptions,
}

/// What the registry tells the outside world after an operation went through.
#[derive(Clone, Debug, PartialEq, Eq)]
pub enum Event {
    /// A poll was created.
    PollCreated { currency: PollCurrency, poll_id: PollIndex, cid: IpfsCid, creator: AccountId },
    /// An account voted; the notification carries the choice, not the weight.
    Voted { voter: AccountId, currency: PollCurrency, poll_id: PollIndex, vote: u8 },
    /// A poll was closed at its end.
    Finished { currency: PollCurrency, poll_id: PollIndex },
    /// A poll was changed before voting opened.
    PollUpdated { currency: PollCurrency, poll_id: PollIndex, cid: IpfsCid, creator: AccountId },
    /// A poll was cancelled by its creator.
    Cancelled { currency: PollCurrency, poll_id: PollIndex },
}

} // verus!
