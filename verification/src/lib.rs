//! Stake-weighted polls: a registry of multi-option polls that are created for a currency,
//! voted on once per account with the voter's balance as weight, closed at a block fixed in
//! advance, and won by the option that holds strictly the most weight.

pub mod encoding;
pub mod laws;
pub mod ledger;
pub mod model;
pub mod pallet;
pub mod poll;
pub mod saturating;
pub mod schedule;
pub mod store;
pub mod types;
pub mod votes;

pub use types::{
    AccountId, AssetId, Balance, BlockNumber, Error, Event, IpfsCid, PollCurrency, PollIndex,
    PollStatus,
};
pub use pallet::Pallet;
pub use poll::{Poll, PollDetails};
pub use schedule::{schedule_key, task_name, Booking, CLOSING_PRIORITY, POLLS_ID};
pub use votes::Votes;
