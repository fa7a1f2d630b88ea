//! Rock, paper, scissors for two players with a wager, as the logic of a
//! CosmWasm contract. A host starts a game against an opponent and
//! attaches funds; the opponent answers with the same funds; the winner
//! is paid both wagers, a tie pays each wager back, and a tally per pair
//! of players counts the results.
//!
//! The games and tallies live in the contract's storage, which is reached
//! through `storage`; what is claimed there of the storage is stated, not
//! proved. Everything else is proved against the contracts it carries:
//! `start` and `answer` hold the two commands, `query` the lookups,
//! `contract` the entry points, `laws` what holds across calls.

pub mod answer;
pub mod contract;
pub mod error;
pub mod laws;
pub mod msg;
pub mod outcome;
pub mod query;
pub mod records;
pub mod sessions;
pub mod settlement;
pub mod start;
pub mod state;
pub mod storage;
pub mod wager;
