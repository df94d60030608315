//! A price oracle in two halves: the off-chain cycle that samples a price feed
//! and frames a signed submission, and the on-chain aggregator that records
//! accepted submissions, snapshots a history and keeps its rounded mean.
//!
//! Every price is a [`fixed::FixedPoint`]: an unsigned number with sixteen
//! fractional bits, held and computed with integers only.

pub mod fixed;
pub mod aggregator;
pub mod fetch;
pub mod submitter;
