//! Core logic of a federated Bitcoin/Lightning bridge.
//!
//! The crate has two coupled halves. The wallet half keeps a consensus-driven
//! view of the chain: peers propose `(height, fee rate)` pairs each round, the
//! aggregator folds them into monotone consensus values, and peg-out
//! transactions are planned deterministically against that agreed view so
//! that every honest member assembles the same unsigned transaction. The
//! gateway half drives a per-operation pay state machine that bridges an
//! in-federation escrow contract to an outbound Lightning payment.
//!
//! Fee rates are fixed-point throughout: millisats per virtual byte, held in
//! a `u64`. Zero encodes an invalid rate on the wire and is filtered out
//! before aggregation.

pub mod consensus;
pub mod gateway;
pub mod index;
pub mod pay;
pub mod pegout;
pub mod select;
pub mod sorting;
pub mod types;
