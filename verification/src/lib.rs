//! Escrow settlement and stake-weighted dispute resolution.
//!
//! A buyer locks funds in an escrow. Once both sides are verified the escrow is
//! active, the seller confirms delivery, and the buyer completes the
//! transaction, which releases the funds net of the platform fee. Instead,
//! either side can raise a dispute. A dispute collects one vote from each
//! account that is no party to it, weighted by the voter's reputation, until
//! its deadline; after the deadline the votes decide an outcome, and the
//! outcome settles the escrow.
//!
//! - [`escrow`] holds the escrows and their life cycle, and says what is paid
//!   out to whom.
//! - [`dispute_resolution`] holds the disputes, their evidence and their votes.
//! - [`resolution`] turns reputation into vote weight and votes into an
//!   outcome.
//! - [`reputation`] holds the score of each account.
//! - [`bridge`] carries a call from one ledger to another.
//! - [`auth`] says who may perform an operation, [`time`] computes deadlines,
//!   and [`types`] holds the addresses that all of them share.
//! - [`escrow_laws`] and [`dispute_laws`] state what holds over every sequence
//!   of operations.
//!
//! Each ledger is a value that its operations change. What an operation does is
//! given twice: as a function on the ledger as a mathematical value, which the
//! laws are about, and as the code that is proved to do the same. A ledger
//! moves no funds and calls no other contract. Where an operation depends on
//! such work it is told how the host fared with it, and an operation whose
//! outside work failed is refused and leaves the ledger as it was.

pub mod auth;
pub mod bridge;
pub mod dispute_laws;
pub mod dispute_resolution;
pub mod escrow;
pub mod escrow_laws;
pub mod reputation;
pub mod resolution;
pub mod time;
pub mod types;
