//! Atomic payment settlement: a payer's asset is swapped through an outside
//! venue, a protocol fee in basis points is split off, and the proceeds are
//! distributed, all or nothing.
pub mod error;
pub mod fee;
pub mod keys;
pub mod laws;
pub mod ledger;
pub mod request;
pub mod settlement;
pub mod swap;
