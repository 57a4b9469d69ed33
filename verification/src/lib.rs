//! A minimal owned counter contract: a single persisted record holds a
//! counter value and the identity of its owner.  Handlers initialize the
//! record, increment the counter, reset it, hand ownership over, and
//! answer queries for either field.

pub mod contract;
pub mod decimal;
pub mod error;
pub mod msg;
pub mod state;
