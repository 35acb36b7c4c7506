//! A two-party escrow: a client agrees to pay a developer a fixed amount, and
//! on release the amount is split into a platform fee and a developer payout.
//!
//! The crate holds the rules only. It keeps the agreed terms, guards the
//! lifecycle `Uninitialized -> Created -> Released`, computes the split and
//! decides which transfer comes next. Moving value and keeping the state
//! durable are the caller's part: the caller performs each transfer that
//! [`EscrowContract::release_payment`] orders and reports how it went.

pub mod contract;
pub mod error;
pub mod laws;
pub mod party;
pub mod settlement;
pub mod terms;

pub use contract::{EscrowContract, Lifecycle};
pub use error::{EscrowError, Leg, TransferError};
pub use party::PartyId;
pub use settlement::{ReleaseEvent, ReleaseStep, TransferOrder};
pub use terms::{EscrowRecord, ReleaseReceipt};
