//! Escrow for pooled cooperative funding, as a Soroban contract.
//!
//! A cooperative's funding for an invoice is locked once, then either released
//! to the supplier or refunded to the funder; repayments are recorded against a
//! released escrow. Every entry point of [`PoolEscrowContract`] states the reply
//! it gives and the state it leaves as functions of the host state it finds.
//!
//! - [`host`]: the host as the contract sees it, and the calls made to it;
//! - [`record`]: the escrow record, its status and the rules of its life;
//! - [`stored`]: the form in which a record is stored;
//! - [`keys`]: the storage keys;
//! - [`events`]: the events the contract publishes;
//! - [`error`]: the contract's errors;
//! - [`contract`]: the entry points;
//! - [`outcomes`]: what each call comes to, in terms of what the host holds;
//! - [`laws`]: what holds of the contract over any run of calls.

pub mod contract;
pub mod error;
pub mod events;
pub mod host;
pub mod keys;
pub mod laws;
pub mod outcomes;
pub mod record;
pub mod stored;

pub use contract::{PoolEscrowContract, ESCROW_TTL_EXTEND_TO, ESCROW_TTL_THRESHOLD};
pub use error::PoolEscrowError;
pub use events::{EscrowRefunded, FundLocked, InvoiceReleased, RepaymentPosted};
pub use keys::DataKey;
pub use record::{EscrowRecord, EscrowStatus};
