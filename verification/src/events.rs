//! The events the contract publishes.
//!
//! Each event has two topics, the event's name and the invoice, and the amount
//! as its data.

use crate::host::{host_of, publish_event};
use soroban_sdk::Env;
use vstd::prelude::*;

verus! {

/// Emitted when a cooperative locks funding for an invoice.
/// Topics: `["FundLocked", invoice_id]`, data: `amount`.
#[derive(Debug, PartialEq, Eq)]
pub struct FundLocked {
    pub invoice_id: soroban_sdk::String,
    pub amount: i128,
}

impl Clone for FundLocked {
    fn clone(&self) -> (copy: Self)
        ensures
            copy == *self,
    {
        FundLocked { invoice_id: self.invoice_id.clone(), amount: self.amount }
    }
}

impl FundLocked {
    /// Publishes the event.
    pub fn publish(&self, env: &mut Env)
        requires
            host_of(*old(env)).in_invocation,
        ensures
            host_of(*final(env)) == host_of(*old(env)).announced(
                "FundLocked"@,
                self.invoice_id,
                self.amount,
            ),
    {
        proof {
            reveal_strlit("FundLocked");
        }
        publish_event(env, "FundLocked", &self.invoice_id, self.amount);
    }
}

/// Emitted when a locked escrow is released to the supplier.
/// Topics: `["InvoiceReleased", invoice_id]`, data: `amount`.
#[derive(Debug, PartialEq, Eq)]
pub struct InvoiceReleased {
    pub invoice_id: soroban_sdk::String,
    pub amount: i128,
}

impl Clone for InvoiceReleased {
    fn clone(&self) -> (copy: Self)
        ensures
            copy == *self,
    {
        InvoiceReleased { invoice_id: self.invoice_id.clone(), amount: self.amount }
    }
}

impl InvoiceReleased {
    /// Publishes the event.
    pub fn publish(&self, env: &mut Env)
        requires
            host_of(*old(env)).in_invocation,
        ensures
            host_of(*final(env)) == host_of(*old(env)).announced(
                "InvoiceReleased"@,
                self.invoice_id,
                self.amount,
            ),
    {
        proof {
            reveal_strlit("InvoiceReleased");
        }
        publish_event(env, "InvoiceReleased", &self.invoice_id, self.amount);
    }
}

/// Emitted when a locked escrow is refunded to the funder.
/// Topics: `["EscrowRefunded", invoice_id]`, data: `amount`.
#[derive(Debug, PartialEq, Eq)]
pub struct EscrowRefunded {
    pub invoice_id: soroban_sdk::String,
    pub amount: i128,
}

impl Clone for EscrowRefunded {
    fn clone(&self) -> (copy: Self)
        ensures
            copy == *self,
    {
        EscrowRefunded { invoice_id: self.invoice_id.clone(), amount: self.amount }
    }
}

impl EscrowRefunded {
    /// Publishes the event.
    pub fn publish(&self, env: &mut Env)
        requires
            host_of(*old(env)).in_invocation,
        ensures
            host_of(*final(env)) == host_of(*old(env)).announced(
                "EscrowRefunded"@,
                self.invoice_id,
                self.amount,
            ),
    {
        proof {
            reveal_strlit("EscrowRefunded");
        }
        publish_event(env, "EscrowRefunded", &self.invoice_id, self.amount);
    }
}

/// Emitted when a repayment is posted against a released escrow.
/// Topics: `["RepaymentPosted", invoice_id]`, data: `amount`.
#[derive(Debug, PartialEq, Eq)]
pub struct RepaymentPosted {
    pub invoice_id: soroban_sdk::String,
    pub amount: i128,
}

impl Clone for RepaymentPosted {
    fn clone(&self) -> (copy: Self)
        ensures
            copy == *self,
    {
        RepaymentPosted { invoice_id: self.invoice_id.clone(), amount: self.amount }
    }
}

impl RepaymentPosted {
    /// Publishes the event.
    pub fn publish(&self, env: &mut Env)
        requires
            host_of(*old(env)).in_invocation,
        ensures
            host_of(*final(env)) == host_of(*old(env)).announced(
                "RepaymentPosted"@,
                self.invoice_id,
                self.amount,
            ),
    {
        proof {
            reveal_strlit("RepaymentPosted");
        }
        publish_event(env, "RepaymentPosted", &self.invoice_id, self.amount);
    }
}

} // verus!
