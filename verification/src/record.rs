//! The escrow record and the rules of its life.

use crate::error::PoolEscrowError;
use crate::host::same_address;
use soroban_sdk::Address;
use vstd::prelude::*;

verus! {

/// Where an escrow stands. `Released` and `Refunded` are final.
#[derive(Copy, Clone, Debug, PartialEq, Eq, Structural)]
pub enum EscrowStatus {
    Locked,
    Released,
    Refunded,
}

impl EscrowStatus {
    /// The text under which the status is stored.
    pub open spec fn spec_name(self) -> Seq<char> {
        match self {
            EscrowStatus::Locked => "Locked"@,
            EscrowStatus::Released => "Released"@,
            EscrowStatus::Refunded => "Refunded"@,
        }
    }

    /// Returns the text under which the status is stored.
    pub fn name(&self) -> (name: &'static str)
        ensures
            name@ == self.spec_name(),
    {
        match self {
            EscrowStatus::Locked => "Locked",
            EscrowStatus::Released => "Released",
            EscrowStatus::Refunded => "Refunded",
        }
    }
}

/// The escrow of one invoice.
#[derive(Debug, PartialEq, Eq)]
pub struct EscrowRecord {
    pub invoice_id: soroban_sdk::String,
    pub funder: Address,
    pub warung: Address,
    pub supplier: Address,
    pub cooperative: Address,
    pub amount: i128,
    pub repaid_amount: i128,
    pub status: EscrowStatus,
    pub locked_at: u64,
    pub closed_at: u64,
}

impl Clone for EscrowRecord {
    fn clone(&self) -> (copy: Self)
        ensures
            copy == *self,
    {
        EscrowRecord {
            invoice_id: self.invoice_id.clone(),
            funder: self.funder.clone(),
            warung: self.warung.clone(),
            supplier: self.supplier.clone(),
            cooperative: self.cooperative.clone(),
            amount: self.amount,
            repaid_amount: self.repaid_amount,
            status: self.status,
            locked_at: self.locked_at,
            closed_at: self.closed_at,
        }
    }
}

impl EscrowRecord {
    /// What holds of every record the contract stores: the amount is positive,
    /// only a released escrow has been repaid anything, repayments never count
    /// below zero, and a locked escrow has not been closed.
    pub open spec fn is_valid(self) -> bool {
        &&& self.amount > 0
        &&& self.repaid_amount >= 0
        &&& self.status != EscrowStatus::Released ==> self.repaid_amount == 0
        &&& self.status == EscrowStatus::Locked ==> self.closed_at == 0
    }

    /// The record closed as `status` at `now`, or why `caller` cannot close it.
    pub open spec fn closed(
        self,
        caller: Address,
        status: EscrowStatus,
        now: u64,
    ) -> Result<EscrowRecord, PoolEscrowError> {
        if self.cooperative != caller {
            Err(PoolEscrowError::Unauthorized)
        } else if self.status != EscrowStatus::Locked {
            Err(PoolEscrowError::InvalidStatus)
        } else {
            Ok(EscrowRecord { status, closed_at: now, ..self })
        }
    }

    /// The record with `amount` more repaid, or why it cannot be.
    pub open spec fn repaid(self, amount: i128) -> Result<EscrowRecord, PoolEscrowError> {
        if self.status != EscrowStatus::Released {
            Err(PoolEscrowError::InvalidStatus)
        } else if !(i128::MIN <= self.repaid_amount + amount <= i128::MAX) {
            Err(PoolEscrowError::InvalidAmount)
        } else {
            Ok(EscrowRecord { repaid_amount: (self.repaid_amount + amount) as i128, ..self })
        }
    }

    /// A fresh escrow: locked at `now`, with nothing repaid.
    pub fn lock(
        invoice_id: soroban_sdk::String,
        funder: Address,
        warung: Address,
        supplier: Address,
        cooperative: Address,
        amount: i128,
        now: u64,
    ) -> (record: EscrowRecord)
        ensures
            record == (EscrowRecord {
                invoice_id,
                funder,
                warung,
                supplier,
                cooperative,
                amount,
                repaid_amount: 0,
                status: EscrowStatus::Locked,
                locked_at: now,
                closed_at: 0,
            }),
    {
        EscrowRecord {
            invoice_id,
            funder,
            warung,
            supplier,
            cooperative,
            amount,
            repaid_amount: 0,
            status: EscrowStatus::Locked,
            locked_at: now,
            closed_at: 0,
        }
    }

    /// Closes a locked escrow as released to the supplier. Only the record's
    /// cooperative may.
    pub fn release(&mut self, cooperative: &Address, now: u64) -> (res: Result<(), PoolEscrowError>)
        ensures
            match old(self).closed(*cooperative, EscrowStatus::Released, now) {
                Ok(record) => res == Ok::<(), PoolEscrowError>(()) && *final(self) == record,
                Err(e) => res == Err::<(), PoolEscrowError>(e) && *final(self) == *old(self),
            },
    {
        self.close(cooperative, EscrowStatus::Released, now)
    }

    /// Closes a locked escrow as refunded to the funder. Only the record's
    /// cooperative may.
    pub fn refund(&mut self, cooperative: &Address, now: u64) -> (res: Result<(), PoolEscrowError>)
        ensures
            match old(self).closed(*cooperative, EscrowStatus::Refunded, now) {
                Ok(record) => res == Ok::<(), PoolEscrowError>(()) && *final(self) == record,
                Err(e) => res == Err::<(), PoolEscrowError>(e) && *final(self) == *old(self),
            },
    {
        self.close(cooperative, EscrowStatus::Refunded, now)
    }

    fn close(&mut self, cooperative: &Address, status: EscrowStatus, now: u64) -> (res: Result<
        (),
        PoolEscrowError,
    >)
        ensures
            match old(self).closed(*cooperative, status, now) {
                Ok(record) => res == Ok::<(), PoolEscrowError>(()) && *final(self) == record,
                Err(e) => res == Err::<(), PoolEscrowError>(e) && *final(self) == *old(self),
            },
    {
        if !same_address(&self.cooperative, cooperative) {
            return Err(PoolEscrowError::Unauthorized);
        }
        if self.status != EscrowStatus::Locked {
            return Err(PoolEscrowError::InvalidStatus);
        }
        self.status = status;
        self.closed_at = now;
        Ok(())
    }

    /// Counts a repayment against a released escrow. A total that does not fit
    /// is refused as an invalid amount.
    pub fn repay(&mut self, amount: i128) -> (res: Result<(), PoolEscrowError>)
        ensures
            match old(self).repaid(amount) {
                Ok(record) => res == Ok::<(), PoolEscrowError>(()) && *final(self) == record,
                Err(e) => res == Err::<(), PoolEscrowError>(e) && *final(self) == *old(self),
            },
    {
        if self.status != EscrowStatus::Released {
            return Err(PoolEscrowError::InvalidStatus);
        }
        match self.repaid_amount.checked_add(amount) {
            Some(total) => {
                self.repaid_amount = total;
                Ok(())
            },
            None => Err(PoolEscrowError::InvalidAmount),
        }
    }
}

} // verus!
