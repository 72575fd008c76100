//! The lifecycle as a state machine: for each operation, the verdict that
//! admits or refuses it and the record that it leaves behind.
//!
//! An operation has several grounds for refusal. They are tried in a fixed
//! order, which the verdict spells out, and the first that applies names the
//! reason: the caller's authority comes first and the custodial transfer
//! last.

use crate::address::Address;
use crate::error::ErrorCode;
use crate::invoice::Invoice;
use crate::status::InvoiceStatus;
use crate::transfer::TransferOutcome;
use vstd::prelude::*;

verus! {

/// One step in the life of a recorded invoice: an operation, together with
/// everything that decides how it ends.
pub enum Operation {
    /// The business lists the invoice.
    List { caller: Address, token_mint: Address, sale_price: u64 },
    /// An investor buys the invoice; `payment` is how the transfer ended.
    Purchase { investor: Address, payment: TransferOutcome },
    /// The business cancels the invoice.
    Cancel { caller: Address },
    /// The business repays the invoice; `payment` is how the transfer ended.
    Repay { caller: Address, payment: TransferOutcome },
    /// The holder claims at the instant `now` that the invoice has defaulted.
    ClaimDefault { caller: Address, now: i64 },
}

/// The invoice that a creation records: pending, with neither holder, asset
/// nor price.
pub open spec fn created(business: Address, amount: u64, due_date: i64, bump: u8) -> Invoice {
    Invoice {
        business,
        investor: None,
        mint: None,
        amount,
        sale_price: 0,
        due_date,
        status: InvoiceStatus::Pending,
        bump,
    }
}

/// Whether a business may record a new invoice of face amount `amount` in a
/// slot that currently holds `slot`. A slot is free when it is empty or the
/// invoice in it is closed.
pub open spec fn create_verdict(slot: Option<Invoice>, amount: u64) -> Result<(), ErrorCode> {
    if amount == 0 {
        Err(ErrorCode::InvalidAmount)
    } else if slot matches Some(open) && !open.status.is_closed() {
        Err(ErrorCode::DuplicateInvoice)
    } else {
        Ok(())
    }
}

impl Invoice {
    /// Whether `caller` may list the invoice at `sale_price`.
    pub open spec fn list_verdict(self, caller: Address, sale_price: u64) -> Result<(), ErrorCode> {
        if caller != self.business {
            Err(ErrorCode::NotOwner)
        } else if sale_price >= self.amount {
            Err(ErrorCode::InvalidSalePrice)
        } else if self.status != InvoiceStatus::Pending && self.status != InvoiceStatus::Listed {
            Err(ErrorCode::InvalidState)
        } else {
            Ok(())
        }
    }

    /// The invoice after a listing in `token_mint` at `sale_price`.
    pub open spec fn listed(self, token_mint: Address, sale_price: u64) -> Invoice {
        Invoice { status: InvoiceStatus::Listed, mint: Some(token_mint), sale_price, ..self }
    }

    /// Whether the invoice is up for purchase. This is decided before any
    /// funds move.
    pub open spec fn purchase_guard(self) -> Result<(), ErrorCode> {
        if self.status != InvoiceStatus::Listed {
            Err(ErrorCode::NotListed)
        } else {
            Ok(())
        }
    }

    /// Whether a purchase goes through, given how the payment of the sale
    /// price ended.
    pub open spec fn purchase_verdict(self, payment: TransferOutcome) -> Result<(), ErrorCode> {
        match (self.purchase_guard(), payment) {
            (Err(refusal), _) => Err(refusal),
            (Ok(_), TransferOutcome::Failed(reason)) => Err(ErrorCode::TransferFailed(reason)),
            (Ok(_), TransferOutcome::Completed) => Ok(()),
        }
    }

    /// The invoice after its sale to `investor`.
    pub open spec fn sold(self, investor: Address) -> Invoice {
        Invoice { status: InvoiceStatus::Sold, investor: Some(investor), ..self }
    }

    /// Whether `caller` may cancel the invoice.
    pub open spec fn cancel_verdict(self, caller: Address) -> Result<(), ErrorCode> {
        if caller != self.business {
            Err(ErrorCode::NotOwner)
        } else if self.status.sold_or_later() {
            Err(ErrorCode::AlreadySold)
        } else if self.status == InvoiceStatus::Cancelled {
            Err(ErrorCode::AlreadyClosed)
        } else {
            Ok(())
        }
    }

    /// The invoice after its cancellation.
    pub open spec fn cancelled(self) -> Invoice {
        Invoice { status: InvoiceStatus::Cancelled, ..self }
    }

    /// Whether `caller` may repay the invoice. This is decided before any
    /// funds move.
    pub open spec fn repay_guard(self, caller: Address) -> Result<(), ErrorCode> {
        if caller != self.business {
            Err(ErrorCode::NotOwner)
        } else if self.status != InvoiceStatus::Sold {
            Err(ErrorCode::NotSold)
        } else {
            Ok(())
        }
    }

    /// Whether a repayment by `caller` goes through, given how the payment of
    /// the face amount ended.
    pub open spec fn repay_verdict(self, caller: Address, payment: TransferOutcome) -> Result<
        (),
        ErrorCode,
    > {
        match (self.repay_guard(caller), payment) {
            (Err(refusal), _) => Err(refusal),
            (Ok(_), TransferOutcome::Failed(reason)) => Err(ErrorCode::TransferFailed(reason)),
            (Ok(_), TransferOutcome::Completed) => Ok(()),
        }
    }

    /// The invoice after its repayment.
    pub open spec fn repaid(self) -> Invoice {
        Invoice { status: InvoiceStatus::Repaid, ..self }
    }

    /// Whether `caller` may claim at the instant `now` that the invoice has
    /// defaulted.
    pub open spec fn default_verdict(self, caller: Address, now: i64) -> Result<(), ErrorCode> {
        if self.investor != Some(caller) {
            Err(ErrorCode::NotHolder)
        } else if self.status != InvoiceStatus::Sold {
            Err(ErrorCode::NotSold)
        } else if now <= self.due_date {
            Err(ErrorCode::NotYetDue)
        } else {
            Ok(())
        }
    }

    /// The invoice after a default has been recorded.
    pub open spec fn defaulted(self) -> Invoice {
        Invoice { status: InvoiceStatus::Defaulted, ..self }
    }

    /// Whether the step `op` is admitted, and if not, why.
    pub open spec fn verdict(self, op: Operation) -> Result<(), ErrorCode> {
        match op {
            Operation::List { caller, sale_price, .. } => self.list_verdict(caller, sale_price),
            Operation::Purchase { payment, .. } => self.purchase_verdict(payment),
            Operation::Cancel { caller } => self.cancel_verdict(caller),
            Operation::Repay { caller, payment } => self.repay_verdict(caller, payment),
            Operation::ClaimDefault { caller, now } => self.default_verdict(caller, now),
        }
    }

    /// The invoice after the step `op`: changed as the operation says where
    /// it is admitted, and untouched where it is refused.
    pub open spec fn after(self, op: Operation) -> Invoice {
        if self.verdict(op) is Err {
            self
        } else {
            match op {
                Operation::List { token_mint, sale_price, .. } => self.listed(
                    token_mint,
                    sale_price,
                ),
                Operation::Purchase { investor, .. } => self.sold(investor),
                Operation::Cancel { .. } => self.cancelled(),
                Operation::Repay { .. } => self.repaid(),
                Operation::ClaimDefault { .. } => self.defaulted(),
            }
        }
    }

    /// The invoice after the steps `ops`, taken in order.
    pub open spec fn after_all(self, ops: Seq<Operation>) -> Invoice
        decreases ops.len(),
    {
        if ops.len() == 0 {
            self
        } else {
            self.after_all(ops.drop_last()).after(ops.last())
        }
    }

    /// The invoice is one that the operations can produce: it was created
    /// with a positive face amount and has since gone through some steps.
    pub open spec fn reachable(self) -> bool {
        exists|business: Address, amount: u64, due_date: i64, bump: u8, ops: Seq<Operation>|
            amount > 0 && self == #[trigger] created(business, amount, due_date, bump).after_all(
                ops,
            )
    }
}

} // verus!
