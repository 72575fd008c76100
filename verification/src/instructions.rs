//! The operations on an invoice.
//!
//! Each takes the accounts it acts on and either carries out its transition
//! or refuses with a reason and changes nothing. The two operations that
//! move funds come in two steps: the first names the transfer to make, the
//! second settles the invoice against the outcome of that transfer.

use crate::accounts::{
    CancelInvoice, ClaimDefault, InitializeInvoice, ListInvoice, PurchaseInvoice,
    RepayInvestorAndClose,
};
use crate::address::Address;
use crate::error::ErrorCode;
use crate::invoice::Invoice;
use crate::lifecycle::{create_verdict, created, Operation};
use crate::status::InvoiceStatus;
use crate::transfer::{Transfer, TransferOutcome};
use vstd::prelude::*;

verus! {

/// Records a new invoice of face amount `amount`, due at `due_date`, in the
/// business's slot. The invoice starts out pending, owned by the business,
/// with neither holder, settlement asset nor sale price.
///
/// A zero face amount is refused, and so is a slot that still holds an open
/// invoice. A slot that is empty, or whose invoice is closed, is filled.
pub fn initialize_invoice(ctx: &mut InitializeInvoice, amount: u64, due_date: i64) -> (res: Result<
    (),
    ErrorCode,
>)
    ensures
        res == create_verdict(old(ctx).invoice, amount),
        res is Ok ==> *final(ctx) == (InitializeInvoice {
            invoice: Some(created(old(ctx).business, amount, due_date, old(ctx).bump)),
            ..*old(ctx)
        }),
        res is Ok ==> created(old(ctx).business, amount, due_date, old(ctx).bump).wf(),
        res is Err ==> *final(ctx) == *old(ctx),
{
    if amount == 0 {
        return Err(ErrorCode::InvalidAmount);
    }
    if let Some(present) = ctx.invoice {
        match present.status {
            InvoiceStatus::Repaid | InvoiceStatus::Cancelled => {},
            _ => {
                return Err(ErrorCode::DuplicateInvoice);
            },
        }
    }
    ctx.invoice = Some(
        Invoice {
            business: ctx.business,
            investor: None,
            mint: None,
            amount,
            sale_price: 0,
            due_date,
            status: InvoiceStatus::Pending,
            bump: ctx.bump,
        },
    );
    Ok(())
}

/// Puts the invoice up for sale at `sale_price`, to be paid in the asset
/// `token_mint`. A listed invoice may be listed again, at another price or
/// in another asset.
///
/// Refused, in this order: a caller who is not the owner, a sale price that
/// is not strictly below the face amount, and an invoice that is neither
/// pending nor listed.
pub fn list_invoice(ctx: &mut ListInvoice, token_mint: Address, sale_price: u64) -> (res: Result<
    (),
    ErrorCode,
>)
    ensures
        res == old(ctx).invoice.list_verdict(old(ctx).business, sale_price),
        final(ctx).invoice == old(ctx).invoice.after(
            Operation::List { caller: old(ctx).business, token_mint, sale_price },
        ),
        res is Ok ==> *final(ctx) == (ListInvoice {
            invoice: old(ctx).invoice.listed(token_mint, sale_price),
            ..*old(ctx)
        }),
        res is Err ==> *final(ctx) == *old(ctx),
        old(ctx).invoice.wf() ==> final(ctx).invoice.wf(),
{
    if ctx.business != ctx.invoice.business {
        return Err(ErrorCode::NotOwner);
    }
    if sale_price >= ctx.invoice.amount {
        return Err(ErrorCode::InvalidSalePrice);
    }
    match ctx.invoice.status {
        InvoiceStatus::Pending | InvoiceStatus::Listed => {},
        _ => {
            return Err(ErrorCode::InvalidState);
        },
    }
    ctx.invoice.status = InvoiceStatus::Listed;
    ctx.invoice.mint = Some(token_mint);
    ctx.invoice.sale_price = sale_price;
    Ok(())
}

/// Names the payment that the purchase of a listed invoice calls for, and
/// refuses an invoice that is not listed. Nothing is changed: the host makes
/// the transfer and hands its outcome to [`purchase_invoice`].
pub fn purchase_transfer(ctx: &PurchaseInvoice) -> (res: Result<Transfer, ErrorCode>)
    ensures
        res == (match ctx.invoice.purchase_guard() {
            Ok(_) => Ok::<Transfer, ErrorCode>(ctx.payment()),
            Err(refusal) => Err(refusal),
        }),
{
    match ctx.invoice.status {
        InvoiceStatus::Listed => Ok(
            Transfer {
                mint: ctx.invoice.mint,
                from: ctx.investor_token_account,
                to: ctx.business_token_account,
                authority: ctx.investor,
                amount: ctx.invoice.sale_price,
            },
        ),
        _ => Err(ErrorCode::NotListed),
    }
}

/// Sells a listed invoice to the investor once the payment of the sale
/// price has completed.
///
/// An invoice that is not listed is refused whatever the payment's outcome.
/// A failed payment is reported with the service's reason. In both cases
/// the accounts are left exactly as they were.
pub fn purchase_invoice(ctx: &mut PurchaseInvoice, payment: TransferOutcome) -> (res: Result<
    (),
    ErrorCode,
>)
    ensures
        res == old(ctx).invoice.purchase_verdict(payment),
        final(ctx).invoice == old(ctx).invoice.after(
            Operation::Purchase { investor: old(ctx).investor, payment },
        ),
        res is Ok ==> *final(ctx) == (PurchaseInvoice {
            invoice: old(ctx).invoice.sold(old(ctx).investor),
            ..*old(ctx)
        }),
        res is Err ==> *final(ctx) == *old(ctx),
        old(ctx).invoice.wf() ==> final(ctx).invoice.wf(),
{
    match ctx.invoice.status {
        InvoiceStatus::Listed => {},
        _ => {
            return Err(ErrorCode::NotListed);
        },
    }
    match payment {
        TransferOutcome::Failed(reason) => {
            return Err(ErrorCode::TransferFailed(reason));
        },
        TransferOutcome::Completed => {},
    }
    ctx.invoice.investor = Some(ctx.investor);
    ctx.invoice.status = InvoiceStatus::Sold;
    Ok(())
}

/// Withdraws an invoice that has not been sold, and closes it as cancelled.
/// The host then reclaims the record's storage for the business.
///
/// Refused, in this order: a caller who is not the owner, an invoice that
/// is sold, repaid or defaulted, and one that is already cancelled.
pub fn cancel_invoice(ctx: &mut CancelInvoice) -> (res: Result<(), ErrorCode>)
    ensures
        res == old(ctx).invoice.cancel_verdict(old(ctx).business),
        final(ctx).invoice == old(ctx).invoice.after(Operation::Cancel { caller: old(ctx).business }),
        res is Ok ==> *final(ctx) == (CancelInvoice {
            invoice: old(ctx).invoice.cancelled(),
            ..*old(ctx)
        }),
        res is Err ==> *final(ctx) == *old(ctx),
        old(ctx).invoice.wf() ==> final(ctx).invoice.wf(),
{
    if ctx.business != ctx.invoice.business {
        return Err(ErrorCode::NotOwner);
    }
    match ctx.invoice.status {
        InvoiceStatus::Pending | InvoiceStatus::Listed => {},
        InvoiceStatus::Cancelled => {
            return Err(ErrorCode::AlreadyClosed);
        },
        InvoiceStatus::Sold | InvoiceStatus::Repaid | InvoiceStatus::Defaulted => {
            return Err(ErrorCode::AlreadySold);
        },
    }
    ctx.invoice.status = InvoiceStatus::Cancelled;
    Ok(())
}

/// Names the payment that the repayment of a sold invoice calls for, and
/// refuses a caller who is not the owner or an invoice that is not sold.
/// Nothing is changed: the host makes the transfer and hands its outcome to
/// [`repay_investor_and_close`].
pub fn repayment_transfer(ctx: &RepayInvestorAndClose) -> (res: Result<Transfer, ErrorCode>)
    ensures
        res == (match ctx.invoice.repay_guard(ctx.business) {
            Ok(_) => Ok::<Transfer, ErrorCode>(ctx.payment()),
            Err(refusal) => Err(refusal),
        }),
{
    if ctx.business != ctx.invoice.business {
        return Err(ErrorCode::NotOwner);
    }
    match ctx.invoice.status {
        InvoiceStatus::Sold => Ok(
            Transfer {
                mint: ctx.invoice.mint,
                from: ctx.business_token_account,
                to: ctx.investor_token_account,
                authority: ctx.business,
                amount: ctx.invoice.amount,
            },
        ),
        _ => Err(ErrorCode::NotSold),
    }
}

/// Closes a sold invoice as repaid once the payment of the full face amount
/// to the investor has completed. The host then reclaims the record's
/// storage for the business.
///
/// A caller who is not the owner, or an invoice that is not sold, is refused
/// whatever the payment's outcome. A failed payment is reported with the
/// service's reason. In all these cases the accounts are left exactly as
/// they were.
pub fn repay_investor_and_close(ctx: &mut RepayInvestorAndClose, payment: TransferOutcome) -> (res:
    Result<(), ErrorCode>)
    ensures
        res == old(ctx).invoice.repay_verdict(old(ctx).business, payment),
        final(ctx).invoice == old(ctx).invoice.after(
            Operation::Repay { caller: old(ctx).business, payment },
        ),
        res is Ok ==> *final(ctx) == (RepayInvestorAndClose {
            invoice: old(ctx).invoice.repaid(),
            ..*old(ctx)
        }),
        res is Err ==> *final(ctx) == *old(ctx),
        old(ctx).invoice.wf() ==> final(ctx).invoice.wf(),
{
    if ctx.business != ctx.invoice.business {
        return Err(ErrorCode::NotOwner);
    }
    match ctx.invoice.status {
        InvoiceStatus::Sold => {},
        _ => {
            return Err(ErrorCode::NotSold);
        },
    }
    match payment {
        TransferOutcome::Failed(reason) => {
            return Err(ErrorCode::TransferFailed(reason));
        },
        TransferOutcome::Completed => {},
    }
    ctx.invoice.status = InvoiceStatus::Repaid;
    Ok(())
}

/// Records, at the holder's claim, that a sold invoice was not repaid by
/// its due date. `now` is the current time as the trusted clock gives it.
/// No funds move.
///
/// Refused, in this order: a caller who is not the holder, an invoice that
/// is not sold, and a claim made at or before the due date.
pub fn claim_default(ctx: &mut ClaimDefault, now: i64) -> (res: Result<(), ErrorCode>)
    ensures
        res == old(ctx).invoice.default_verdict(old(ctx).investor, now),
        final(ctx).invoice == old(ctx).invoice.after(
            Operation::ClaimDefault { caller: old(ctx).investor, now },
        ),
        res is Ok ==> *final(ctx) == (ClaimDefault {
            invoice: old(ctx).invoice.defaulted(),
            ..*old(ctx)
        }),
        res is Err ==> *final(ctx) == *old(ctx),
        old(ctx).invoice.wf() ==> final(ctx).invoice.wf(),
{
    let is_holder = match ctx.invoice.investor {
        Some(holder) => holder == ctx.investor,
        None => false,
    };
    if !is_holder {
        return Err(ErrorCode::NotHolder);
    }
    match ctx.invoice.status {
        InvoiceStatus::Sold => {},
        _ => {
            return Err(ErrorCode::NotSold);
        },
    }
    if now <= ctx.invoice.due_date {
        return Err(ErrorCode::NotYetDue);
    }
    ctx.invoice.status = InvoiceStatus::Defaulted;
    Ok(())
}

} // verus!
