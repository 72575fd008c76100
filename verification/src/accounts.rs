//! What each operation is handed: the invoice record it acts on and the
//! authenticated parties and token accounts that take part.

use crate::address::Address;
use crate::invoice::Invoice;
use crate::transfer::Transfer;
use vstd::prelude::*;

verus! {

/// The accounts of a creation.
#[derive(Clone, Copy, Debug, PartialEq, Eq)]
pub struct InitializeInvoice {
    /// The business's invoice slot: empty, or the invoice that is there.
    pub invoice: Option<Invoice>,
    /// The business that records the invoice, and that will own it.
    pub business: Address,
    /// The bump seed of the address the slot is stored at.
    pub bump: u8,
}

/// The accounts of a listing.
#[derive(Clone, Copy, Debug, PartialEq, Eq)]
pub struct ListInvoice {
    /// The invoice that is put up for sale.
    pub invoice: Invoice,
    /// The caller, who must be the business that owns the invoice.
    pub business: Address,
}

/// The accounts of a purchase.
#[derive(Clone, Copy, Debug, PartialEq, Eq)]
pub struct PurchaseInvoice {
    /// The invoice that is bought.
    pub invoice: Invoice,
    /// The investor who buys it, and who authorizes the payment.
    pub investor: Address,
    /// The token account the sale price is drawn from.
    pub investor_token_account: Address,
    /// The token account the sale price is paid into.
    pub business_token_account: Address,
}

impl PurchaseInvoice {
    /// The payment a purchase calls for: the sale price, in the settlement
    /// asset, from the investor to the business, on the investor's authority.
    pub open spec fn payment(self) -> Transfer {
        Transfer {
            mint: self.invoice.mint,
            from: self.investor_token_account,
            to: self.business_token_account,
            authority: self.investor,
            amount: self.invoice.sale_price,
        }
    }
}

/// The accounts of a cancellation.
#[derive(Clone, Copy, Debug, PartialEq, Eq)]
pub struct CancelInvoice {
    /// The invoice that is withdrawn.
    pub invoice: Invoice,
    /// The caller, who must be the business that owns the invoice.
    pub business: Address,
}

/// The accounts of a repayment.
#[derive(Clone, Copy, Debug, PartialEq, Eq)]
pub struct RepayInvestorAndClose {
    /// The invoice that is repaid.
    pub invoice: Invoice,
    /// The caller, who must be the business that owns the invoice, and who
    /// authorizes the payment.
    pub business: Address,
    /// The token account the face amount is paid into.
    pub investor_token_account: Address,
    /// The token account the face amount is drawn from.
    pub business_token_account: Address,
}

impl RepayInvestorAndClose {
    /// The payment a repayment calls for: the full face amount, in the
    /// settlement asset, from the business to the investor, on the
    /// business's authority.
    pub open spec fn payment(self) -> Transfer {
        Transfer {
            mint: self.invoice.mint,
            from: self.business_token_account,
            to: self.investor_token_account,
            authority: self.business,
            amount: self.invoice.amount,
        }
    }
}

/// The accounts of a default claim.
#[derive(Clone, Copy, Debug, PartialEq, Eq)]
pub struct ClaimDefault {
    /// The invoice that was not repaid.
    pub invoice: Invoice,
    /// The caller, who must be the investor who holds the invoice.
    pub investor: Address,
}

} // verus!
