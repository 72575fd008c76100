//! The invoice record and the invariant that every operation keeps.

use crate::address::Address;
use crate::status::InvoiceStatus;
use vstd::prelude::*;

verus! {

/// One tokenized invoice.
#[derive(Clone, Copy, Debug, PartialEq, Eq)]
pub struct Invoice {
    /// The business that created the invoice and owes its face amount.
    pub business: Address,
    /// The investor who bought the invoice; none until it is sold.
    pub investor: Option<Address>,
    /// The settlement asset; none until the invoice is listed.
    pub mint: Option<Address>,
    /// The face amount, owed at maturity.
    pub amount: u64,
    /// What the investor pays for the invoice; zero until it is listed.
    pub sale_price: u64,
    /// The instant after which a missing repayment is a default.
    pub due_date: i64,
    /// The lifecycle state.
    pub status: InvoiceStatus,
    /// The bump seed of the address the record is stored at.
    pub bump: u8,
}

impl Invoice {
    /// The invariant of a well-formed invoice.
    ///
    /// The face amount is positive and the sale price lies strictly below it.
    /// A pending invoice has neither price nor asset; from its listing on it
    /// has an asset. It has a holder exactly when it has been sold.
    pub open spec fn wf(self) -> bool {
        &&& self.amount > 0
        &&& self.sale_price < self.amount
        &&& self.status == InvoiceStatus::Pending ==> self.sale_price == 0 && self.mint is None
        &&& self.status.listed_or_later() ==> self.mint is Some
        &&& self.investor is Some <==> self.status.sold_or_later()
    }

    /// Tells whether the record is well formed. A host that takes a record
    /// from storage can check it with this before it acts on it.
    pub fn is_well_formed(&self) -> (ok: bool)
        ensures
            ok == self.wf(),
    {
        let priced = self.amount > 0 && self.sale_price < self.amount;
        let held = self.investor.is_some();
        let has_asset = self.mint.is_some();
        priced && match self.status {
            InvoiceStatus::Pending => self.sale_price == 0 && !has_asset && !held,
            InvoiceStatus::Listed => has_asset && !held,
            InvoiceStatus::Sold | InvoiceStatus::Repaid | InvoiceStatus::Defaulted => has_asset
                && held,
            InvoiceStatus::Cancelled => !held,
        }
    }
}

} // verus!
