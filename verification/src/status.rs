//! The lifecycle states of an invoice and the order in which they follow.

use vstd::prelude::*;

verus! {

/// Where an invoice stands in its lifecycle.
///
/// ```text
/// Pending -> Listed -> Sold -> Repaid
///    |          |         `--> Defaulted
///    `----------+--> Cancelled
/// ```
#[derive(Clone, Copy, Debug, PartialEq, Eq, Structural)]
pub enum InvoiceStatus {
    /// Recorded by the business, not yet offered for sale.
    Pending,
    /// Offered for sale at a price, in a settlement asset.
    Listed,
    /// Bought by an investor; repayment is owed to that investor.
    Sold,
    /// Repaid in full by the business, and closed.
    Repaid,
    /// Withdrawn by the business before any sale, and closed.
    Cancelled,
    /// Not repaid by the due date; recorded at the investor's claim.
    Defaulted,
}

impl InvoiceStatus {
    /// Listed, or a status that can only be entered after a listing.
    pub open spec fn listed_or_later(self) -> bool {
        self == InvoiceStatus::Listed || self.sold_or_later()
    }

    /// Sold, or a status that can only be entered after a sale.
    pub open spec fn sold_or_later(self) -> bool {
        self == InvoiceStatus::Sold || self == InvoiceStatus::Repaid || self
            == InvoiceStatus::Defaulted
    }

    /// A status that no operation leaves.
    pub open spec fn is_terminal(self) -> bool {
        self == InvoiceStatus::Repaid || self == InvoiceStatus::Cancelled || self
            == InvoiceStatus::Defaulted
    }

    /// A status with which the record is closed and its storage reclaimed.
    pub open spec fn is_closed(self) -> bool {
        self == InvoiceStatus::Repaid || self == InvoiceStatus::Cancelled
    }

    /// The edges of the lifecycle graph: `next` is one step after `self`.
    pub open spec fn precedes(self, next: InvoiceStatus) -> bool {
        match self {
            InvoiceStatus::Pending => next == InvoiceStatus::Listed || next
                == InvoiceStatus::Cancelled,
            InvoiceStatus::Listed => next == InvoiceStatus::Sold || next
                == InvoiceStatus::Cancelled,
            InvoiceStatus::Sold => next == InvoiceStatus::Repaid || next
                == InvoiceStatus::Defaulted,
            InvoiceStatus::Repaid | InvoiceStatus::Cancelled | InvoiceStatus::Defaulted => false,
        }
    }

    /// `later` is `self` or lies any number of steps after it.
    pub open spec fn reaches(self, later: InvoiceStatus) -> bool {
        match self {
            InvoiceStatus::Pending => true,
            InvoiceStatus::Listed => later != InvoiceStatus::Pending,
            InvoiceStatus::Sold => later.sold_or_later(),
            InvoiceStatus::Repaid | InvoiceStatus::Cancelled | InvoiceStatus::Defaulted => later
                == self,
        }
    }
}

} // verus!
