//! Why an operation was refused.

use vstd::prelude::*;

verus! {

/// The reason an operation was refused. A refused operation changes nothing.
#[derive(Clone, Copy, Debug, PartialEq, Eq, Structural)]
pub enum ErrorCode {
    /// A purchase was attempted on an invoice that is not listed.
    NotListed,
    /// A cancellation was attempted on an invoice that has been sold.
    AlreadySold,
    /// A repayment or a default claim was attempted on an invoice that is
    /// not in the sold state.
    NotSold,
    /// The sale price is not strictly below the face amount.
    InvalidSalePrice,
    /// A default was claimed before the due date had passed.
    NotYetDue,
    /// The face amount is zero.
    InvalidAmount,
    /// The business already has an open invoice in its slot.
    DuplicateInvoice,
    /// The caller is not the business that owns the invoice.
    NotOwner,
    /// The caller is not the investor who holds the invoice.
    NotHolder,
    /// A listing was attempted on an invoice that is past its listing.
    InvalidState,
    /// A cancellation was attempted on an invoice that is already cancelled.
    AlreadyClosed,
    /// The custodial transfer failed; the code is the service's own reason.
    TransferFailed(u64),
}

/// The five families that the reasons fall into.
#[derive(Clone, Copy, Debug, PartialEq, Eq, Structural)]
pub enum ErrorKind {
    /// The caller is not the party that the operation is reserved for.
    Authorization,
    /// The invoice is in a state that does not permit the operation.
    State,
    /// An argument is malformed.
    Validation,
    /// The operation came too early.
    Temporal,
    /// The custodial transfer failed.
    Transfer,
}

impl ErrorCode {
    /// The family of each reason.
    pub open spec fn kind_of(self) -> ErrorKind {
        match self {
            ErrorCode::NotOwner | ErrorCode::NotHolder => ErrorKind::Authorization,
            ErrorCode::NotListed
            | ErrorCode::AlreadySold
            | ErrorCode::NotSold
            | ErrorCode::DuplicateInvoice
            | ErrorCode::InvalidState
            | ErrorCode::AlreadyClosed => ErrorKind::State,
            ErrorCode::InvalidSalePrice | ErrorCode::InvalidAmount => ErrorKind::Validation,
            ErrorCode::NotYetDue => ErrorKind::Temporal,
            ErrorCode::TransferFailed(_) => ErrorKind::Transfer,
        }
    }

    /// The family this reason belongs to.
    pub fn kind(&self) -> (kind: ErrorKind)
        ensures
            kind == self.kind_of(),
    {
        match self {
            ErrorCode::NotOwner | ErrorCode::NotHolder => ErrorKind::Authorization,
            ErrorCode::InvalidSalePrice | ErrorCode::InvalidAmount => ErrorKind::Validation,
            ErrorCode::NotYetDue => ErrorKind::Temporal,
            ErrorCode::TransferFailed(_) => ErrorKind::Transfer,
            _ => ErrorKind::State,
        }
    }

    /// The text of each reason.
    pub open spec fn message_of(self) -> Seq<char> {
        match self {
            ErrorCode::NotListed => "Invoice is not listed for sale."@,
            ErrorCode::AlreadySold => "Invoice has already been sold and cannot be cancelled."@,
            ErrorCode::NotSold => "Invoice must be in the 'Sold' state to be repaid or defaulted."@,
            ErrorCode::InvalidSalePrice => "Sale price must be less than the invoice amount."@,
            ErrorCode::NotYetDue => "The invoice is not yet due for repayment."@,
            ErrorCode::InvalidAmount => "Invoice amount must be greater than zero."@,
            ErrorCode::DuplicateInvoice => "The business already has an open invoice."@,
            ErrorCode::NotOwner => "Only the business that owns the invoice may do this."@,
            ErrorCode::NotHolder => "Only the investor who holds the invoice may do this."@,
            ErrorCode::InvalidState => "Invoice can only be listed while pending or listed."@,
            ErrorCode::AlreadyClosed => "Invoice has already been cancelled and closed."@,
            ErrorCode::TransferFailed(_) => "The token transfer failed."@,
        }
    }

    /// A sentence that tells the caller why the operation was refused.
    pub fn message(&self) -> (text: &'static str)
        ensures
            text@ == self.message_of(),
    {
        match self {
            ErrorCode::NotListed => "Invoice is not listed for sale.",
            ErrorCode::AlreadySold => "Invoice has already been sold and cannot be cancelled.",
            ErrorCode::NotSold => "Invoice must be in the 'Sold' state to be repaid or defaulted.",
            ErrorCode::InvalidSalePrice => "Sale price must be less than the invoice amount.",
            ErrorCode::NotYetDue => "The invoice is not yet due for repayment.",
            ErrorCode::InvalidAmount => "Invoice amount must be greater than zero.",
            ErrorCode::DuplicateInvoice => "The business already has an open invoice.",
            ErrorCode::NotOwner => "Only the business that owns the invoice may do this.",
            ErrorCode::NotHolder => "Only the investor who holds the invoice may do this.",
            ErrorCode::InvalidState => "Invoice can only be listed while pending or listed.",
            ErrorCode::AlreadyClosed => "Invoice has already been cancelled and closed.",
            ErrorCode::TransferFailed(_) => "The token transfer failed.",
        }
    }
}

} // verus!
