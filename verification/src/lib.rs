//! Invoice-factoring escrow: the lifecycle of one tokenized invoice.
//!
//! A business records an invoice, lists it for sale in some settlement asset,
//! and an investor buys the right to its repayment at a discount. The invoice
//! then ends repaid, cancelled or defaulted. Every operation is a guarded
//! transition on one [`Invoice`] record; the two operations that move funds
//! are settled against the outcome of a custodial transfer, so that a failed
//! transfer leaves the record untouched.
//!
//! The operations are in [`instructions`], the accounts they take in
//! [`accounts`]. [`lifecycle`] states what each operation decides and does as
//! a state machine over records, and [`laws`] proves what holds of that
//! machine as a whole.

pub mod accounts;
pub mod address;
pub mod error;
pub mod instructions;
pub mod invoice;
pub mod laws;
pub mod lifecycle;
pub mod status;
pub mod transfer;

pub use accounts::{
    CancelInvoice, ClaimDefault, InitializeInvoice, ListInvoice, PurchaseInvoice,
    RepayInvestorAndClose,
};
pub use address::Address;
pub use error::{ErrorCode, ErrorKind};
pub use instructions::{
    cancel_invoice, claim_default, initialize_invoice, list_invoice, purchase_invoice,
    purchase_transfer, repay_investor_and_close, repayment_transfer,
};
pub use invoice::Invoice;
pub use status::InvoiceStatus;
pub use transfer::{Transfer, TransferOutcome};
