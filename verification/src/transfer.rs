//! Custodial transfers: what the ledger is asked to move, and how it answered.

use crate::address::Address;
use vstd::prelude::*;

verus! {

/// A movement of funds that an operation calls for. The host carries it out
/// through its custodial transfer service and reports the outcome back.
#[derive(Clone, Copy, Debug, PartialEq, Eq)]
pub struct Transfer {
    /// The settlement asset, as the invoice records it.
    pub mint: Option<Address>,
    /// The token account the funds are drawn from.
    pub from: Address,
    /// The token account the funds are paid into.
    pub to: Address,
    /// The party that authorizes the withdrawal from `from`.
    pub authority: Address,
    /// How many units of the asset are moved.
    pub amount: u64,
}

/// What the custodial transfer service answered.
#[derive(Clone, Copy, Debug, PartialEq, Eq, Structural)]
pub enum TransferOutcome {
    /// The whole amount moved, exactly once.
    Completed,
    /// Nothing moved. The code is the service's own reason, passed through.
    Failed(u64),
}

} // verus!
