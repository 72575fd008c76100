//! What holds of the lifecycle as a whole, proved over the state machine
//! that the operations carry out.

use crate::address::Address;
use crate::error::{ErrorCode, ErrorKind};
use crate::invoice::Invoice;
use crate::lifecycle::{created, Operation};
use crate::status::InvoiceStatus;
use crate::transfer::TransferOutcome;
use vstd::prelude::*;

verus! {

/// A creation that is admitted records a well-formed invoice.
pub proof fn lemma_created_is_well_formed(business: Address, amount: u64, due_date: i64, bump: u8)
    requires
        amount > 0,
    ensures
        created(business, amount, due_date, bump).wf(),
{
}

/// No step, admitted or refused, breaks the invariant of a well-formed
/// invoice.
pub proof fn lemma_step_keeps_well_formed(inv: Invoice, op: Operation)
    requires
        inv.wf(),
    ensures
        inv.after(op).wf(),
{
}

/// No sequence of steps breaks the invariant of a well-formed invoice.
pub proof fn lemma_steps_keep_well_formed(inv: Invoice, ops: Seq<Operation>)
    requires
        inv.wf(),
    ensures
        inv.after_all(ops).wf(),
    decreases ops.len(),
{
    if ops.len() > 0 {
        lemma_steps_keep_well_formed(inv, ops.drop_last());
        lemma_step_keeps_well_formed(inv.after_all(ops.drop_last()), ops.last());
    }
}

/// Every invoice that the operations can produce is well formed.
pub proof fn lemma_reachable_is_well_formed(inv: Invoice)
    requires
        inv.reachable(),
    ensures
        inv.wf(),
{
    let (business, amount, due_date, bump, ops) = choose|
        business: Address,
        amount: u64,
        due_date: i64,
        bump: u8,
        ops: Seq<Operation>,
    |
        amount > 0 && inv == #[trigger] created(business, amount, due_date, bump).after_all(ops);
    lemma_created_is_well_formed(business, amount, due_date, bump);
    lemma_steps_keep_well_formed(created(business, amount, due_date, bump), ops);
}

/// The sale price of an invoice that the operations can produce lies
/// strictly below its face amount: from its listing on, and before it too,
/// when the price is still zero.
pub proof fn law_sale_price_below_face_amount(inv: Invoice)
    requires
        inv.reachable(),
    ensures
        inv.sale_price < inv.amount,
        inv.status == InvoiceStatus::Pending ==> inv.sale_price == 0,
{
    lemma_reachable_is_well_formed(inv);
}

/// An invoice that the operations can produce has a holder exactly when it
/// is sold, repaid or defaulted.
pub proof fn law_holder_set_exactly_when_sold(inv: Invoice)
    requires
        inv.reachable(),
    ensures
        inv.investor is Some <==> inv.status == InvoiceStatus::Sold || inv.status
            == InvoiceStatus::Repaid || inv.status == InvoiceStatus::Defaulted,
{
    lemma_reachable_is_well_formed(inv);
}

/// An invoice that the operations can produce, and that is not cancelled,
/// has no holder exactly when it is pending or listed. A cancelled invoice
/// has no holder either, though it is neither.
pub proof fn law_holder_unset_exactly_before_sale(inv: Invoice)
    requires
        inv.reachable(),
        inv.status != InvoiceStatus::Cancelled,
    ensures
        inv.investor is None <==> inv.status == InvoiceStatus::Pending || inv.status
            == InvoiceStatus::Listed,
{
    lemma_reachable_is_well_formed(inv);
}

/// A cancelled invoice that the operations can produce has no holder.
pub proof fn law_cancelled_has_no_holder(inv: Invoice)
    requires
        inv.reachable(),
        inv.status == InvoiceStatus::Cancelled,
    ensures
        inv.investor is None,
{
    lemma_reachable_is_well_formed(inv);
}

/// "Reaches" orders the statuses: every status reaches itself, two distinct
/// statuses never reach each other, and what is reached through another
/// status is reached. One step of the lifecycle graph reaches its target.
pub proof fn lemma_reaches_is_a_partial_order(a: InvoiceStatus, b: InvoiceStatus, c: InvoiceStatus)
    ensures
        a.reaches(a),
        a.reaches(b) && b.reaches(a) ==> a == b,
        a.reaches(b) && b.reaches(c) ==> a.reaches(c),
        a.precedes(b) ==> a.reaches(b) && a != b,
{
}

/// "Reaches" is what the lifecycle graph says and no more: one status
/// reaches another exactly when some path of at most three edges leads
/// from the one to the other. No path in the graph is longer.
pub proof fn lemma_reaches_follows_the_graph(a: InvoiceStatus, b: InvoiceStatus)
    ensures
        a.reaches(b) <==> a == b || a.precedes(b) || (exists|m: InvoiceStatus|
            a.precedes(m) && m.precedes(b)) || (exists|m: InvoiceStatus, n: InvoiceStatus|
            a.precedes(m) && m.precedes(n) && n.precedes(b)),
        forall|m: InvoiceStatus, n: InvoiceStatus, o: InvoiceStatus|
            !(a.precedes(m) && m.precedes(n) && n.precedes(o) && o.precedes(b)),
{
    if a.reaches(b) && a != b && !a.precedes(b) {
        if a == InvoiceStatus::Pending && b != InvoiceStatus::Sold {
            assert(a.precedes(InvoiceStatus::Listed) && InvoiceStatus::Listed.precedes(
                InvoiceStatus::Sold,
            ) && InvoiceStatus::Sold.precedes(b));
        } else {
            let m = if a == InvoiceStatus::Pending {
                InvoiceStatus::Listed
            } else {
                InvoiceStatus::Sold
            };
            assert(a.precedes(m) && m.precedes(b));
        }
    }
}

/// A step never moves the status backward: it leaves the status as it is
/// or takes one edge of the lifecycle graph. A refused step and a step on
/// an invoice in a terminal status leave the whole record as it is.
pub proof fn law_step_never_regresses(inv: Invoice, op: Operation)
    ensures
        inv.after(op).status == inv.status || inv.status.precedes(inv.after(op).status),
        inv.status.reaches(inv.after(op).status),
        inv.after(op).status != inv.status ==> !inv.after(op).status.reaches(inv.status),
        inv.verdict(op) is Err ==> inv.after(op) == inv,
        inv.status.is_terminal() ==> inv.after(op) == inv,
        inv.after(op).business == inv.business,
        inv.after(op).amount == inv.amount,
        inv.after(op).due_date == inv.due_date,
{
}

/// No sequence of steps moves the status backward: the status at the end is
/// one that the status at the start reaches. The owner, the face amount
/// and the due date never change.
pub proof fn law_status_never_regresses(inv: Invoice, ops: Seq<Operation>)
    ensures
        inv.status.reaches(inv.after_all(ops).status),
        inv.after_all(ops).status != inv.status ==> !inv.after_all(ops).status.reaches(inv.status),
        inv.after_all(ops).business == inv.business,
        inv.after_all(ops).amount == inv.amount,
        inv.after_all(ops).due_date == inv.due_date,
    decreases ops.len(),
{
    if ops.len() > 0 {
        let before = inv.after_all(ops.drop_last());
        law_status_never_regresses(inv, ops.drop_last());
        law_step_never_regresses(before, ops.last());
        lemma_reaches_is_a_partial_order(inv.status, before.status, before.after(ops.last()).status);
        lemma_reaches_is_a_partial_order(
            before.after(ops.last()).status,
            inv.status,
            before.status,
        );
    }
}

/// An invoice in a terminal status stays as it is, whatever is tried.
pub proof fn law_terminal_is_final(inv: Invoice, ops: Seq<Operation>)
    requires
        inv.status.is_terminal(),
    ensures
        inv.after_all(ops) == inv,
    decreases ops.len(),
{
    if ops.len() > 0 {
        law_terminal_is_final(inv, ops.drop_last());
        law_step_never_regresses(inv, ops.last());
    }
}

/// A purchase whose payment failed is refused and leaves the invoice as it
/// was: still listed and without a holder, if it was so before.
pub proof fn law_failed_purchase_changes_nothing(inv: Invoice, investor: Address, reason: u64)
    ensures
        inv.verdict(Operation::Purchase { investor, payment: TransferOutcome::Failed(reason) })
            is Err,
        inv.after(Operation::Purchase { investor, payment: TransferOutcome::Failed(reason) })
            == inv,
        inv.status == InvoiceStatus::Listed ==> inv.purchase_verdict(
            TransferOutcome::Failed(reason),
        ) == Err::<(), ErrorCode>(ErrorCode::TransferFailed(reason)),
{
}

/// A repayment whose payment failed is refused and leaves the invoice as it
/// was.
pub proof fn law_failed_repayment_changes_nothing(inv: Invoice, caller: Address, reason: u64)
    ensures
        inv.verdict(Operation::Repay { caller, payment: TransferOutcome::Failed(reason) })
            is Err,
        inv.after(Operation::Repay { caller, payment: TransferOutcome::Failed(reason) }) == inv,
        inv.status == InvoiceStatus::Sold && caller == inv.business ==> inv.repay_verdict(
            caller,
            TransferOutcome::Failed(reason),
        ) == Err::<(), ErrorCode>(ErrorCode::TransferFailed(reason)),
{
}

/// Funds move only for an operation that is then admitted: whenever the
/// guard of a purchase or a repayment refuses, so does the operation,
/// with the same reason, whatever the payment's outcome.
pub proof fn law_guard_decides_before_payment(
    inv: Invoice,
    caller: Address,
    payment: TransferOutcome,
)
    ensures
        inv.purchase_guard() is Err ==> inv.purchase_verdict(payment) == inv.purchase_guard(),
        inv.repay_guard(caller) is Err ==> inv.repay_verdict(caller, payment) == inv.repay_guard(
            caller,
        ),
        inv.purchase_guard() is Ok ==> (inv.purchase_verdict(payment) is Ok <==> payment
            == TransferOutcome::Completed),
        inv.repay_guard(caller) is Ok ==> (inv.repay_verdict(caller, payment) is Ok <==> payment
            == TransferOutcome::Completed),
{
}

/// A purchase on the one hand, a repayment or a default claim on the other,
/// are never both open on the same invoice: the first asks for a listed
/// invoice, the other two for a sold one.
pub proof fn law_purchase_excludes_repayment_and_claim(
    inv: Invoice,
    owner: Address,
    holder: Address,
    now: i64,
)
    ensures
        !(inv.purchase_guard() is Ok && inv.repay_guard(owner) is Ok),
        !(inv.purchase_guard() is Ok && inv.default_verdict(holder, now) is Ok),
{
}

/// Once an invoice is cancelled, cancelling it again is refused, by
/// whomever and however often it is tried and whatever else is tried in
/// between: the owner is told that it is already closed, anyone else that
/// they are not the owner.
pub proof fn law_cancel_is_refused_once_cancelled(
    inv: Invoice,
    first: Address,
    between: Seq<Operation>,
    again: Address,
)
    requires
        inv.cancel_verdict(first) is Ok,
    ensures
        inv.cancelled().after_all(between) == inv.cancelled(),
        inv.cancelled().after_all(between).cancel_verdict(again) == Err::<(), ErrorCode>(
            if again == inv.business {
                ErrorCode::AlreadyClosed
            } else {
                ErrorCode::NotOwner
            },
        ),
        inv.cancelled().after_all(between).after(Operation::Cancel { caller: again })
            == inv.cancelled(),
{
    law_terminal_is_final(inv.cancelled(), between);
}

/// Whoever is not the owner is refused a cancellation for want of
/// authority, in whatever status the invoice is.
pub proof fn law_only_the_owner_cancels(inv: Invoice, caller: Address)
    requires
        caller != inv.business,
    ensures
        inv.cancel_verdict(caller) == Err::<(), ErrorCode>(ErrorCode::NotOwner),
        ErrorCode::NotOwner.kind_of() == ErrorKind::Authorization,
{
}

} // verus!
