use defi_escrow::{
    cancel_invoice, claim_default, initialize_invoice, list_invoice, purchase_invoice,
    repay_investor_and_close, Address, CancelInvoice, ClaimDefault, ErrorCode, InitializeInvoice,
    Invoice, InvoiceStatus, ListInvoice, PurchaseInvoice, RepayInvestorAndClose, TransferOutcome,
};

const FACE: u64 = 1000;
const DUE: i64 = 50_000;

fn who(tag: u8) -> Address {
    Address { bytes: [tag; 32] }
}

#[derive(Clone, Copy, Debug)]
enum Step {
    List(Address, Address, u64),
    Purchase(Address, TransferOutcome),
    Cancel(Address),
    Repay(Address, TransferOutcome),
    Claim(Address, i64),
}

fn palette() -> Vec<Step> {
    let seller = who(1);
    let first_buyer = who(2);
    let second_buyer = who(3);
    vec![
        Step::List(seller, who(30), 900),
        Step::List(seller, who(31), 0),
        Step::List(seller, who(30), FACE),
        Step::List(first_buyer, who(30), 900),
        Step::Purchase(first_buyer, TransferOutcome::Completed),
        Step::Purchase(second_buyer, TransferOutcome::Completed),
        Step::Purchase(first_buyer, TransferOutcome::Failed(1)),
        Step::Cancel(seller),
        Step::Cancel(second_buyer),
        Step::Repay(seller, TransferOutcome::Completed),
        Step::Repay(seller, TransferOutcome::Failed(17)),
        Step::Repay(first_buyer, TransferOutcome::Completed),
        Step::Claim(first_buyer, DUE),
        Step::Claim(first_buyer, DUE + 1),
        Step::Claim(second_buyer, DUE + 1),
        Step::Claim(seller, DUE + 1),
    ]
}

fn take(invoice: Invoice, step: Step) -> (Invoice, Result<(), ErrorCode>) {
    match step {
        Step::List(caller, mint, price) => {
            let mut ctx = ListInvoice { invoice, business: caller };
            let res = list_invoice(&mut ctx, mint, price);
            assert_eq!(ctx.business, caller);
            (ctx.invoice, res)
        }
        Step::Purchase(investor, payment) => {
            let mut ctx = PurchaseInvoice {
                invoice,
                investor,
                investor_token_account: who(40),
                business_token_account: who(41),
            };
            let res = purchase_invoice(&mut ctx, payment);
            assert_eq!(ctx.investor, investor);
            assert_eq!(ctx.investor_token_account, who(40));
            assert_eq!(ctx.business_token_account, who(41));
            (ctx.invoice, res)
        }
        Step::Cancel(caller) => {
            let mut ctx = CancelInvoice { invoice, business: caller };
            let res = cancel_invoice(&mut ctx);
            (ctx.invoice, res)
        }
        Step::Repay(caller, payment) => {
            let mut ctx = RepayInvestorAndClose {
                invoice,
                business: caller,
                investor_token_account: who(40),
                business_token_account: who(41),
            };
            let res = repay_investor_and_close(&mut ctx, payment);
            (ctx.invoice, res)
        }
        Step::Claim(caller, now) => {
            let mut ctx = ClaimDefault { invoice, investor: caller };
            let res = claim_default(&mut ctx, now);
            (ctx.invoice, res)
        }
    }
}

fn one_edge(from: InvoiceStatus, to: InvoiceStatus) -> bool {
    matches!(
        (from, to),
        (InvoiceStatus::Pending, InvoiceStatus::Listed)
            | (InvoiceStatus::Pending, InvoiceStatus::Cancelled)
            | (InvoiceStatus::Listed, InvoiceStatus::Sold)
            | (InvoiceStatus::Listed, InvoiceStatus::Cancelled)
            | (InvoiceStatus::Sold, InvoiceStatus::Repaid)
            | (InvoiceStatus::Sold, InvoiceStatus::Defaulted)
    )
}

fn check_state(invoice: &Invoice) {
    assert!(invoice.is_well_formed());
    assert!(invoice.amount > 0);
    assert!(invoice.sale_price < invoice.amount);
    let sold_or_later = matches!(
        invoice.status,
        InvoiceStatus::Sold | InvoiceStatus::Repaid | InvoiceStatus::Defaulted
    );
    assert_eq!(invoice.investor.is_some(), sold_or_later);
    if invoice.status != InvoiceStatus::Cancelled {
        let before_sale =
            matches!(invoice.status, InvoiceStatus::Pending | InvoiceStatus::Listed);
        assert_eq!(invoice.investor.is_none(), before_sale);
    }
    if invoice.status == InvoiceStatus::Pending {
        assert_eq!(invoice.sale_price, 0);
        assert_eq!(invoice.mint, None);
    }
    assert_eq!(invoice.business, who(1));
    assert_eq!(invoice.amount, FACE);
    assert_eq!(invoice.due_date, DUE);
}

fn explore(invoice: Invoice, depth: u32, seen: &mut Vec<InvoiceStatus>) {
    check_state(&invoice);
    if !seen.contains(&invoice.status) {
        seen.push(invoice.status);
    }
    if depth == 0 {
        return;
    }
    for step in palette() {
        let (next, res) = take(invoice, step);
        if res.is_err() {
            assert_eq!(next, invoice);
        } else {
            assert!(one_edge(invoice.status, next.status) || next.status == invoice.status);
        }
        let terminal = matches!(
            invoice.status,
            InvoiceStatus::Repaid | InvoiceStatus::Cancelled | InvoiceStatus::Defaulted
        );
        if terminal {
            assert!(res.is_err());
            assert_eq!(next, invoice);
        }
        if let Step::Purchase(_, TransferOutcome::Failed(_)) = step {
            assert!(res.is_err());
            assert_eq!(next, invoice);
        }
        if let Step::Repay(_, TransferOutcome::Failed(_)) = step {
            assert!(res.is_err());
            assert_eq!(next, invoice);
        }
        explore(next, depth - 1, seen);
    }
}

#[test]
fn every_reachable_invoice_keeps_the_invariant() {
    let mut ctx = InitializeInvoice { invoice: None, business: who(1), bump: 250 };
    assert_eq!(initialize_invoice(&mut ctx, FACE, DUE), Ok(()));
    let mut seen: Vec<InvoiceStatus> = Vec::new();
    explore(ctx.invoice.unwrap(), 4, &mut seen);
    assert_eq!(seen.len(), 6);
}

#[test]
fn malformed_records_are_told_apart() {
    let sound = Invoice {
        business: who(1),
        investor: Some(who(2)),
        mint: Some(who(30)),
        amount: 10,
        sale_price: 9,
        due_date: 0,
        status: InvoiceStatus::Sold,
        bump: 0,
    };
    assert!(sound.is_well_formed());
    assert!(!Invoice { amount: 0, sale_price: 0, ..sound }.is_well_formed());
    assert!(!Invoice { sale_price: 10, ..sound }.is_well_formed());
    assert!(!Invoice { investor: None, ..sound }.is_well_formed());
    assert!(!Invoice { mint: None, ..sound }.is_well_formed());
    assert!(!Invoice { status: InvoiceStatus::Listed, ..sound }.is_well_formed());
    assert!(!Invoice { status: InvoiceStatus::Cancelled, ..sound }.is_well_formed());
    let pending = Invoice {
        investor: None,
        mint: None,
        sale_price: 0,
        status: InvoiceStatus::Pending,
        ..sound
    };
    assert!(pending.is_well_formed());
    assert!(!Invoice { sale_price: 1, ..pending }.is_well_formed());
    assert!(!Invoice { mint: Some(who(30)), ..pending }.is_well_formed());
    assert!(Invoice { status: InvoiceStatus::Cancelled, ..pending }.is_well_formed());
    assert!(Invoice { status: InvoiceStatus::Repaid, ..sound }.is_well_formed());
    assert!(Invoice { status: InvoiceStatus::Defaulted, ..sound }.is_well_formed());
}

#[test]
fn a_sold_invoice_cannot_be_listed_again() {
    let mut ctx = InitializeInvoice { invoice: None, business: who(1), bump: 250 };
    assert_eq!(initialize_invoice(&mut ctx, FACE, DUE), Ok(()));
    let (listed, res) = take(ctx.invoice.unwrap(), Step::List(who(1), who(30), 900));
    assert_eq!(res, Ok(()));
    let (sold, res) = take(listed, Step::Purchase(who(2), TransferOutcome::Completed));
    assert_eq!(res, Ok(()));
    let (still_sold, res) = take(sold, Step::List(who(1), who(30), 800));
    assert_eq!(res, Err(ErrorCode::InvalidState));
    assert_eq!(still_sold, sold);
    assert_eq!(still_sold.status, InvoiceStatus::Sold);
}
