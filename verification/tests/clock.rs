use anchor_lang::prelude::Pubkey;
use nft_pawn_shop::{
    execute_order, pay_debt, seize, CustomError, Debt, ExecuteOrder, Order, PawnShopUser, PayDebt,
    Seize,
};

fn key(n: u8) -> Pubkey {
    Pubkey::new_from_array([n; 32])
}

fn user(owner: u8, tokens: u16, nfts: u16, orders: Vec<Order>, debts: Vec<Debt>) -> PawnShopUser {
    PawnShopUser::from_parts(key(owner), tokens, nfts, orders, debts).unwrap()
}

fn order(borrow_amount: u16) -> Order {
    Order::Occupied { borrow_amount, debt_amount: 60, duration: 3600 }
}

fn debt(amount: u16, lender: u8) -> Debt {
    Debt::Occupied { amount, lender_id: key(lender), deadline: 100 }
}

#[test]
fn execute_order_is_rejected_before_the_clock_is_asked() {
    let lender = user(2, 40, 0, vec![], vec![]);
    let borrower = user(1, 65_535, 0, vec![order(50), Order::Empty, order(40)], vec![]);

    let mut ctx = ExecuteOrder { lender: lender.clone(), borrower: borrower.clone(), signer: key(1) };
    assert_eq!(execute_order(&mut ctx, 0), Err(CustomError::UnauthorizedAccess));
    ctx.signer = key(2);
    assert_eq!(execute_order(&mut ctx, 1), Err(CustomError::NoOrderFound));
    assert_eq!(execute_order(&mut ctx, 3), Err(CustomError::NoOrderFound));
    assert_eq!(execute_order(&mut ctx, 0), Err(CustomError::InsufficientFunds));
    assert_eq!(execute_order(&mut ctx, 2), Err(CustomError::Overflow));
    assert_eq!(ctx.lender, lender);
    assert_eq!(ctx.borrower, borrower);
}

#[test]
fn execute_order_without_a_runtime_has_no_clock() {
    let lender = user(2, 100, 0, vec![], vec![]);
    let borrower = user(1, 0, 0, vec![order(50)], vec![]);
    let mut ctx = ExecuteOrder { lender: lender.clone(), borrower: borrower.clone(), signer: key(2) };
    assert_eq!(execute_order(&mut ctx, 0), Err(CustomError::ClockUnavailable));
    assert_eq!(ctx.lender, lender);
    assert_eq!(ctx.borrower, borrower);
}

#[test]
fn pay_debt_is_rejected_before_the_clock_is_asked() {
    let lender = user(2, 0, 0, vec![], vec![]);
    let borrower = user(1, 59, 0, vec![], vec![debt(60, 2), Debt::Empty]);

    let mut ctx = PayDebt { lender: lender.clone(), borrower: borrower.clone(), signer: key(2) };
    assert_eq!(pay_debt(&mut ctx, 0), Err(CustomError::UnauthorizedAccess));
    ctx.signer = key(1);
    assert_eq!(pay_debt(&mut ctx, 1), Err(CustomError::NoDebtFound));
    assert_eq!(pay_debt(&mut ctx, 2), Err(CustomError::NoDebtFound));
    assert_eq!(pay_debt(&mut ctx, 0), Err(CustomError::InsufficientFunds));
    assert_eq!(ctx.lender, lender);
    assert_eq!(ctx.borrower, borrower);
}

#[test]
fn pay_debt_without_a_runtime_has_no_clock() {
    let lender = user(3, 0, 0, vec![], vec![]);
    let borrower = user(1, 60, 0, vec![], vec![debt(60, 2)]);
    let mut ctx = PayDebt { lender: lender.clone(), borrower: borrower.clone(), signer: key(1) };
    assert_eq!(pay_debt(&mut ctx, 0), Err(CustomError::ClockUnavailable));
    assert_eq!(ctx.lender, lender);
    assert_eq!(ctx.borrower, borrower);
}

#[test]
fn seize_is_rejected_before_the_clock_is_asked() {
    let lender = user(3, 0, 0, vec![], vec![]);
    let borrower = user(1, 0, 0, vec![], vec![debt(60, 2), Debt::Empty]);

    let mut ctx = Seize { lender: lender.clone(), borrower: borrower.clone(), signer: key(2) };
    assert_eq!(seize(&mut ctx, 0), Err(CustomError::UnauthorizedAccess));
    ctx.signer = key(3);
    assert_eq!(seize(&mut ctx, 1), Err(CustomError::NoDebtFound));
    assert_eq!(seize(&mut ctx, 2), Err(CustomError::NoDebtFound));
    assert_eq!(seize(&mut ctx, 0), Err(CustomError::LenderMismatch));
    assert_eq!(ctx.lender, lender);
    assert_eq!(ctx.borrower, borrower);
}

#[test]
fn seize_without_a_runtime_has_no_clock() {
    let lender = user(2, 0, 0, vec![], vec![]);
    let borrower = user(1, 0, 0, vec![], vec![debt(60, 2)]);
    let mut ctx = Seize { lender: lender.clone(), borrower: borrower.clone(), signer: key(2) };
    assert_eq!(seize(&mut ctx, 0), Err(CustomError::ClockUnavailable));
    assert_eq!(ctx.lender, lender);
    assert_eq!(ctx.borrower, borrower);
}
