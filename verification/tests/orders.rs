use anchor_lang::prelude::Pubkey;
use nft_pawn_shop::{
    cancel_order, execute_order_at, get_demo_assets, place_order, CancelOrder, CustomError, Debt,
    ExecuteOrder, GetDemoAssets, Order, PawnShopUser, PlaceOrder, DEMO_NFT_GRANT, DEMO_TOKEN_GRANT,
};

fn key(n: u8) -> Pubkey {
    Pubkey::new_from_array([n; 32])
}

fn user(owner: u8, tokens: u16, nfts: u16, orders: Vec<Order>, debts: Vec<Debt>) -> PawnShopUser {
    PawnShopUser::from_parts(key(owner), tokens, nfts, orders, debts).unwrap()
}

fn order(borrow_amount: u16, debt_amount: u16, duration: u64) -> Order {
    Order::Occupied { borrow_amount, debt_amount, duration }
}

#[test]
fn grant_is_one_nft_and_a_hundred_tokens() {
    assert_eq!(DEMO_NFT_GRANT, 1);
    assert_eq!(DEMO_TOKEN_GRANT, 100);
}

#[test]
fn get_demo_assets_adds_the_grant_and_sets_the_owner() {
    let mut ctx = GetDemoAssets { pawn_shop_user: user(0, 5, 2, vec![Order::Empty], vec![]), signer: key(7) };
    assert_eq!(get_demo_assets(&mut ctx), Ok(()));
    assert_eq!(ctx.pawn_shop_user, user(7, 105, 3, vec![Order::Empty], vec![]));
    assert_eq!(ctx.signer, key(7));
}

#[test]
fn get_demo_assets_rejects_a_grant_that_does_not_fit() {
    let mut ctx = GetDemoAssets { pawn_shop_user: user(1, 65_436, 0, vec![], vec![]), signer: key(7) };
    assert_eq!(get_demo_assets(&mut ctx), Err(CustomError::Overflow));
    assert_eq!(ctx.pawn_shop_user, user(1, 65_436, 0, vec![], vec![]));

    let mut ctx = GetDemoAssets { pawn_shop_user: user(1, 0, 65_535, vec![], vec![]), signer: key(7) };
    assert_eq!(get_demo_assets(&mut ctx), Err(CustomError::Overflow));
    assert_eq!(ctx.pawn_shop_user, user(1, 0, 65_535, vec![], vec![]));

    let mut ctx = GetDemoAssets { pawn_shop_user: user(1, 65_435, 65_534, vec![], vec![]), signer: key(7) };
    assert_eq!(get_demo_assets(&mut ctx), Ok(()));
    assert_eq!(ctx.pawn_shop_user, user(7, 65_535, 65_535, vec![], vec![]));
}

#[test]
fn place_order_pledges_one_nft_and_appends_the_order() {
    let mut ctx = PlaceOrder { borrower: user(1, 100, 2, vec![Order::Empty], vec![]), signer: key(1) };
    assert_eq!(place_order(&mut ctx, 3600, 50, 60), Ok(()));
    assert_eq!(ctx.borrower, user(1, 100, 1, vec![Order::Empty, order(50, 60, 3600)], vec![]));
    assert_eq!(place_order(&mut ctx, u64::MAX, 0, u16::MAX), Ok(()));
    assert_eq!(
        ctx.borrower,
        user(
            1,
            100,
            0,
            vec![Order::Empty, order(50, 60, 3600), order(0, u16::MAX, u64::MAX)],
            vec![]
        )
    );
}

#[test]
fn place_order_needs_the_owner() {
    let mut ctx = PlaceOrder { borrower: user(1, 100, 1, vec![], vec![]), signer: key(2) };
    assert_eq!(place_order(&mut ctx, 3600, 50, 60), Err(CustomError::UnauthorizedAccess));
    assert_eq!(ctx.borrower, user(1, 100, 1, vec![], vec![]));
}

#[test]
fn place_order_needs_collateral() {
    let mut ctx = PlaceOrder { borrower: user(1, 100, 0, vec![], vec![]), signer: key(1) };
    assert_eq!(place_order(&mut ctx, 3600, 50, 60), Err(CustomError::NoCollateral));
    assert_eq!(ctx.borrower, user(1, 100, 0, vec![], vec![]));
}

#[test]
fn place_order_stops_at_thirty_two_slots() {
    let mut ctx = PlaceOrder { borrower: user(1, 100, 40, vec![], vec![]), signer: key(1) };
    for n in 0..32u16 {
        assert_eq!(place_order(&mut ctx, 1, n, n), Ok(()));
    }
    assert_eq!(ctx.borrower.orders().len(), 32);
    assert_eq!(ctx.borrower.demo_nfts(), 8);
    let before = ctx.borrower.clone();
    assert_eq!(place_order(&mut ctx, 1, 1, 1), Err(CustomError::CapacityExceeded));
    assert_eq!(ctx.borrower, before);
}

#[test]
fn emptied_slots_still_count_against_capacity() {
    let mut ctx = PlaceOrder { borrower: user(1, 100, 1, vec![Order::Empty; 32], vec![]), signer: key(1) };
    assert_eq!(place_order(&mut ctx, 1, 1, 1), Err(CustomError::CapacityExceeded));
    assert_eq!(ctx.borrower, user(1, 100, 1, vec![Order::Empty; 32], vec![]));
}

#[test]
fn place_order_rejections_in_order_of_precedence() {
    let mut ctx = PlaceOrder { borrower: user(1, 100, 0, vec![Order::Empty; 32], vec![]), signer: key(2) };
    assert_eq!(place_order(&mut ctx, 1, 1, 1), Err(CustomError::UnauthorizedAccess));
    ctx.signer = key(1);
    assert_eq!(place_order(&mut ctx, 1, 1, 1), Err(CustomError::NoCollateral));
}

#[test]
fn cancel_order_empties_the_slot_and_returns_the_nft() {
    let mut ctx = CancelOrder {
        borrower: user(1, 100, 0, vec![order(1, 2, 3), order(4, 5, 6)], vec![]),
        signer: key(1),
    };
    assert_eq!(cancel_order(&mut ctx, 1), Ok(()));
    assert_eq!(ctx.borrower, user(1, 100, 1, vec![order(1, 2, 3), Order::Empty], vec![]));
}

#[test]
fn cancel_order_twice_returns_two_nfts() {
    let mut ctx = CancelOrder { borrower: user(1, 100, 0, vec![order(1, 2, 3)], vec![]), signer: key(1) };
    assert_eq!(cancel_order(&mut ctx, 0), Ok(()));
    assert_eq!(ctx.borrower.demo_nfts(), 1);
    assert_eq!(cancel_order(&mut ctx, 0), Ok(()));
    assert_eq!(ctx.borrower, user(1, 100, 2, vec![Order::Empty], vec![]));
}

#[test]
fn cancel_order_needs_the_owner() {
    let mut ctx = CancelOrder { borrower: user(1, 100, 0, vec![order(1, 2, 3)], vec![]), signer: key(2) };
    assert_eq!(cancel_order(&mut ctx, 0), Err(CustomError::UnauthorizedAccess));
    assert_eq!(cancel_order(&mut ctx, 5), Err(CustomError::UnauthorizedAccess));
    assert_eq!(ctx.borrower, user(1, 100, 0, vec![order(1, 2, 3)], vec![]));
}

#[test]
fn cancel_order_beyond_the_list_finds_no_order() {
    let mut ctx = CancelOrder { borrower: user(1, 100, 0, vec![order(1, 2, 3)], vec![]), signer: key(1) };
    assert_eq!(cancel_order(&mut ctx, 1), Err(CustomError::NoOrderFound));
    assert_eq!(cancel_order(&mut ctx, u32::MAX), Err(CustomError::NoOrderFound));
    assert_eq!(ctx.borrower, user(1, 100, 0, vec![order(1, 2, 3)], vec![]));

    let mut ctx = CancelOrder { borrower: user(1, 100, 0, vec![], vec![]), signer: key(1) };
    assert_eq!(cancel_order(&mut ctx, 0), Err(CustomError::NoOrderFound));
}

#[test]
fn cancel_order_rejects_an_nft_that_does_not_fit() {
    let mut ctx = CancelOrder { borrower: user(1, 0, 65_535, vec![order(1, 2, 3)], vec![]), signer: key(1) };
    assert_eq!(cancel_order(&mut ctx, 0), Err(CustomError::Overflow));
    assert_eq!(ctx.borrower, user(1, 0, 65_535, vec![order(1, 2, 3)], vec![]));
}

#[test]
fn execute_order_moves_the_loan_and_records_the_debt() {
    let mut ctx = ExecuteOrder {
        lender: user(2, 70, 3, vec![order(9, 9, 9)], vec![Debt::Empty]),
        borrower: user(1, 10, 0, vec![Order::Empty, order(50, 60, 3600)], vec![Debt::Empty]),
        signer: key(2),
    };
    assert_eq!(execute_order_at(&mut ctx, 1, 1000), Ok(()));
    assert_eq!(ctx.lender, user(2, 20, 3, vec![order(9, 9, 9)], vec![Debt::Empty]));
    assert_eq!(
        ctx.borrower,
        user(
            1,
            60,
            0,
            vec![Order::Empty, Order::Empty],
            vec![Debt::Empty, Debt::Occupied { amount: 60, lender_id: key(2), deadline: 4600 }]
        )
    );
    assert_eq!(ctx.signer, key(2));
}

#[test]
fn execute_order_keeps_the_sum_of_tokens() {
    let mut ctx = ExecuteOrder {
        lender: user(2, 300, 0, vec![], vec![]),
        borrower: user(1, 45, 0, vec![order(299, 1, 1)], vec![]),
        signer: key(2),
    };
    assert_eq!(execute_order_at(&mut ctx, 0, 0), Ok(()));
    assert_eq!(ctx.lender.demo_tokens(), 1);
    assert_eq!(ctx.borrower.demo_tokens(), 344);
    assert_eq!(ctx.lender.demo_nfts() + ctx.borrower.demo_nfts(), 0);
}

#[test]
fn execute_order_with_the_whole_balance() {
    let mut ctx = ExecuteOrder {
        lender: user(2, 50, 0, vec![], vec![]),
        borrower: user(1, 0, 0, vec![order(50, 60, 1)], vec![]),
        signer: key(2),
    };
    assert_eq!(execute_order_at(&mut ctx, 0, 0), Ok(()));
    assert_eq!(ctx.lender.demo_tokens(), 0);
    assert_eq!(ctx.borrower.demo_tokens(), 50);
}

#[test]
fn execute_order_needs_the_owner_of_the_lender_account() {
    let lender = user(2, 100, 0, vec![], vec![]);
    let borrower = user(1, 100, 0, vec![order(50, 60, 3600)], vec![]);
    let mut ctx = ExecuteOrder { lender: lender.clone(), borrower: borrower.clone(), signer: key(1) };
    assert_eq!(execute_order_at(&mut ctx, 0, 1000), Err(CustomError::UnauthorizedAccess));
    assert_eq!(execute_order_at(&mut ctx, 7, 1000), Err(CustomError::UnauthorizedAccess));
    assert_eq!(ctx.lender, lender);
    assert_eq!(ctx.borrower, borrower);
}

#[test]
fn execute_order_finds_no_order_in_an_empty_or_missing_slot() {
    let lender = user(2, 100, 0, vec![order(1, 1, 1), order(1, 1, 1), order(1, 1, 1)], vec![]);
    let borrower = user(1, 100, 0, vec![Order::Empty, order(50, 60, 3600)], vec![]);
    let mut ctx = ExecuteOrder { lender: lender.clone(), borrower: borrower.clone(), signer: key(2) };
    assert_eq!(execute_order_at(&mut ctx, 0, 1000), Err(CustomError::NoOrderFound));
    assert_eq!(execute_order_at(&mut ctx, 2, 1000), Err(CustomError::NoOrderFound));
    assert_eq!(execute_order_at(&mut ctx, u32::MAX, 1000), Err(CustomError::NoOrderFound));
    assert_eq!(ctx.lender, lender);
    assert_eq!(ctx.borrower, borrower);
}

#[test]
fn execute_order_cannot_be_repeated() {
    let mut ctx = ExecuteOrder {
        lender: user(2, 100, 0, vec![], vec![]),
        borrower: user(1, 0, 0, vec![order(10, 20, 30)], vec![]),
        signer: key(2),
    };
    assert_eq!(execute_order_at(&mut ctx, 0, 1000), Ok(()));
    let lender = ctx.lender.clone();
    let borrower = ctx.borrower.clone();
    assert_eq!(execute_order_at(&mut ctx, 0, 1000), Err(CustomError::NoOrderFound));
    assert_eq!(ctx.lender, lender);
    assert_eq!(ctx.borrower, borrower);
}

#[test]
fn execute_order_needs_the_funds() {
    let lender = user(2, 49, 0, vec![], vec![]);
    let borrower = user(1, 100, 0, vec![order(50, 60, 3600)], vec![]);
    let mut ctx = ExecuteOrder { lender: lender.clone(), borrower: borrower.clone(), signer: key(2) };
    assert_eq!(execute_order_at(&mut ctx, 0, 1000), Err(CustomError::InsufficientFunds));
    assert_eq!(ctx.lender, lender);
    assert_eq!(ctx.borrower, borrower);
}

#[test]
fn execute_order_rejects_a_loan_the_borrower_cannot_hold() {
    let lender = user(2, 100, 0, vec![], vec![]);
    let borrower = user(1, 65_500, 0, vec![order(36, 60, 3600), order(35, 60, 3600)], vec![]);
    let mut ctx = ExecuteOrder { lender: lender.clone(), borrower: borrower.clone(), signer: key(2) };
    assert_eq!(execute_order_at(&mut ctx, 0, 1000), Err(CustomError::Overflow));
    assert_eq!(ctx.lender, lender);
    assert_eq!(ctx.borrower, borrower);
    assert_eq!(execute_order_at(&mut ctx, 1, 1000), Ok(()));
    assert_eq!(ctx.borrower.demo_tokens(), 65_535);
    assert_eq!(ctx.lender.demo_tokens(), 65);
}

#[test]
fn execute_order_rejects_a_deadline_beyond_the_end_of_time() {
    let lender = user(2, 100, 0, vec![], vec![]);
    let borrower = user(1, 0, 0, vec![order(1, 1, 10)], vec![]);
    let mut ctx = ExecuteOrder { lender: lender.clone(), borrower: borrower.clone(), signer: key(2) };
    assert_eq!(execute_order_at(&mut ctx, 0, i64::MAX - 9), Err(CustomError::Overflow));
    assert_eq!(ctx.lender, lender);
    assert_eq!(ctx.borrower, borrower);
    assert_eq!(execute_order_at(&mut ctx, 0, i64::MAX - 10), Ok(()));
    assert_eq!(
        ctx.borrower.debts(),
        &vec![Debt::Occupied { amount: 1, lender_id: key(2), deadline: i64::MAX }]
    );
}

#[test]
fn deadline_is_the_sum_of_time_and_duration() {
    let long = (i64::MAX as u64) + 5;
    let mut ctx = ExecuteOrder {
        lender: user(2, 100, 0, vec![], vec![]),
        borrower: user(1, 0, 0, vec![order(1, 1, long), order(1, 1, long), order(1, 1, u64::MAX)], vec![]),
        signer: key(2),
    };
    assert_eq!(execute_order_at(&mut ctx, 0, -10), Ok(()));
    assert_eq!(execute_order_at(&mut ctx, 1, 0), Err(CustomError::Overflow));
    assert_eq!(execute_order_at(&mut ctx, 2, i64::MIN), Ok(()));
    assert_eq!(
        ctx.borrower.debts(),
        &vec![
            Debt::Occupied { amount: 1, lender_id: key(2), deadline: i64::MAX - 5 },
            Debt::Occupied { amount: 1, lender_id: key(2), deadline: i64::MAX },
        ]
    );
}

#[test]
fn execute_order_stops_at_thirty_two_debts() {
    let lender = user(2, 100, 0, vec![], vec![]);
    let borrower = user(1, 0, 0, vec![order(1, 1, 1)], vec![Debt::Empty; 32]);
    let mut ctx = ExecuteOrder { lender: lender.clone(), borrower: borrower.clone(), signer: key(2) };
    assert_eq!(execute_order_at(&mut ctx, 0, 0), Err(CustomError::CapacityExceeded));
    assert_eq!(ctx.lender, lender);
    assert_eq!(ctx.borrower, borrower);

    let mut ctx = ExecuteOrder {
        lender: user(2, 100, 0, vec![], vec![]),
        borrower: user(1, 0, 0, vec![order(1, 1, 1)], vec![Debt::Empty; 31]),
        signer: key(2),
    };
    assert_eq!(execute_order_at(&mut ctx, 0, 0), Ok(()));
    assert_eq!(ctx.borrower.debts().len(), 32);
}

#[test]
fn execute_order_rejections_in_order_of_precedence() {
    let mut ctx = ExecuteOrder {
        lender: user(2, 5, 0, vec![], vec![]),
        borrower: user(1, 65_535, 0, vec![order(10, 1, u64::MAX)], vec![Debt::Empty; 32]),
        signer: key(1),
    };
    assert_eq!(execute_order_at(&mut ctx, 0, i64::MAX), Err(CustomError::UnauthorizedAccess));
    ctx.signer = key(2);
    assert_eq!(execute_order_at(&mut ctx, 0, i64::MAX), Err(CustomError::InsufficientFunds));
    ctx.lender = user(2, 10, 0, vec![], vec![]);
    assert_eq!(execute_order_at(&mut ctx, 0, i64::MIN), Err(CustomError::Overflow));
    ctx.borrower = user(1, 0, 0, vec![order(10, 1, u64::MAX)], vec![Debt::Empty; 32]);
    assert_eq!(execute_order_at(&mut ctx, 0, i64::MIN + 1), Err(CustomError::Overflow));
    assert_eq!(execute_order_at(&mut ctx, 0, i64::MIN), Err(CustomError::CapacityExceeded));
}
