//! The life of an order: a user is set up, places an order against one unit
//! of collateral, and either withdraws it or sees a lender match it.

use crate::accounts::{
    CancelOrder, ExecuteOrder, GetDemoAssets, LoanAccounts, PlaceOrder, UserAccounts,
};
use crate::clock::unix_timestamp;
use crate::errors::CustomError;
use crate::state::{Asset, Debt, Order, UserState, MAX_DEBTS, MAX_ORDERS};
use vstd::prelude::*;

verus! {

/// The demo tokens that a new user is given.
pub const DEMO_TOKEN_GRANT: u16 = 100;

/// The demo NFTs that a new user is given.
pub const DEMO_NFT_GRANT: u16 = 1;

impl UserAccounts {
    /// Setting the signer up as the owner of the record, with the grant of
    /// demo NFTs and demo tokens added to what the record holds.
    pub open spec fn get_demo_assets(self) -> Result<UserAccounts, CustomError> {
        if self.user.demo_nfts + DEMO_NFT_GRANT > u16::MAX
            || self.user.demo_tokens + DEMO_TOKEN_GRANT > u16::MAX {
            Err(CustomError::Overflow)
        } else {
            Ok(
                UserAccounts {
                    user: UserState {
                        owner: self.signer,
                        demo_nfts: self.user.demo_nfts + DEMO_NFT_GRANT,
                        demo_tokens: self.user.demo_tokens + DEMO_TOKEN_GRANT,
                        ..self.user
                    },
                    signer: self.signer,
                },
            )
        }
    }

    /// Placing an order: one demo NFT leaves the balance as collateral and
    /// the order is appended to the list.
    pub open spec fn place_order(
        self,
        duration: u64,
        borrow_amount: u16,
        debt_amount: u16,
    ) -> Result<UserAccounts, CustomError> {
        if self.user.owner != self.signer {
            Err(CustomError::UnauthorizedAccess)
        } else if self.user.demo_nfts <= 0 {
            Err(CustomError::NoCollateral)
        } else if self.user.orders.len() >= MAX_ORDERS {
            Err(CustomError::CapacityExceeded)
        } else {
            Ok(
                UserAccounts {
                    user: UserState {
                        demo_nfts: self.user.demo_nfts - 1,
                        orders: self.user.orders.push(
                            Order::Occupied { borrow_amount, debt_amount, duration },
                        ),
                        ..self.user
                    },
                    signer: self.signer,
                },
            )
        }
    }

    /// Cancelling the order slot at `order_index`: the slot is emptied and
    /// one demo NFT is returned, whether or not the slot held an order.
    pub open spec fn cancel_order(self, order_index: u32) -> Result<UserAccounts, CustomError> {
        if self.user.owner != self.signer {
            Err(CustomError::UnauthorizedAccess)
        } else if order_index >= self.user.orders.len() {
            Err(CustomError::NoOrderFound)
        } else if self.user.demo_nfts + 1 > u16::MAX {
            Err(CustomError::Overflow)
        } else {
            Ok(
                UserAccounts {
                    user: UserState {
                        demo_nfts: self.user.demo_nfts + 1,
                        orders: self.user.orders.update(order_index as int, Order::Empty),
                        ..self.user
                    },
                    signer: self.signer,
                },
            )
        }
    }
}

impl LoanAccounts {
    /// What matching the order at `order_index` depends on before the time
    /// is asked: the signer owns the lender account, the slot holds an
    /// order, the lender can afford the loan and the borrower can hold it.
    /// Yields the order to be matched.
    pub open spec fn execute_order_terms(self, order_index: u32) -> Result<Order, CustomError> {
        let order = self.borrower.orders[order_index as int];
        if self.lender.owner != self.signer {
            Err(CustomError::UnauthorizedAccess)
        } else if !self.borrower.has_order(order_index) {
            Err(CustomError::NoOrderFound)
        } else if self.lender.demo_tokens < order->borrow_amount {
            Err(CustomError::InsufficientFunds)
        } else if self.borrower.demo_tokens + order->borrow_amount > u16::MAX {
            Err(CustomError::Overflow)
        } else {
            Ok(order)
        }
    }

    /// Matching the order at `order_index` at the time `now`: the loan
    /// moves from the lender to the borrower, the order slot is emptied and
    /// a debt to the lender, due `duration` seconds from `now`, is appended
    /// to the borrower's debts.
    pub open spec fn execute_order(
        self,
        order_index: u32,
        now: i64,
    ) -> Result<LoanAccounts, CustomError> {
        match self.execute_order_terms(order_index) {
            Err(e) => Err(e),
            Ok(order) => {
                let deadline = now + order->duration;
                if deadline > i64::MAX {
                    Err(CustomError::Overflow)
                } else if self.borrower.debts.len() >= MAX_DEBTS {
                    Err(CustomError::CapacityExceeded)
                } else {
                    Ok(
                        LoanAccounts {
                            lender: UserState {
                                demo_tokens: self.lender.demo_tokens - order->borrow_amount,
                                ..self.lender
                            },
                            borrower: UserState {
                                demo_tokens: self.borrower.demo_tokens + order->borrow_amount,
                                orders: self.borrower.orders.update(
                                    order_index as int,
                                    Order::Empty,
                                ),
                                debts: self.borrower.debts.push(
                                    Debt::Occupied {
                                        amount: order->debt_amount,
                                        lender_id: self.lender.owner,
                                        deadline: deadline as i64,
                                    },
                                ),
                                ..self.borrower
                            },
                            signer: self.signer,
                        },
                    )
                }
            },
        }
    }
}

/// Sets the signer up as a user of the pawn shop: the record becomes the
/// signer's, and the grant of demo NFTs and demo tokens is added to it.
///
/// The record is meant to be one that was just created. Creating it, and
/// refusing to create a second one for the same signer, is the business of
/// whoever stores the records.
pub fn get_demo_assets(ctx: &mut GetDemoAssets) -> (res: Result<(), CustomError>)
    ensures
        match old(ctx)@.get_demo_assets() {
            Ok(next) => res is Ok && final(ctx)@ == next,
            Err(e) => res == Err::<(), CustomError>(e) && final(ctx)@ == old(ctx)@,
        },
        final(ctx)@.valid(),
{
    proof {
        use_type_invariant(&ctx.pawn_shop_user);
    }
    if ctx.pawn_shop_user.demo_nfts().checked_add(DEMO_NFT_GRANT).is_none()
        || ctx.pawn_shop_user.demo_tokens().checked_add(DEMO_TOKEN_GRANT).is_none() {
        return Err(CustomError::Overflow);
    }
    ctx.pawn_shop_user.set_owner(ctx.signer);
    ctx.pawn_shop_user.credit(Asset::DemoNft, DEMO_NFT_GRANT)?;
    ctx.pawn_shop_user.credit(Asset::DemoToken, DEMO_TOKEN_GRANT)?;
    Ok(())
}

/// Places an order to borrow `borrow_amount` demo tokens against one demo
/// NFT, to be repaid as `debt_amount` within `duration` seconds of a lender
/// matching it.
pub fn place_order(
    ctx: &mut PlaceOrder,
    duration: u64,
    borrow_amount: u16,
    debt_amount: u16,
) -> (res: Result<(), CustomError>)
    ensures
        match old(ctx)@.place_order(duration, borrow_amount, debt_amount) {
            Ok(next) => res is Ok && final(ctx)@ == next,
            Err(e) => res == Err::<(), CustomError>(e) && final(ctx)@ == old(ctx)@,
        },
        final(ctx)@.valid(),
{
    proof {
        use_type_invariant(&ctx.borrower);
    }
    ctx.borrower.assert_owner(&ctx.signer)?;
    if ctx.borrower.demo_nfts() == 0 {
        return Err(CustomError::NoCollateral);
    }
    if ctx.borrower.orders().len() >= MAX_ORDERS {
        return Err(CustomError::CapacityExceeded);
    }
    ctx.borrower.debit(Asset::DemoNft, 1)?;
    ctx.borrower.append_order(Order::Occupied { borrow_amount, debt_amount, duration })?;
    Ok(())
}

/// Cancels the order slot at `order_index` and returns one demo NFT.
///
/// The slot is not asked whether it holds an order: cancelling an empty
/// slot returns a demo NFT all the same.
pub fn cancel_order(ctx: &mut CancelOrder, order_index: u32) -> (res: Result<(), CustomError>)
    ensures
        match old(ctx)@.cancel_order(order_index) {
            Ok(next) => res is Ok && final(ctx)@ == next,
            Err(e) => res == Err::<(), CustomError>(e) && final(ctx)@ == old(ctx)@,
        },
        final(ctx)@.valid(),
{
    proof {
        use_type_invariant(&ctx.borrower);
    }
    ctx.borrower.assert_owner(&ctx.signer)?;
    if ctx.borrower.order_at(order_index).is_none() {
        return Err(CustomError::NoOrderFound);
    }
    if ctx.borrower.demo_nfts().checked_add(1).is_none() {
        return Err(CustomError::Overflow);
    }
    ctx.borrower.clear_order(order_index)?;
    ctx.borrower.credit(Asset::DemoNft, 1)?;
    Ok(())
}

/// Checks what `execute_order` depends on before the time is asked, and
/// reads the terms of the order.
fn execute_order_terms(
    ctx: &ExecuteOrder,
    order_index: u32,
) -> (res: Result<(u16, u16, u64), CustomError>)
    ensures
        match ctx@.execute_order_terms(order_index) {
            Ok(order) => res == Ok::<(u16, u16, u64), CustomError>(
                (order->borrow_amount, order->debt_amount, order->duration),
            ),
            Err(e) => res == Err::<(u16, u16, u64), CustomError>(e),
        },
{
    ctx.lender.assert_owner(&ctx.signer)?;
    match ctx.borrower.order_at(order_index) {
        Some(Order::Occupied { borrow_amount, debt_amount, duration }) => {
            if ctx.lender.demo_tokens() < borrow_amount {
                Err(CustomError::InsufficientFunds)
            } else if ctx.borrower.demo_tokens().checked_add(borrow_amount).is_none() {
                Err(CustomError::Overflow)
            } else {
                Ok((borrow_amount, debt_amount, duration))
            }
        },
        _ => Err(CustomError::NoOrderFound),
    }
}

/// Carries out the part of `execute_order` that follows the reading of the
/// time, for an order whose terms were checked and read.
fn grant_loan(
    ctx: &mut ExecuteOrder,
    order_index: u32,
    borrow_amount: u16,
    debt_amount: u16,
    duration: u64,
    now: i64,
) -> (res: Result<(), CustomError>)
    requires
        old(ctx)@.execute_order_terms(order_index) matches Ok(order)
            && order == (Order::Occupied { borrow_amount, debt_amount, duration }),
    ensures
        match old(ctx)@.execute_order(order_index, now) {
            Ok(next) => res is Ok && final(ctx)@ == next,
            Err(e) => res == Err::<(), CustomError>(e) && final(ctx)@ == old(ctx)@,
        },
{
    let deadline = match now.checked_add_unsigned(duration) {
        Some(deadline) => deadline,
        None => return Err(CustomError::Overflow),
    };
    if ctx.borrower.debts().len() >= MAX_DEBTS {
        return Err(CustomError::CapacityExceeded);
    }
    let debt = Debt::Occupied { amount: debt_amount, lender_id: ctx.lender.owner(), deadline };
    ctx.lender.debit(Asset::DemoToken, borrow_amount)?;
    ctx.borrower.credit(Asset::DemoToken, borrow_amount)?;
    ctx.borrower.append_debt(debt)?;
    ctx.borrower.clear_order(order_index)?;
    Ok(())
}

/// Matches the order at `order_index` of the borrower with the lender's
/// tokens, taking `now` for the current time.
///
/// Either every effect of the instruction takes place or none does.
pub fn execute_order_at(
    ctx: &mut ExecuteOrder,
    order_index: u32,
    now: i64,
) -> (res: Result<(), CustomError>)
    ensures
        match old(ctx)@.execute_order(order_index, now) {
            Ok(next) => res is Ok && final(ctx)@ == next,
            Err(e) => res == Err::<(), CustomError>(e) && final(ctx)@ == old(ctx)@,
        },
        final(ctx)@.valid(),
{
    proof {
        use_type_invariant(&ctx.lender);
        use_type_invariant(&ctx.borrower);
    }
    let (borrow_amount, debt_amount, duration) = execute_order_terms(ctx, order_index)?;
    grant_loan(ctx, order_index, borrow_amount, debt_amount, duration, now)
}

/// Matches the order at `order_index` of the borrower with the lender's
/// tokens, at the time that the runtime's clock gives.
///
/// The clock is asked once, and only when nothing that can be known
/// without it stands in the way. Whatever it answers, the instruction is
/// carried out in full for that time or not at all.
pub fn execute_order(ctx: &mut ExecuteOrder, order_index: u32) -> (res: Result<(), CustomError>)
    ensures
        match old(ctx)@.execute_order_terms(order_index) {
            Err(e) => res == Err::<(), CustomError>(e) && final(ctx)@ == old(ctx)@,
            Ok(_) => {
                ||| res == Err::<(), CustomError>(CustomError::ClockUnavailable)
                    && final(ctx)@ == old(ctx)@
                ||| (exists|now: i64|
                    match #[trigger] old(ctx)@.execute_order(order_index, now) {
                        Ok(next) => res is Ok && final(ctx)@ == next,
                        Err(e) => res == Err::<(), CustomError>(e) && final(ctx)@ == old(ctx)@,
                    })
            },
        },
        final(ctx)@.valid(),
{
    proof {
        use_type_invariant(&ctx.lender);
        use_type_invariant(&ctx.borrower);
    }
    let (borrow_amount, debt_amount, duration) = execute_order_terms(ctx, order_index)?;
    match unix_timestamp() {
        Ok(now) => grant_loan(ctx, order_index, borrow_amount, debt_amount, duration, now),
        Err(_) => Err(CustomError::ClockUnavailable),
    }
}

} // verus!
