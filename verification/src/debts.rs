//! The life of a debt: the borrower pays it back before its deadline, or the
//! lender seizes the collateral once the deadline has been reached.

use crate::accounts::{LoanAccounts, PayDebt, Seize};
use crate::clock::unix_timestamp;
use crate::errors::CustomError;
use crate::identity::same_key;
use crate::state::{Asset, Debt, UserState};
use anchor_lang::prelude::Pubkey;
use vstd::prelude::*;

verus! {

impl LoanAccounts {
    /// What paying the debt at `debt_index` depends on before the time is
    /// asked: the signer owns the borrower account, the slot holds a debt
    /// and the borrower can afford it. Yields the debt to be paid.
    pub open spec fn pay_debt_terms(self, debt_index: u32) -> Result<Debt, CustomError> {
        let debt = self.borrower.debts[debt_index as int];
        if self.borrower.owner != self.signer {
            Err(CustomError::UnauthorizedAccess)
        } else if !self.borrower.has_debt(debt_index) {
            Err(CustomError::NoDebtFound)
        } else if self.borrower.demo_tokens < debt->amount {
            Err(CustomError::InsufficientFunds)
        } else {
            Ok(debt)
        }
    }

    /// Paying the debt at `debt_index` at the time `now`, which must lie
    /// before the deadline: the amount moves from the borrower to the
    /// lender the debt is owed to, the debt slot is emptied and the
    /// borrower gets the collateral back.
    pub open spec fn pay_debt(self, debt_index: u32, now: i64) -> Result<LoanAccounts, CustomError> {
        match self.pay_debt_terms(debt_index) {
            Err(e) => Err(e),
            Ok(debt) => {
                if now >= debt->deadline {
                    Err(CustomError::DeadlineExpired)
                } else if self.lender.owner != debt->lender_id {
                    Err(CustomError::LenderMismatch)
                } else if self.lender.demo_tokens + debt->amount > u16::MAX
                    || self.borrower.demo_nfts + 1 > u16::MAX {
                    Err(CustomError::Overflow)
                } else {
                    Ok(
                        LoanAccounts {
                            lender: UserState {
                                demo_tokens: self.lender.demo_tokens + debt->amount,
                                ..self.lender
                            },
                            borrower: UserState {
                                demo_tokens: self.borrower.demo_tokens - debt->amount,
                                demo_nfts: self.borrower.demo_nfts + 1,
                                debts: self.borrower.debts.update(debt_index as int, Debt::Empty),
                                ..self.borrower
                            },
                            signer: self.signer,
                        },
                    )
                }
            },
        }
    }

    /// What seizing the debt at `debt_index` depends on before the time is
    /// asked: the signer owns the lender account, the slot holds a debt and
    /// the debt is owed to that lender. Yields the debt to be seized.
    pub open spec fn seize_terms(self, debt_index: u32) -> Result<Debt, CustomError> {
        let debt = self.borrower.debts[debt_index as int];
        if self.lender.owner != self.signer {
            Err(CustomError::UnauthorizedAccess)
        } else if !self.borrower.has_debt(debt_index) {
            Err(CustomError::NoDebtFound)
        } else if debt->lender_id != self.lender.owner {
            Err(CustomError::LenderMismatch)
        } else {
            Ok(debt)
        }
    }

    /// Seizing the debt at `debt_index` at the time `now`, which must have
    /// reached the deadline: the debt slot is emptied and the lender gains
    /// one demo NFT. No demo token moves.
    pub open spec fn seize(self, debt_index: u32, now: i64) -> Result<LoanAccounts, CustomError> {
        match self.seize_terms(debt_index) {
            Err(e) => Err(e),
            Ok(debt) => {
                if now < debt->deadline {
                    Err(CustomError::DeadlineNotYetExpired)
                } else if self.lender.demo_nfts + 1 > u16::MAX {
                    Err(CustomError::Overflow)
                } else {
                    Ok(
                        LoanAccounts {
                            lender: UserState {
                                demo_nfts: self.lender.demo_nfts + 1,
                                ..self.lender
                            },
                            borrower: UserState {
                                debts: self.borrower.debts.update(debt_index as int, Debt::Empty),
                                ..self.borrower
                            },
                            signer: self.signer,
                        },
                    )
                }
            },
        }
    }
}

/// Checks what `pay_debt` depends on before the time is asked, and reads
/// the debt: its amount, its deadline and whom it is owed to.
fn pay_debt_terms(ctx: &PayDebt, debt_index: u32) -> (res: Result<(u16, i64, Pubkey), CustomError>)
    ensures
        match ctx@.pay_debt_terms(debt_index) {
            Ok(debt) => res == Ok::<(u16, i64, Pubkey), CustomError>(
                (debt->amount, debt->deadline, debt->lender_id),
            ),
            Err(e) => res == Err::<(u16, i64, Pubkey), CustomError>(e),
        },
{
    ctx.borrower.assert_owner(&ctx.signer)?;
    match ctx.borrower.debt_at(debt_index) {
        Some(Debt::Occupied { amount, lender_id, deadline }) => {
            if ctx.borrower.demo_tokens() < amount {
                Err(CustomError::InsufficientFunds)
            } else {
                Ok((amount, deadline, lender_id))
            }
        },
        _ => Err(CustomError::NoDebtFound),
    }
}

/// Carries out the part of `pay_debt` that follows the reading of the time,
/// for a debt whose terms were checked and read.
fn settle_debt(
    ctx: &mut PayDebt,
    debt_index: u32,
    amount: u16,
    deadline: i64,
    lender_id: Pubkey,
    now: i64,
) -> (res: Result<(), CustomError>)
    requires
        old(ctx)@.pay_debt_terms(debt_index) matches Ok(debt)
            && debt == (Debt::Occupied { amount, lender_id, deadline }),
    ensures
        match old(ctx)@.pay_debt(debt_index, now) {
            Ok(next) => res is Ok && final(ctx)@ == next,
            Err(e) => res == Err::<(), CustomError>(e) && final(ctx)@ == old(ctx)@,
        },
{
    if now >= deadline {
        return Err(CustomError::DeadlineExpired);
    }
    if !same_key(&ctx.lender.owner(), &lender_id) {
        return Err(CustomError::LenderMismatch);
    }
    if ctx.lender.demo_tokens().checked_add(amount).is_none()
        || ctx.borrower.demo_nfts().checked_add(1).is_none() {
        return Err(CustomError::Overflow);
    }
    ctx.borrower.debit(Asset::DemoToken, amount)?;
    ctx.lender.credit(Asset::DemoToken, amount)?;
    ctx.borrower.clear_debt(debt_index)?;
    ctx.borrower.credit(Asset::DemoNft, 1)?;
    Ok(())
}

/// Pays the debt at `debt_index` of the borrower back to the lender, taking
/// `now` for the current time.
///
/// Either every effect of the instruction takes place or none does.
pub fn pay_debt_at(ctx: &mut PayDebt, debt_index: u32, now: i64) -> (res: Result<(), CustomError>)
    ensures
        match old(ctx)@.pay_debt(debt_index, now) {
            Ok(next) => res is Ok && final(ctx)@ == next,
            Err(e) => res == Err::<(), CustomError>(e) && final(ctx)@ == old(ctx)@,
        },
        final(ctx)@.valid(),
{
    proof {
        use_type_invariant(&ctx.lender);
        use_type_invariant(&ctx.borrower);
    }
    let (amount, deadline, lender_id) = pay_debt_terms(ctx, debt_index)?;
    settle_debt(ctx, debt_index, amount, deadline, lender_id, now)
}

/// Pays the debt at `debt_index` of the borrower back to the lender, at the
/// time that the runtime's clock gives.
///
/// The clock is asked once, and only when nothing that can be known
/// without it stands in the way. Whatever it answers, the instruction is
/// carried out in full for that time or not at all.
pub fn pay_debt(ctx: &mut PayDebt, debt_index: u32) -> (res: Result<(), CustomError>)
    ensures
        match old(ctx)@.pay_debt_terms(debt_index) {
            Err(e) => res == Err::<(), CustomError>(e) && final(ctx)@ == old(ctx)@,
            Ok(_) => {
                ||| res == Err::<(), CustomError>(CustomError::ClockUnavailable)
                    && final(ctx)@ == old(ctx)@
                ||| (exists|now: i64|
                    match #[trigger] old(ctx)@.pay_debt(debt_index, now) {
                        Ok(next) => res is Ok && final(ctx)@ == next,
                        Err(e) => res == Err::<(), CustomError>(e) && final(ctx)@ == old(ctx)@,
                    })
            },
        },
        final(ctx)@.valid(),
{
    proof {
        use_type_invariant(&ctx.lender);
        use_type_invariant(&ctx.borrower);
    }
    let (amount, deadline, lender_id) = pay_debt_terms(ctx, debt_index)?;
    match unix_timestamp() {
        Ok(now) => settle_debt(ctx, debt_index, amount, deadline, lender_id, now),
        Err(_) => Err(CustomError::ClockUnavailable),
    }
}

/// Checks what `seize` depends on before the time is asked, and reads the
/// deadline of the debt.
fn seize_terms(ctx: &Seize, debt_index: u32) -> (res: Result<i64, CustomError>)
    ensures
        match ctx@.seize_terms(debt_index) {
            Ok(debt) => res == Ok::<i64, CustomError>(debt->deadline),
            Err(e) => res == Err::<i64, CustomError>(e),
        },
{
    ctx.lender.assert_owner(&ctx.signer)?;
    match ctx.borrower.debt_at(debt_index) {
        Some(Debt::Occupied { amount: _, lender_id, deadline }) => {
            if !same_key(&lender_id, &ctx.lender.owner()) {
                Err(CustomError::LenderMismatch)
            } else {
                Ok(deadline)
            }
        },
        _ => Err(CustomError::NoDebtFound),
    }
}

/// Carries out the part of `seize` that follows the reading of the time, for
/// a debt whose terms were checked and read.
fn take_collateral(
    ctx: &mut Seize,
    debt_index: u32,
    deadline: i64,
    now: i64,
) -> (res: Result<(), CustomError>)
    requires
        old(ctx)@.seize_terms(debt_index) matches Ok(debt) && debt->deadline == deadline,
    ensures
        match old(ctx)@.seize(debt_index, now) {
            Ok(next) => res is Ok && final(ctx)@ == next,
            Err(e) => res == Err::<(), CustomError>(e) && final(ctx)@ == old(ctx)@,
        },
{
    if now < deadline {
        return Err(CustomError::DeadlineNotYetExpired);
    }
    if ctx.lender.demo_nfts().checked_add(1).is_none() {
        return Err(CustomError::Overflow);
    }
    ctx.borrower.clear_debt(debt_index)?;
    ctx.lender.credit(Asset::DemoNft, 1)?;
    Ok(())
}

/// Seizes the collateral of the debt at `debt_index` of the borrower for
/// the lender, taking `now` for the current time.
///
/// Either every effect of the instruction takes place or none does.
pub fn seize_at(ctx: &mut Seize, debt_index: u32, now: i64) -> (res: Result<(), CustomError>)
    ensures
        match old(ctx)@.seize(debt_index, now) {
            Ok(next) => res is Ok && final(ctx)@ == next,
            Err(e) => res == Err::<(), CustomError>(e) && final(ctx)@ == old(ctx)@,
        },
        final(ctx)@.valid(),
{
    proof {
        use_type_invariant(&ctx.lender);
        use_type_invariant(&ctx.borrower);
    }
    let deadline = seize_terms(ctx, debt_index)?;
    take_collateral(ctx, debt_index, deadline, now)
}

/// Seizes the collateral of the debt at `debt_index` of the borrower for
/// the lender, at the time that the runtime's clock gives.
///
/// The clock is asked once, and only when nothing that can be known
/// without it stands in the way. Whatever it answers, the instruction is
/// carried out in full for that time or not at all.
pub fn seize(ctx: &mut Seize, debt_index: u32) -> (res: Result<(), CustomError>)
    ensures
        match old(ctx)@.seize_terms(debt_index) {
            Err(e) => res == Err::<(), CustomError>(e) && final(ctx)@ == old(ctx)@,
            Ok(_) => {
                ||| res == Err::<(), CustomError>(CustomError::ClockUnavailable)
                    && final(ctx)@ == old(ctx)@
                ||| (exists|now: i64|
                    match #[trigger] old(ctx)@.seize(debt_index, now) {
                        Ok(next) => res is Ok && final(ctx)@ == next,
                        Err(e) => res == Err::<(), CustomError>(e) && final(ctx)@ == old(ctx)@,
                    })
            },
        },
        final(ctx)@.valid(),
{
    proof {
        use_type_invariant(&ctx.lender);
        use_type_invariant(&ctx.borrower);
    }
    let deadline = seize_terms(ctx, debt_index)?;
    match unix_timestamp() {
        Ok(now) => take_collateral(ctx, debt_index, deadline, now),
        Err(_) => Err(CustomError::ClockUnavailable),
    }
}

} // verus!
