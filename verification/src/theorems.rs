//! What holds of the instructions taken together. Each statement is about
//! the model of an instruction, which the executable instruction is proved
//! to follow, and each is proved.

use crate::accounts::{LoanAccounts, UserAccounts};
use crate::errors::CustomError;
use crate::state::{Order, UserState};
use vstd::prelude::*;

verus! {

/// An instruction on one account leaves a valid account valid: no balance
/// goes below zero or beyond sixteen bits, and no list outgrows its
/// capacity.
pub proof fn lemma_user_instructions_keep_valid(
    pre: UserAccounts,
    duration: u64,
    borrow_amount: u16,
    debt_amount: u16,
    order_index: u32,
)
    requires
        pre.valid(),
    ensures
        pre.get_demo_assets() matches Ok(post) ==> post.valid(),
        pre.place_order(duration, borrow_amount, debt_amount) matches Ok(post) ==> post.valid(),
        pre.cancel_order(order_index) matches Ok(post) ==> post.valid(),
{
}

/// An instruction between a lender and a borrower leaves valid accounts
/// valid, whatever the time: no balance goes below zero or beyond sixteen
/// bits, and no list outgrows its capacity.
pub proof fn lemma_loan_instructions_keep_valid(pre: LoanAccounts, index: u32, now: i64)
    requires
        pre.valid(),
    ensures
        pre.execute_order(index, now) matches Ok(post) ==> post.valid(),
        pre.pay_debt(index, now) matches Ok(post) ==> post.valid(),
        pre.seize(index, now) matches Ok(post) ==> post.valid(),
{
}

/// An instruction that would take a balance below zero is rejected instead:
/// an order cannot be placed without a demo NFT, a loan cannot be granted
/// from fewer demo tokens than it takes, and a debt cannot be paid from
/// fewer demo tokens than it is worth.
pub proof fn lemma_shortfall_is_rejected(
    user: UserAccounts,
    duration: u64,
    borrow_amount: u16,
    debt_amount: u16,
    loan: LoanAccounts,
    index: u32,
    now: i64,
)
    ensures
        user.user.owner == user.signer && user.user.demo_nfts - 1 < 0
            ==> user.place_order(duration, borrow_amount, debt_amount)
            == Err::<UserAccounts, CustomError>(CustomError::NoCollateral),
        loan.lender.owner == loan.signer && loan.borrower.has_order(index)
            && loan.lender.demo_tokens - loan.borrower.orders[index as int]->borrow_amount < 0
            ==> loan.execute_order(index, now)
            == Err::<LoanAccounts, CustomError>(CustomError::InsufficientFunds),
        loan.borrower.owner == loan.signer && loan.borrower.has_debt(index)
            && loan.borrower.demo_tokens - loan.borrower.debts[index as int]->amount < 0
            ==> loan.pay_debt(index, now)
            == Err::<LoanAccounts, CustomError>(CustomError::InsufficientFunds),
{
}

/// Matching an order and paying a debt move demo tokens between the two
/// accounts and neither make nor lose any; seizing moves none at all.
pub proof fn lemma_tokens_are_conserved(pre: LoanAccounts, index: u32, now: i64)
    ensures
        pre.execute_order(index, now) matches Ok(post)
            ==> post.total_tokens() == pre.total_tokens(),
        pre.pay_debt(index, now) matches Ok(post)
            ==> post.total_tokens() == pre.total_tokens(),
        pre.seize(index, now) matches Ok(post) ==> {
            &&& post.lender.demo_tokens == pre.lender.demo_tokens
            &&& post.borrower.demo_tokens == pre.borrower.demo_tokens
        },
{
}

/// The demo NFTs on the accounts change by the one unit of collateral that
/// an instruction pledges or releases, and by nothing else: seizing grants
/// the unit to the lender, paying returns it to the borrower, cancelling
/// returns it to the borrower, placing an order takes it, and matching an
/// order leaves the balances as they are.
pub proof fn lemma_collateral_moves_by_one_unit(
    loan: LoanAccounts,
    index: u32,
    now: i64,
    user: UserAccounts,
    duration: u64,
    borrow_amount: u16,
    debt_amount: u16,
)
    ensures
        loan.seize(index, now) matches Ok(post) ==> {
            &&& post.total_nfts() == loan.total_nfts() + 1
            &&& post.lender.demo_nfts == loan.lender.demo_nfts + 1
        },
        loan.pay_debt(index, now) matches Ok(post) ==> {
            &&& post.total_nfts() == loan.total_nfts() + 1
            &&& post.borrower.demo_nfts == loan.borrower.demo_nfts + 1
        },
        loan.execute_order(index, now) matches Ok(post) ==> {
            &&& post.lender.demo_nfts == loan.lender.demo_nfts
            &&& post.borrower.demo_nfts == loan.borrower.demo_nfts
        },
        user.cancel_order(index) matches Ok(post)
            ==> post.user.demo_nfts == user.user.demo_nfts + 1,
        user.place_order(duration, borrow_amount, debt_amount) matches Ok(post)
            ==> post.user.demo_nfts == user.user.demo_nfts - 1,
{
}

/// The deadline of a debt divides time in two, with no gap and no overlap.
/// Take a debt that its borrower can afford and the lender it is owed to.
/// Before the deadline the lender cannot seize and the deadline does not
/// keep the borrower from paying; from the deadline on, the instant of the
/// deadline included, the borrower cannot pay and the deadline does not
/// keep the lender from seizing. Where no balance would overflow, exactly
/// one of the two instructions succeeds.
pub proof fn lemma_deadline_divides_time(
    lender: UserState,
    borrower: UserState,
    debt_index: u32,
    now: i64,
)
    requires
        borrower.has_debt(debt_index),
        borrower.debts[debt_index as int]->lender_id == lender.owner,
        borrower.debts[debt_index as int]->amount <= borrower.demo_tokens,
    ensures
        ({
            let debt = borrower.debts[debt_index as int];
            let paying = LoanAccounts { lender, borrower, signer: borrower.owner };
            let seizing = LoanAccounts { lender, borrower, signer: lender.owner };
            let paid = paying.pay_debt(debt_index, now);
            let seized = seizing.seize(debt_index, now);
            let pay_fits = lender.demo_tokens + debt->amount <= u16::MAX
                && borrower.demo_nfts + 1 <= u16::MAX;
            let seize_fits = lender.demo_nfts + 1 <= u16::MAX;
            &&& now < debt->deadline ==> {
                &&& seized == Err::<LoanAccounts, CustomError>(CustomError::DeadlineNotYetExpired)
                &&& paid != Err::<LoanAccounts, CustomError>(CustomError::DeadlineExpired)
                &&& pay_fits ==> paid is Ok
            }
            &&& now >= debt->deadline ==> {
                &&& paid == Err::<LoanAccounts, CustomError>(CustomError::DeadlineExpired)
                &&& seized != Err::<LoanAccounts, CustomError>(CustomError::DeadlineNotYetExpired)
                &&& seize_fits ==> seized is Ok
            }
            &&& !(paid is Ok && seized is Ok)
        }),
{
}

/// An index beyond the end of the list is rejected by every instruction that
/// takes one. Where the signer owns the account it acts as, the rejection
/// names the missing order or the missing debt.
pub proof fn lemma_index_out_of_range_is_rejected(
    user: UserAccounts,
    loan: LoanAccounts,
    index: u32,
    now: i64,
)
    ensures
        index >= user.user.orders.len() ==> {
            &&& user.cancel_order(index) is Err
            &&& user.user.owner == user.signer ==> user.cancel_order(index)
                == Err::<UserAccounts, CustomError>(CustomError::NoOrderFound)
        },
        index >= loan.borrower.orders.len() ==> {
            &&& loan.execute_order(index, now) is Err
            &&& loan.lender.owner == loan.signer ==> loan.execute_order(index, now)
                == Err::<LoanAccounts, CustomError>(CustomError::NoOrderFound)
        },
        index >= loan.borrower.debts.len() ==> {
            &&& loan.pay_debt(index, now) is Err
            &&& loan.seize(index, now) is Err
            &&& loan.borrower.owner == loan.signer ==> loan.pay_debt(index, now)
                == Err::<LoanAccounts, CustomError>(CustomError::NoDebtFound)
            &&& loan.lender.owner == loan.signer ==> loan.seize(index, now)
                == Err::<LoanAccounts, CustomError>(CustomError::NoDebtFound)
        },
{
}

/// Cancelling does not ask whether the slot holds an order, so cancelling
/// the same slot twice returns two demo NFTs for the one that was pledged.
pub proof fn lemma_cancel_twice_grants_twice(pre: UserAccounts, order_index: u32)
    requires
        pre.user.owner == pre.signer,
        order_index < pre.user.orders.len(),
        pre.user.demo_nfts + 2 <= u16::MAX,
    ensures
        ({
            &&& pre.cancel_order(order_index) matches Ok(once)
            &&& once.user.demo_nfts == pre.user.demo_nfts + 1
            &&& once.cancel_order(order_index) matches Ok(twice)
            &&& twice.user.demo_nfts == pre.user.demo_nfts + 2
            &&& twice.user.orders == once.user.orders
            &&& twice.user.orders == pre.user.orders.update(order_index as int, Order::Empty)
        }),
{
}

/// What an instruction rejects before it asks for the time, it rejects at
/// every time, and for the same reason.
pub proof fn lemma_early_rejection_ignores_time(loan: LoanAccounts, index: u32, now: i64)
    ensures
        loan.execute_order_terms(index) matches Err(e) ==> loan.execute_order(index, now)
            == Err::<LoanAccounts, CustomError>(e),
        loan.pay_debt_terms(index) matches Err(e) ==> loan.pay_debt(index, now)
            == Err::<LoanAccounts, CustomError>(e),
        loan.seize_terms(index) matches Err(e) ==> loan.seize(index, now)
            == Err::<LoanAccounts, CustomError>(e),
{
}

/// Slots are appended and emptied, never removed or moved: an instruction
/// adds at most one slot at the end of a list, changes at most the slot it
/// was given the index of, and leaves every other slot as it was. The owner
/// of an account stays the same once the account is set up.
pub proof fn lemma_slots_stay_in_place(
    user: UserAccounts,
    duration: u64,
    borrow_amount: u16,
    debt_amount: u16,
    loan: LoanAccounts,
    index: u32,
    now: i64,
)
    ensures
        user.get_demo_assets() matches Ok(post) ==> post.user.orders == user.user.orders
            && post.user.debts == user.user.debts,
        user.place_order(duration, borrow_amount, debt_amount) matches Ok(post) ==> {
            &&& post.user.owner == user.user.owner
            &&& post.user.orders.len() == user.user.orders.len() + 1
            &&& post.user.orders.take(user.user.orders.len() as int) == user.user.orders
            &&& post.user.debts == user.user.debts
        },
        user.cancel_order(index) matches Ok(post) ==> {
            &&& post.user.owner == user.user.owner
            &&& post.user.orders.len() == user.user.orders.len()
            &&& forall|i: int|
                0 <= i < user.user.orders.len() && i != index ==> post.user.orders[i]
                    == user.user.orders[i]
            &&& post.user.debts == user.user.debts
        },
        loan.execute_order(index, now) matches Ok(post) ==> {
            &&& post.lender.owner == loan.lender.owner
            &&& post.borrower.owner == loan.borrower.owner
            &&& post.lender.orders == loan.lender.orders
            &&& post.lender.debts == loan.lender.debts
            &&& post.borrower.orders.len() == loan.borrower.orders.len()
            &&& forall|i: int|
                0 <= i < loan.borrower.orders.len() && i != index ==> post.borrower.orders[i]
                    == loan.borrower.orders[i]
            &&& post.borrower.debts.len() == loan.borrower.debts.len() + 1
            &&& post.borrower.debts.take(loan.borrower.debts.len() as int) == loan.borrower.debts
        },
        loan.pay_debt(index, now) matches Ok(post) ==> {
            &&& post.lender.owner == loan.lender.owner
            &&& post.borrower.owner == loan.borrower.owner
            &&& post.lender.orders == loan.lender.orders
            &&& post.lender.debts == loan.lender.debts
            &&& post.borrower.orders == loan.borrower.orders
            &&& post.borrower.debts.len() == loan.borrower.debts.len()
            &&& forall|i: int|
                0 <= i < loan.borrower.debts.len() && i != index ==> post.borrower.debts[i]
                    == loan.borrower.debts[i]
        },
        loan.seize(index, now) matches Ok(post) ==> {
            &&& post.lender.owner == loan.lender.owner
            &&& post.borrower.owner == loan.borrower.owner
            &&& post.lender.orders == loan.lender.orders
            &&& post.lender.debts == loan.lender.debts
            &&& post.borrower.orders == loan.borrower.orders
            &&& post.borrower.debts.len() == loan.borrower.debts.len()
            &&& forall|i: int|
                0 <= i < loan.borrower.debts.len() && i != index ==> post.borrower.debts[i]
                    == loan.borrower.debts[i]
        },
{
}

} // verus!
