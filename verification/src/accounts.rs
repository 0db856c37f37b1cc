//! The accounts that an instruction is given: the records it may change and
//! the identity of the party that signed for it.

use crate::state::{PawnShopUser, UserState};
use anchor_lang::prelude::Pubkey;
use vstd::prelude::*;

verus! {

/// The model of what an instruction on one account is given: the account
/// and the identity of the signer.
pub struct UserAccounts {
    pub user: UserState,
    pub signer: Pubkey,
}

/// The model of what an instruction between two parties is given: the
/// accounts of the lender and the borrower, and the identity of the signer.
pub struct LoanAccounts {
    pub lender: UserState,
    pub borrower: UserState,
    pub signer: Pubkey,
}

impl UserAccounts {
    /// The account is valid.
    pub open spec fn valid(self) -> bool {
        self.user.valid()
    }
}

impl LoanAccounts {
    /// Both accounts are valid.
    pub open spec fn valid(self) -> bool {
        self.lender.valid() && self.borrower.valid()
    }

    /// The demo tokens that the two accounts hold together.
    pub open spec fn total_tokens(self) -> int {
        self.lender.demo_tokens + self.borrower.demo_tokens
    }

    /// The demo NFTs that the two accounts hold together.
    pub open spec fn total_nfts(self) -> int {
        self.lender.demo_nfts + self.borrower.demo_nfts
    }
}

/// Accounts of the instruction that sets a new user up.
pub struct GetDemoAssets {
    /// The record created for the signer.
    pub pawn_shop_user: PawnShopUser,
    pub signer: Pubkey,
}

/// Accounts of the instruction that opens an order.
pub struct PlaceOrder {
    pub borrower: PawnShopUser,
    pub signer: Pubkey,
}

/// Accounts of the instruction that withdraws an order.
pub struct CancelOrder {
    pub borrower: PawnShopUser,
    pub signer: Pubkey,
}

/// Accounts of the instruction by which a lender matches an order.
pub struct ExecuteOrder {
    pub lender: PawnShopUser,
    pub borrower: PawnShopUser,
    pub signer: Pubkey,
}

/// Accounts of the instruction by which a borrower pays a debt back.
pub struct PayDebt {
    pub lender: PawnShopUser,
    pub borrower: PawnShopUser,
    pub signer: Pubkey,
}

/// Accounts of the instruction by which a lender takes the collateral of an
/// overdue debt.
pub struct Seize {
    pub lender: PawnShopUser,
    pub borrower: PawnShopUser,
    pub signer: Pubkey,
}

impl View for GetDemoAssets {
    type V = UserAccounts;

    open spec fn view(&self) -> UserAccounts {
        UserAccounts { user: self.pawn_shop_user@, signer: self.signer }
    }
}

impl View for PlaceOrder {
    type V = UserAccounts;

    open spec fn view(&self) -> UserAccounts {
        UserAccounts { user: self.borrower@, signer: self.signer }
    }
}

impl View for CancelOrder {
    type V = UserAccounts;

    open spec fn view(&self) -> UserAccounts {
        UserAccounts { user: self.borrower@, signer: self.signer }
    }
}

impl View for ExecuteOrder {
    type V = LoanAccounts;

    open spec fn view(&self) -> LoanAccounts {
        LoanAccounts { lender: self.lender@, borrower: self.borrower@, signer: self.signer }
    }
}

impl View for PayDebt {
    type V = LoanAccounts;

    open spec fn view(&self) -> LoanAccounts {
        LoanAccounts { lender: self.lender@, borrower: self.borrower@, signer: self.signer }
    }
}

impl View for Seize {
    type V = LoanAccounts;

    open spec fn view(&self) -> LoanAccounts {
        LoanAccounts { lender: self.lender@, borrower: self.borrower@, signer: self.signer }
    }
}

} // verus!
