//! A collateralized-lending ledger for a demo pawn shop.
//!
//! Every user holds a balance of demo tokens and a count of demo NFTs that
//! serve as collateral. A borrower pledges one NFT to open an order, a lender
//! matches the order and thereby creates a debt, and the debt ends either
//! with the borrower paying it back before its deadline or with the lender
//! seizing the collateral afterwards.
//!
//! The state of an account is modelled by [`state::UserState`]. Each
//! instruction is defined as a function on that model, and the executable
//! instruction is proved to compute exactly that function: it either carries
//! out every effect or rejects the request and changes nothing.

pub mod accounts;
pub mod clock;
pub mod debts;
pub mod errors;
pub mod identity;
pub mod orders;
pub mod state;
pub mod theorems;

pub use accounts::{
    CancelOrder, ExecuteOrder, GetDemoAssets, LoanAccounts, PayDebt, PlaceOrder, Seize,
    UserAccounts,
};
pub use debts::{pay_debt, pay_debt_at, seize, seize_at};
pub use errors::CustomError;
pub use orders::{
    cancel_order, execute_order, execute_order_at, get_demo_assets, place_order, DEMO_NFT_GRANT,
    DEMO_TOKEN_GRANT,
};
pub use state::{Asset, Debt, Order, PawnShopUser, UserState, MAX_DEBTS, MAX_ORDERS};
