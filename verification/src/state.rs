//! The account record of a pawn shop user: two balances and two lists of
//! position slots, with the balance ledger, the position store and the
//! ownership guard that the instructions are built from.

use crate::errors::CustomError;
use crate::identity::same_key;
use anchor_lang::prelude::Pubkey;
use vstd::prelude::*;

verus! {

/// The number of order slots an account can hold over its lifetime.
pub const MAX_ORDERS: usize = 32;

/// The number of debt slots an account can hold over its lifetime.
pub const MAX_DEBTS: usize = 32;

/// A slot in an account's list of orders.
///
/// An occupied slot is an open request to borrow `borrow_amount` demo tokens
/// and to repay `debt_amount` within `duration` seconds of being matched.
#[derive(Clone, Copy, Debug, PartialEq, Eq)]
pub enum Order {
    Occupied { borrow_amount: u16, debt_amount: u16, duration: u64 },
    Empty,
}

/// A slot in an account's list of debts.
///
/// An occupied slot is an obligation of `amount` demo tokens, owed to the
/// account of `lender_id` and due before the Unix time `deadline`.
#[derive(Clone, Copy, Debug, PartialEq, Eq)]
pub enum Debt {
    Occupied { amount: u16, lender_id: Pubkey, deadline: i64 },
    Empty,
}

/// One of the two balances of an account.
#[derive(Clone, Copy, Debug, PartialEq, Eq)]
pub enum Asset {
    /// The fungible demo token.
    DemoToken,
    /// The demo NFT, counted in units of collateral.
    DemoNft,
}

/// The mathematical model of an account.
///
/// Balances are unbounded integers here, so that a statement about them
/// cannot be true by wrapping around; [`UserState::valid`] says which models
/// an account can actually take.
pub struct UserState {
    pub owner: Pubkey,
    pub demo_tokens: int,
    pub demo_nfts: int,
    pub orders: Seq<Order>,
    pub debts: Seq<Debt>,
}

impl UserState {
    /// Neither balance is negative or beyond sixteen bits, and neither list
    /// is longer than its capacity.
    pub open spec fn valid(self) -> bool {
        &&& 0 <= self.demo_tokens <= u16::MAX
        &&& 0 <= self.demo_nfts <= u16::MAX
        &&& self.orders.len() <= MAX_ORDERS
        &&& self.debts.len() <= MAX_DEBTS
    }

    /// The account of `owner` before it has received anything.
    pub open spec fn fresh(owner: Pubkey) -> UserState {
        UserState { owner, demo_tokens: 0, demo_nfts: 0, orders: Seq::empty(), debts: Seq::empty() }
    }

    /// The balance of the given asset.
    pub open spec fn balance(self, asset: Asset) -> int {
        match asset {
            Asset::DemoToken => self.demo_tokens,
            Asset::DemoNft => self.demo_nfts,
        }
    }

    /// The same account with the balance of the given asset set to `amount`.
    pub open spec fn with_balance(self, asset: Asset, amount: int) -> UserState {
        match asset {
            Asset::DemoToken => UserState { demo_tokens: amount, ..self },
            Asset::DemoNft => UserState { demo_nfts: amount, ..self },
        }
    }

    /// Adds `amount` to a balance, unless the sum no longer fits.
    pub open spec fn credit(self, asset: Asset, amount: int) -> Result<UserState, CustomError> {
        if self.balance(asset) + amount > u16::MAX {
            Err(CustomError::Overflow)
        } else {
            Ok(self.with_balance(asset, self.balance(asset) + amount))
        }
    }

    /// Takes `amount` from a balance, unless the balance holds less.
    pub open spec fn debit(self, asset: Asset, amount: int) -> Result<UserState, CustomError> {
        if amount > self.balance(asset) {
            Err(CustomError::Underflow)
        } else {
            Ok(self.with_balance(asset, self.balance(asset) - amount))
        }
    }

    /// Whether `index` names a slot of the order list that holds an order.
    pub open spec fn has_order(self, index: u32) -> bool {
        index < self.orders.len() && self.orders[index as int] is Occupied
    }

    /// Whether `index` names a slot of the debt list that holds a debt.
    pub open spec fn has_debt(self, index: u32) -> bool {
        index < self.debts.len() && self.debts[index as int] is Occupied
    }

    /// Appends an order slot, unless the list is at capacity.
    pub open spec fn append_order(self, order: Order) -> Result<UserState, CustomError> {
        if self.orders.len() >= MAX_ORDERS {
            Err(CustomError::CapacityExceeded)
        } else {
            Ok(UserState { orders: self.orders.push(order), ..self })
        }
    }

    /// Appends a debt slot, unless the list is at capacity.
    pub open spec fn append_debt(self, debt: Debt) -> Result<UserState, CustomError> {
        if self.debts.len() >= MAX_DEBTS {
            Err(CustomError::CapacityExceeded)
        } else {
            Ok(UserState { debts: self.debts.push(debt), ..self })
        }
    }

    /// Empties the order slot at `index`, whatever it held; the slot stays
    /// in the list.
    pub open spec fn clear_order(self, index: u32) -> Result<UserState, CustomError> {
        if index >= self.orders.len() {
            Err(CustomError::NoOrderFound)
        } else {
            Ok(UserState { orders: self.orders.update(index as int, Order::Empty), ..self })
        }
    }

    /// Empties the debt slot at `index`, whatever it held; the slot stays in
    /// the list.
    pub open spec fn clear_debt(self, index: u32) -> Result<UserState, CustomError> {
        if index >= self.debts.len() {
            Err(CustomError::NoDebtFound)
        } else {
            Ok(UserState { debts: self.debts.update(index as int, Debt::Empty), ..self })
        }
    }
}

/// The account record of one user.
///
/// Slots are only ever appended or emptied in place, so the index of a slot
/// names it for as long as the account lives, and an account holds at most
/// [`MAX_ORDERS`] order slots and [`MAX_DEBTS`] debt slots over its lifetime.
#[derive(Debug, PartialEq, Eq)]
pub struct PawnShopUser {
    /// Owner of this account.
    owner: Pubkey,
    /// Amount of demo tokens this user owns.
    demo_tokens: u16,
    /// Amount of demo NFTs this user owns.
    demo_nfts: u16,
    /// Orders this user gave.
    orders: Vec<Order>,
    /// Debts this user has.
    debts: Vec<Debt>,
}

impl View for PawnShopUser {
    type V = UserState;

    closed spec fn view(&self) -> UserState {
        UserState {
            owner: self.owner,
            demo_tokens: self.demo_tokens as int,
            demo_nfts: self.demo_nfts as int,
            orders: self.orders@,
            debts: self.debts@,
        }
    }
}

impl Clone for PawnShopUser {
    /// A second record with the same owner, balances and slots.
    fn clone(&self) -> (copy: PawnShopUser)
        ensures
            copy@ == self@,
    {
        proof {
            use_type_invariant(self);
        }
        PawnShopUser {
            owner: self.owner,
            demo_tokens: self.demo_tokens,
            demo_nfts: self.demo_nfts,
            orders: self.orders.clone(),
            debts: self.debts.clone(),
        }
    }
}

impl PawnShopUser {
    /// What holds of every account there is: its model is valid. Nothing
    /// can build or change an account so that it holds more slots than its
    /// capacity.
    #[verifier::type_invariant]
    pub open spec fn well_formed(self) -> bool {
        self@.valid()
    }

    /// An account of `owner` with empty balances and no positions.
    pub fn new(owner: Pubkey) -> (user: PawnShopUser)
        ensures
            user@ == UserState::fresh(owner),
            user@.valid(),
    {
        PawnShopUser { owner, demo_tokens: 0, demo_nfts: 0, orders: Vec::new(), debts: Vec::new() }
    }

    /// Rebuilds an account from its stored parts. Lists beyond their
    /// capacity are refused.
    pub fn from_parts(
        owner: Pubkey,
        demo_tokens: u16,
        demo_nfts: u16,
        orders: Vec<Order>,
        debts: Vec<Debt>,
    ) -> (user: Option<PawnShopUser>)
        ensures
            match user {
                Some(u) => {
                    &&& u@ == (UserState {
                        owner,
                        demo_tokens: demo_tokens as int,
                        demo_nfts: demo_nfts as int,
                        orders: orders@,
                        debts: debts@,
                    })
                    &&& u@.valid()
                },
                None => orders@.len() > MAX_ORDERS || debts@.len() > MAX_DEBTS,
            },
    {
        if orders.len() > MAX_ORDERS || debts.len() > MAX_DEBTS {
            None
        } else {
            Some(PawnShopUser { owner, demo_tokens, demo_nfts, orders, debts })
        }
    }

    /// The identity that controls the account.
    pub fn owner(&self) -> (owner: Pubkey)
        ensures
            owner == self@.owner,
    {
        self.owner
    }

    /// The balance of demo tokens.
    pub fn demo_tokens(&self) -> (amount: u16)
        ensures
            amount == self@.demo_tokens,
    {
        self.demo_tokens
    }

    /// The balance of demo NFTs, each one a unit of collateral.
    pub fn demo_nfts(&self) -> (amount: u16)
        ensures
            amount == self@.demo_nfts,
    {
        self.demo_nfts
    }

    /// The order slots, in the order in which they were appended.
    pub fn orders(&self) -> (orders: &Vec<Order>)
        ensures
            orders@ == self@.orders,
            orders@.len() <= MAX_ORDERS,
    {
        proof {
            use_type_invariant(self);
        }
        &self.orders
    }

    /// The debt slots, in the order in which they were appended.
    pub fn debts(&self) -> (debts: &Vec<Debt>)
        ensures
            debts@ == self@.debts,
            debts@.len() <= MAX_DEBTS,
    {
        proof {
            use_type_invariant(self);
        }
        &self.debts
    }

    /// Hands the account to `owner`. Only the creation of an account does
    /// this.
    pub(crate) fn set_owner(&mut self, owner: Pubkey)
        ensures
            final(self)@ == (UserState { owner, ..old(self)@ }),
            final(self)@.valid(),
    {
        proof {
            use_type_invariant(&*self);
        }
        self.owner = owner;
    }

    /// The ownership guard: passes exactly when `caller` owns the account.
    pub fn assert_owner(&self, caller: &Pubkey) -> (res: Result<(), CustomError>)
        ensures
            res == if self@.owner == *caller {
                Ok::<(), CustomError>(())
            } else {
                Err(CustomError::UnauthorizedAccess)
            },
    {
        if same_key(&self.owner, caller) {
            Ok(())
        } else {
            Err(CustomError::UnauthorizedAccess)
        }
    }

    /// The balance of the given asset.
    pub fn balance(&self, asset: Asset) -> (amount: u16)
        ensures
            amount == self@.balance(asset),
    {
        match asset {
            Asset::DemoToken => self.demo_tokens,
            Asset::DemoNft => self.demo_nfts,
        }
    }

    /// Adds `amount` to a balance. A sum beyond sixteen bits is rejected
    /// with `Overflow` and nothing changes.
    pub fn credit(&mut self, asset: Asset, amount: u16) -> (res: Result<(), CustomError>)
        ensures
            match old(self)@.credit(asset, amount as int) {
                Ok(next) => res is Ok && final(self)@ == next,
                Err(e) => res == Err::<(), CustomError>(e) && final(self)@ == old(self)@,
            },
            final(self)@.valid(),
    {
        proof {
            use_type_invariant(&*self);
        }
        match asset {
            Asset::DemoToken => match self.demo_tokens.checked_add(amount) {
                Some(sum) => {
                    self.demo_tokens = sum;
                    Ok(())
                },
                None => Err(CustomError::Overflow),
            },
            Asset::DemoNft => match self.demo_nfts.checked_add(amount) {
                Some(sum) => {
                    self.demo_nfts = sum;
                    Ok(())
                },
                None => Err(CustomError::Overflow),
            },
        }
    }

    /// Takes `amount` from a balance. An amount beyond the balance is
    /// rejected with `Underflow` and nothing changes.
    pub fn debit(&mut self, asset: Asset, amount: u16) -> (res: Result<(), CustomError>)
        ensures
            match old(self)@.debit(asset, amount as int) {
                Ok(next) => res is Ok && final(self)@ == next,
                Err(e) => res == Err::<(), CustomError>(e) && final(self)@ == old(self)@,
            },
            final(self)@.valid(),
    {
        proof {
            use_type_invariant(&*self);
        }
        match asset {
            Asset::DemoToken => match self.demo_tokens.checked_sub(amount) {
                Some(rest) => {
                    self.demo_tokens = rest;
                    Ok(())
                },
                None => Err(CustomError::Underflow),
            },
            Asset::DemoNft => match self.demo_nfts.checked_sub(amount) {
                Some(rest) => {
                    self.demo_nfts = rest;
                    Ok(())
                },
                None => Err(CustomError::Underflow),
            },
        }
    }

    /// The order slot at `index`, if the list reaches that far.
    pub fn order_at(&self, index: u32) -> (slot: Option<Order>)
        ensures
            slot == if index < self@.orders.len() {
                Some(self@.orders[index as int])
            } else {
                None
            },
    {
        let i: usize = index as usize;
        if i < self.orders.len() {
            Some(self.orders[i])
        } else {
            None
        }
    }

    /// The debt slot at `index`, if the list reaches that far.
    pub fn debt_at(&self, index: u32) -> (slot: Option<Debt>)
        ensures
            slot == if index < self@.debts.len() {
                Some(self@.debts[index as int])
            } else {
                None
            },
    {
        let i: usize = index as usize;
        if i < self.debts.len() {
            Some(self.debts[i])
        } else {
            None
        }
    }

    /// Appends an order slot. A list at capacity rejects it with
    /// `CapacityExceeded` and nothing changes.
    pub fn append_order(&mut self, order: Order) -> (res: Result<(), CustomError>)
        ensures
            match old(self)@.append_order(order) {
                Ok(next) => res is Ok && final(self)@ == next,
                Err(e) => res == Err::<(), CustomError>(e) && final(self)@ == old(self)@,
            },
            final(self)@.valid(),
    {
        proof {
            use_type_invariant(&*self);
        }
        if self.orders.len() >= MAX_ORDERS {
            return Err(CustomError::CapacityExceeded);
        }
        // The list grows outside of the record and is put back whole, so
        // that the record is well formed at every moment in between.
        let mut orders = Vec::new();
        core::mem::swap(&mut self.orders, &mut orders);
        orders.push(order);
        self.orders = orders;
        Ok(())
    }

    /// Appends a debt slot. A list at capacity rejects it with
    /// `CapacityExceeded` and nothing changes.
    pub fn append_debt(&mut self, debt: Debt) -> (res: Result<(), CustomError>)
        ensures
            match old(self)@.append_debt(debt) {
                Ok(next) => res is Ok && final(self)@ == next,
                Err(e) => res == Err::<(), CustomError>(e) && final(self)@ == old(self)@,
            },
            final(self)@.valid(),
    {
        proof {
            use_type_invariant(&*self);
        }
        if self.debts.len() >= MAX_DEBTS {
            return Err(CustomError::CapacityExceeded);
        }
        // As for the orders: the list grows outside of the record.
        let mut debts = Vec::new();
        core::mem::swap(&mut self.debts, &mut debts);
        debts.push(debt);
        self.debts = debts;
        Ok(())
    }

    /// Empties the order slot at `index`. An index beyond the list is
    /// rejected with `NoOrderFound` and nothing changes.
    pub fn clear_order(&mut self, index: u32) -> (res: Result<(), CustomError>)
        ensures
            match old(self)@.clear_order(index) {
                Ok(next) => res is Ok && final(self)@ == next,
                Err(e) => res == Err::<(), CustomError>(e) && final(self)@ == old(self)@,
            },
            final(self)@.valid(),
    {
        proof {
            use_type_invariant(&*self);
        }
        let i: usize = index as usize;
        if i >= self.orders.len() {
            return Err(CustomError::NoOrderFound);
        }
        self.orders[i] = Order::Empty;
        Ok(())
    }

    /// Empties the debt slot at `index`. An index beyond the list is
    /// rejected with `NoDebtFound` and nothing changes.
    pub fn clear_debt(&mut self, index: u32) -> (res: Result<(), CustomError>)
        ensures
            match old(self)@.clear_debt(index) {
                Ok(next) => res is Ok && final(self)@ == next,
                Err(e) => res == Err::<(), CustomError>(e) && final(self)@ == old(self)@,
            },
            final(self)@.valid(),
    {
        proof {
            use_type_invariant(&*self);
        }
        let i: usize = index as usize;
        if i >= self.debts.len() {
            return Err(CustomError::NoDebtFound);
        }
        self.debts[i] = Debt::Empty;
        Ok(())
    }
}

} // verus!
