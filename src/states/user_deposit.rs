use vstd::prelude::*;

use crate::constants::{MAX_ALLOWED_LIST_SIZE, TRANSFER_TIME};
use crate::pubkey::Pubkey;

verus! {

/// What a deposit holds: the native coin, or a token named by its mint.
#[derive(Clone, Copy, Debug)]
pub enum Asset {
    Sol,
    Spl(Pubkey),
}

impl PartialEq for Asset {
    fn eq(&self, other: &Asset) -> (r: bool) {
        match (self, other) {
            (Asset::Sol, Asset::Sol) => true,
            (Asset::Spl(a), Asset::Spl(b)) => a == b,
            _ => false,
        }
    }
}

impl Eq for Asset {
}

impl vstd::std_specs::cmp::PartialEqSpecImpl for Asset {
    open spec fn obeys_eq_spec() -> bool {
        true
    }

    open spec fn eq_spec(&self, other: &Asset) -> bool {
        *self == *other
    }
}

/// Whether a deposit made at `deposited_at` is still open to operator transfers at `now`.
/// The bound is inclusive: at `deposited_at + TRANSFER_TIME` the window is still open.
pub open spec fn in_transfer_window(deposited_at: u64, now: u64) -> bool {
    now <= deposited_at + TRANSFER_TIME
}

/// One deposit's ledger entry.
#[derive(Clone, Debug)]
pub struct UserDeposit {
    pub user: Pubkey,
    pub amount: u64,
    pub transferred_amount: u64,
    pub withdraw_amount: u64,
    pub deposited_at: u64,
    /// Separates the deposits of one user.
    pub salt: u64,
    pub asset: Asset,
    pub allowed_list: Vec<Pubkey>,
}

impl UserDeposit {
    /// What was moved out never exceeds what was deposited, and the allow-list is bounded.
    pub open spec fn wf(&self) -> bool {
        &&& self.transferred_amount + self.withdraw_amount <= self.amount
        &&& self.allowed_list@.len() <= MAX_ALLOWED_LIST_SIZE
    }

    /// What neither the operators nor the user have moved out yet.
    pub open spec fn remaining(&self) -> int {
        self.amount - self.transferred_amount - self.withdraw_amount
    }

    pub open spec fn spec_is_in_transfer_time(&self, now: u64) -> bool {
        in_transfer_window(self.deposited_at, now)
    }

    /// Whether this entry records a fresh deposit with the given fields.
    pub open spec fn records_deposit(
        &self,
        user: Pubkey,
        amount: u64,
        salt: u64,
        asset: Asset,
        allowed_list: Seq<Pubkey>,
        now: u64,
    ) -> bool {
        &&& self.user == user
        &&& self.amount == amount
        &&& self.transferred_amount == 0
        &&& self.withdraw_amount == 0
        &&& self.deposited_at == now
        &&& self.salt == salt
        &&& self.asset == asset
        &&& self.allowed_list@ == allowed_list
    }

    /// This entry after operators moved a further `amount` out of it.
    pub open spec fn with_transfer(self, amount: u64) -> UserDeposit {
        UserDeposit { transferred_amount: (self.transferred_amount + amount) as u64, ..self }
    }

    /// This entry after the user took back all that remains of it.
    pub open spec fn with_withdrawal(self) -> UserDeposit {
        UserDeposit { withdraw_amount: (self.amount - self.transferred_amount) as u64, ..self }
    }

    /// Whether the entry's amounts and allow-list are within their bounds.
    pub fn is_well_formed(&self) -> (r: bool)
        ensures
            r == self.wf(),
    {
        self.transferred_amount <= self.amount && self.withdraw_amount <= self.amount
            - self.transferred_amount && self.allowed_list.len() <= MAX_ALLOWED_LIST_SIZE
    }

    /// Fills this entry for a deposit of `amount` of `asset` by `user`, made at `now`, with
    /// nothing moved out of it yet.
    pub fn initialize(
        &mut self,
        user: Pubkey,
        amount: u64,
        salt: u64,
        asset: Asset,
        allowed_list: Vec<Pubkey>,
        now: u64,
    )
        ensures
            final(self).records_deposit(user, amount, salt, asset, allowed_list@, now),
            allowed_list@.len() <= MAX_ALLOWED_LIST_SIZE ==> final(self).wf(),
    {
        self.user = user;
        self.amount = amount;
        self.transferred_amount = 0;
        self.withdraw_amount = 0;
        self.deposited_at = now;
        self.salt = salt;
        self.asset = asset;
        self.allowed_list = allowed_list;
    }

    /// Whether operators may still move funds out of this entry at `now`.
    pub fn is_in_transfer_time(&self, now: u64) -> (r: bool)
        ensures
            r == self.spec_is_in_transfer_time(now),
    {
        now <= self.deposited_at || now - self.deposited_at <= TRANSFER_TIME
    }
}

} // verus!
