use vstd::prelude::*;

use crate::errors::EscrowError;
use crate::escrow::{deposit, deposit_error};
use crate::pubkey::Pubkey;
use crate::states::user_deposit::{Asset, UserDeposit};

verus! {

/// The accounts of a deposit of native coin.
#[derive(Debug)]
pub struct UserDepositSol {
    pub user: Pubkey,
    pub user_deposit: UserDeposit,
}

/// Records the user's deposit of `amount` of the coin at `now`, under `salt`. The caller
/// moves the coin into the vault's custody and keeps the entry only if both succeed.
pub fn handler(
    ctx: &mut UserDepositSol,
    salt: u64,
    amount: u64,
    allowed_list: Vec<Pubkey>,
    now: u64,
) -> (r: Result<(), EscrowError>)
    ensures
        final(ctx).user == old(ctx).user,
        match deposit_error(allowed_list@) {
            Some(e) => r == Err::<(), EscrowError>(e) && final(ctx).user_deposit == old(
                ctx,
            ).user_deposit,
            None => {
                &&& r is Ok
                &&& final(ctx).user_deposit.records_deposit(
                    old(ctx).user,
                    amount,
                    salt,
                    Asset::Sol,
                    allowed_list@,
                    now,
                )
                &&& final(ctx).user_deposit.wf()
            },
        },
{
    let user = ctx.user;
    let asset = Asset::Sol;
    deposit(&mut ctx.user_deposit, user, salt, amount, asset, allowed_list, now)
}

} // verus!
