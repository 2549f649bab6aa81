use vstd::prelude::*;

use crate::errors::EscrowError;
use crate::escrow::{deposit, deposit_error};
use crate::pubkey::Pubkey;
use crate::states::user_deposit::{Asset, UserDeposit};

verus! {

/// The accounts of a deposit of a token; `deposit_token` is the token's mint.
#[derive(Debug)]
pub struct UserDepositSplToken {
    pub user: Pubkey,
    pub deposit_token: Pubkey,
    pub user_deposit: UserDeposit,
}

/// Records the user's deposit of `amount` of the token at `now`, under `salt`. The caller
/// moves the token into the vault's custody and keeps the entry only if both succeed.
pub fn handler(
    ctx: &mut UserDepositSplToken,
    salt: u64,
    amount: u64,
    allowed_list: Vec<Pubkey>,
    now: u64,
) -> (r: Result<(), EscrowError>)
    ensures
        final(ctx).user == old(ctx).user,
        final(ctx).deposit_token == old(ctx).deposit_token,
        match deposit_error(allowed_list@) {
            Some(e) => r == Err::<(), EscrowError>(e) && final(ctx).user_deposit == old(
                ctx,
            ).user_deposit,
            None => {
                &&& r is Ok
                &&& final(ctx).user_deposit.records_deposit(
                    old(ctx).user,
                    amount,
                    salt,
                    Asset::Spl(old(ctx).deposit_token),
                    allowed_list@,
                    now,
                )
                &&& final(ctx).user_deposit.wf()
            },
        },
{
    let user = ctx.user;
    let asset = Asset::Spl(ctx.deposit_token);
    deposit(&mut ctx.user_deposit, user, salt, amount, asset, allowed_list, now)
}

} // verus!
