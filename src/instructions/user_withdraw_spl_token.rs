use vstd::prelude::*;

use crate::errors::EscrowError;
use crate::escrow::{user_withdraw, user_withdraw_error, user_withdraw_post};
use crate::pubkey::Pubkey;
use crate::states::user_deposit::{Asset, UserDeposit};

verus! {

/// The accounts of a user's withdrawal of a token; `deposit_token` is the token's mint.
#[derive(Debug)]
pub struct UserWithdrawSplToken {
    pub user: Pubkey,
    pub user_deposit: UserDeposit,
    pub deposit_token: Pubkey,
}

/// Releases to the user at `now` what remains of the deposit, and returns how much that is.
/// On success the caller moves that much of the token from the vault to the user.
pub fn handler(ctx: &mut UserWithdrawSplToken, now: u64) -> (r: Result<u64, EscrowError>)
    requires
        old(ctx).user_deposit.wf(),
    ensures
        final(ctx).user == old(ctx).user,
        final(ctx).deposit_token == old(ctx).deposit_token,
        final(ctx).user_deposit == user_withdraw_post(
            old(ctx).user_deposit,
            old(ctx).user,
            Asset::Spl(old(ctx).deposit_token),
            now,
        ),
        final(ctx).user_deposit.wf(),
        match user_withdraw_error(old(ctx).user_deposit, old(ctx).user, Asset::Spl(old(ctx).deposit_token), now) {
            Some(e) => r == Err::<u64, EscrowError>(e),
            None => r == Ok::<u64, EscrowError>(old(ctx).user_deposit.remaining() as u64),
        },
{
    let user = ctx.user;
    let asset = Asset::Spl(ctx.deposit_token);
    user_withdraw(&mut ctx.user_deposit, user, asset, now)
}

} // verus!
