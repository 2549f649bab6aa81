use vstd::prelude::*;

use crate::errors::EscrowError;
use crate::escrow::{operator_transfer, operator_transfer_error, operator_transfer_post};
use crate::pubkey::Pubkey;
use crate::states::user_deposit::{Asset, UserDeposit};
use crate::states::vault::Vault;

verus! {

/// The accounts of an operator's transfer of a token out of a deposit; `deposit_token` is the
/// token's mint.
#[derive(Debug)]
pub struct OperatorTransferSplToken {
    pub operator: Pubkey,
    pub receiver: Pubkey,
    pub vault: Vault,
    pub user_deposit: UserDeposit,
    pub deposit_token: Pubkey,
}

/// Accounts for the operator's transfer of `amount` of the token to the receiver at `now`.
/// On success the caller moves the token from the vault's account to the receiver's.
pub fn handler(ctx: &mut OperatorTransferSplToken, amount: u64, now: u64) -> (r: Result<
    (),
    EscrowError,
>)
    ensures
        final(ctx).operator == old(ctx).operator,
        final(ctx).receiver == old(ctx).receiver,
        final(ctx).vault == old(ctx).vault,
        final(ctx).deposit_token == old(ctx).deposit_token,
        final(ctx).user_deposit == operator_transfer_post(
            old(ctx).vault,
            old(ctx).user_deposit,
            old(ctx).operator,
            old(ctx).receiver,
            Asset::Spl(old(ctx).deposit_token),
            amount,
            now,
        ),
        old(ctx).user_deposit.wf() && old(ctx).user_deposit.withdraw_amount == 0
            ==> final(ctx).user_deposit.wf(),
        match operator_transfer_error(
            old(ctx).vault,
            old(ctx).user_deposit,
            old(ctx).operator,
            old(ctx).receiver,
            Asset::Spl(old(ctx).deposit_token),
            amount,
            now,
        ) {
            Some(e) => r == Err::<(), EscrowError>(e),
            None => r is Ok,
        },
{
    let operator = ctx.operator;
    let receiver = ctx.receiver;
    let asset = Asset::Spl(ctx.deposit_token);
    operator_transfer(&ctx.vault, &mut ctx.user_deposit, operator, receiver, asset, amount, now)
}

} // verus!
