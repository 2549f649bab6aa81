use vstd::prelude::*;

use crate::errors::EscrowError;
use crate::escrow::{operator_transfer, operator_transfer_error, operator_transfer_post};
use crate::pubkey::Pubkey;
use crate::states::user_deposit::{Asset, UserDeposit};
use crate::states::vault::Vault;

verus! {

/// The accounts of an operator's transfer of native coin out of a deposit.
#[derive(Debug)]
pub struct OperatorTransferSol {
    pub operator: Pubkey,
    pub vault: Vault,
    pub user_deposit: UserDeposit,
    pub receiver: Pubkey,
}

/// Accounts for the operator's transfer of `amount` of native coin to the receiver at `now`.
/// On success the caller moves the coin from the vault to the receiver.
pub fn handler(ctx: &mut OperatorTransferSol, amount: u64, now: u64) -> (r: Result<
    (),
    EscrowError,
>)
    ensures
        final(ctx).operator == old(ctx).operator,
        final(ctx).vault == old(ctx).vault,
        final(ctx).receiver == old(ctx).receiver,
        final(ctx).user_deposit == operator_transfer_post(
            old(ctx).vault,
            old(ctx).user_deposit,
            old(ctx).operator,
            old(ctx).receiver,
            Asset::Sol,
            amount,
            now,
        ),
        old(ctx).user_deposit.wf() && old(ctx).user_deposit.withdraw_amount == 0
            ==> final(ctx).user_deposit.wf(),
        match operator_transfer_error(
            old(ctx).vault,
            old(ctx).user_deposit,
            old(ctx).operator,
            old(ctx).receiver,
            Asset::Sol,
            amount,
            now,
        ) {
            Some(e) => r == Err::<(), EscrowError>(e),
            None => r is Ok,
        },
{
    let operator = ctx.operator;
    let receiver = ctx.receiver;
    operator_transfer(&ctx.vault, &mut ctx.user_deposit, operator, receiver, Asset::Sol, amount, now)
}

} // verus!
