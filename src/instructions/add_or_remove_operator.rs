use vstd::prelude::*;

use crate::errors::EscrowError;
use crate::pubkey::Pubkey;
use crate::states::vault::{add_operator_error, remove_operator_error, Vault};

verus! {

/// The accounts of an operator change: the signer, who must be the administrator, and the
/// registry.
#[derive(Debug)]
pub struct AddOrRemoveOperator {
    pub admin: Pubkey,
    pub vault: Vault,
}

/// Adds `operator` to the registry, on the administrator's request.
pub fn add_operator(ctx: &mut AddOrRemoveOperator, operator: Pubkey) -> (r: Result<
    (),
    EscrowError,
>)
    requires
        old(ctx).vault.wf(),
    ensures
        final(ctx).admin == old(ctx).admin,
        final(ctx).vault.wf(),
        final(ctx).vault.admin == old(ctx).vault.admin,
        old(ctx).admin != old(ctx).vault.admin ==> r == Err::<(), EscrowError>(
            EscrowError::InvalidAdmin,
        ) && final(ctx).vault == old(ctx).vault,
        old(ctx).admin == old(ctx).vault.admin ==> match add_operator_error(
            old(ctx).vault.operators@,
            operator,
        ) {
            Some(e) => r == Err::<(), EscrowError>(e) && final(ctx).vault == old(ctx).vault,
            None => r is Ok && final(ctx).vault.operators@ == old(ctx).vault.operators@.push(
                operator,
            ),
        },
{
    if !(ctx.admin == ctx.vault.admin) {
        return Err(EscrowError::InvalidAdmin);
    }
    ctx.vault.add_operator(operator)
}

/// Removes `operator` from the registry, on the administrator's request.
pub fn remove_operator(ctx: &mut AddOrRemoveOperator, operator: Pubkey) -> (r: Result<
    (),
    EscrowError,
>)
    requires
        old(ctx).vault.wf(),
    ensures
        final(ctx).admin == old(ctx).admin,
        final(ctx).vault.wf(),
        final(ctx).vault.admin == old(ctx).vault.admin,
        old(ctx).admin != old(ctx).vault.admin ==> r == Err::<(), EscrowError>(
            EscrowError::InvalidAdmin,
        ) && final(ctx).vault == old(ctx).vault,
        old(ctx).admin == old(ctx).vault.admin ==> match remove_operator_error(
            old(ctx).vault.operators@,
            operator,
        ) {
            Some(e) => r == Err::<(), EscrowError>(e) && final(ctx).vault == old(ctx).vault,
            None => {
                &&& r is Ok
                &&& final(ctx).vault.operators@ == old(ctx).vault.operators@.remove_value(operator)
                &&& final(ctx).vault.operators@.len() == old(ctx).vault.operators@.len() - 1
                &&& final(ctx).vault.operator_set() == old(ctx).vault.operator_set().remove(
                    operator,
                )
            },
        },
{
    if !(ctx.admin == ctx.vault.admin) {
        return Err(EscrowError::InvalidAdmin);
    }
    ctx.vault.remove_operator(operator)
}

} // verus!
