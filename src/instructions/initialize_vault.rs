use vstd::prelude::*;

use crate::errors::EscrowError;
use crate::pubkey::Pubkey;
use crate::states::vault::{initialize_error, Vault};

verus! {

/// The accounts of vault initialization: the signing administrator and the new registry.
#[derive(Debug)]
pub struct InitializeVault {
    pub admin: Pubkey,
    pub vault: Vault,
}

/// Makes the signer the administrator of the registry, with `operators` as its operators.
pub fn handler(ctx: &mut InitializeVault, operators: Vec<Pubkey>) -> (r: Result<(), EscrowError>)
    ensures
        final(ctx).admin == old(ctx).admin,
        match initialize_error(operators@) {
            Some(e) => r == Err::<(), EscrowError>(e) && final(ctx).vault == old(ctx).vault,
            None => {
                &&& r is Ok
                &&& final(ctx).vault.admin == old(ctx).admin
                &&& final(ctx).vault.operators@ == operators@
                &&& final(ctx).vault.wf()
            },
        },
{
    let admin = ctx.admin;
    ctx.vault.initialize(admin, operators)
}

} // verus!
