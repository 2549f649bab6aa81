//! Custodial escrow ledger: a vault holds deposits on behalf of their users; operators named
//! by the vault's administrator may move a deposit to receivers on its allow-list during a
//! transfer window that opens at the deposit, after which the user takes back the rest.
//!
//! Every operation is a verified function from the accounts it reads, handed in as plain
//! values, and the current time, to the new state and the amount to move. Moving the asset
//! itself is the caller's part.

pub mod constants;
pub mod errors;
pub mod escrow;
pub mod instructions;
pub mod pubkey;
pub mod states;

pub use constants::{MAX_ALLOWED_LIST_SIZE, MAX_OPERATORS_LEN, TRANSFER_TIME};
pub use errors::EscrowError;
pub use instructions::add_or_remove_operator::{
    add_operator as admin_add_operator, remove_operator as admin_remove_operator,
    AddOrRemoveOperator,
};
pub use instructions::initialize_vault::{handler as admin_initialize_vault, InitializeVault};
pub use instructions::operator_transfer_sol::{
    handler as operator_transfer_sol, OperatorTransferSol,
};
pub use instructions::operator_transfer_spl_token::{
    handler as operator_transfer_spl_token, OperatorTransferSplToken,
};
pub use instructions::user_deposit_sol::{handler as user_deposit_sol, UserDepositSol};
pub use instructions::user_deposit_spl_token::{
    handler as user_deposit_spl_token, UserDepositSplToken,
};
pub use instructions::user_withdraw_sol::{handler as user_withdraw_sol, UserWithdrawSol};
pub use instructions::user_withdraw_spl_token::{
    handler as user_withdraw_spl_token, UserWithdrawSplToken,
};
pub use pubkey::Pubkey;
pub use states::user_deposit::{Asset, UserDeposit};
pub use states::vault::Vault;
