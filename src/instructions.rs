pub mod add_or_remove_operator;
pub mod initialize_vault;
pub mod operator_transfer_sol;
pub mod operator_transfer_spl_token;
pub mod user_deposit_sol;
pub mod user_deposit_spl_token;
pub mod user_withdraw_sol;
pub mod user_withdraw_spl_token;
