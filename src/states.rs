pub mod user_deposit;
pub mod vault;
