use vstd::prelude::*;

verus! {

/// Length of the transfer window, in seconds, that starts at the moment of deposit.
pub const TRANSFER_TIME: u64 = 24 * 60 * 60;

/// Largest number of operators that the vault registry holds.
pub const MAX_OPERATORS_LEN: usize = 5;

/// Largest number of receivers on a deposit's allow-list.
pub const MAX_ALLOWED_LIST_SIZE: usize = 5;

} // verus!
