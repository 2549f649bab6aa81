use vstd::prelude::*;

verus! {

/// Every way in which an escrow operation is rejected.
#[derive(Clone, Copy, Debug, PartialEq, Eq, Structural)]
pub enum EscrowError {
    OperatorAlreadyExists,
    OperatorNotExists,
    ExceedOperatorLimit,
    InvalidAdmin,
    ExceedAllowedListLimit,
    InvalidOperator,
    InvalidAllowedReceiver,
    ExpiredTransferTime,
    ExceedTransferAmount,
    InvalidAsset,
    InTransferTime,
    InvalidUser,
    NoWithdrawAmount,
}

} // verus!
