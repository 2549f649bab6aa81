use vstd::prelude::*;

use crate::constants::{MAX_ALLOWED_LIST_SIZE, MAX_OPERATORS_LEN, TRANSFER_TIME};
use crate::errors::EscrowError;
use crate::pubkey::{keys_contain, Pubkey};
use crate::states::user_deposit::{in_transfer_window, Asset, UserDeposit};
use crate::states::vault::{add_operator_error, remove_operator_error, valid_operators, Vault};

verus! {

/// The error with which a deposit with `allowed_list` is refused, if any.
pub open spec fn deposit_error(allowed_list: Seq<Pubkey>) -> Option<EscrowError> {
    if allowed_list.len() > MAX_ALLOWED_LIST_SIZE {
        Some(EscrowError::ExceedAllowedListLimit)
    } else {
        None
    }
}

/// The error with which `operator` is refused a transfer of `amount` of `asset` out of
/// `deposit` to `receiver` at `now`, if any. The checks come in this order.
pub open spec fn operator_transfer_error(
    vault: Vault,
    deposit: UserDeposit,
    operator: Pubkey,
    receiver: Pubkey,
    asset: Asset,
    amount: u64,
    now: u64,
) -> Option<EscrowError> {
    if !vault.operators@.contains(operator) {
        Some(EscrowError::InvalidOperator)
    } else if !deposit.allowed_list@.contains(receiver) {
        Some(EscrowError::InvalidAllowedReceiver)
    } else if deposit.asset != asset {
        Some(EscrowError::InvalidAsset)
    } else if !in_transfer_window(deposit.deposited_at, now) {
        Some(EscrowError::ExpiredTransferTime)
    } else if amount + deposit.transferred_amount > deposit.amount {
        Some(EscrowError::ExceedTransferAmount)
    } else {
        None
    }
}

/// The error with which `user` is refused the withdrawal of what remains of `deposit`, paid
/// out as `asset`, at `now`, if any. The checks come in this order; only the token pathway
/// refuses to release nothing.
pub open spec fn user_withdraw_error(
    deposit: UserDeposit,
    user: Pubkey,
    asset: Asset,
    now: u64,
) -> Option<EscrowError> {
    if deposit.user != user {
        Some(EscrowError::InvalidUser)
    } else if in_transfer_window(deposit.deposited_at, now) {
        Some(EscrowError::InTransferTime)
    } else if deposit.asset != asset {
        Some(EscrowError::InvalidAsset)
    } else if asset is Spl && deposit.remaining() == 0 {
        Some(EscrowError::NoWithdrawAmount)
    } else {
        None
    }
}

/// The entry after an operator transfer, whether it was accepted or refused.
pub open spec fn operator_transfer_post(
    vault: Vault,
    deposit: UserDeposit,
    operator: Pubkey,
    receiver: Pubkey,
    asset: Asset,
    amount: u64,
    now: u64,
) -> UserDeposit {
    if operator_transfer_error(vault, deposit, operator, receiver, asset, amount, now) is None {
        deposit.with_transfer(amount)
    } else {
        deposit
    }
}

/// The entry after a withdrawal, whether it was accepted or refused.
pub open spec fn user_withdraw_post(
    deposit: UserDeposit,
    user: Pubkey,
    asset: Asset,
    now: u64,
) -> UserDeposit {
    if user_withdraw_error(deposit, user, asset, now) is None {
        deposit.with_withdrawal()
    } else {
        deposit
    }
}

/// Records in `entry` a deposit of `amount` of `asset` by `user`, made at `now`. The asset
/// itself is moved into custody by the caller, which keeps the entry only on success.
pub fn deposit(
    entry: &mut UserDeposit,
    user: Pubkey,
    salt: u64,
    amount: u64,
    asset: Asset,
    allowed_list: Vec<Pubkey>,
    now: u64,
) -> (r: Result<(), EscrowError>)
    ensures
        match deposit_error(allowed_list@) {
            Some(e) => r == Err::<(), EscrowError>(e) && *final(entry) == *old(entry),
            None => {
                &&& r is Ok
                &&& final(entry).records_deposit(user, amount, salt, asset, allowed_list@, now)
                &&& final(entry).wf()
            },
        },
{
    if allowed_list.len() > MAX_ALLOWED_LIST_SIZE {
        return Err(EscrowError::ExceedAllowedListLimit);
    }
    entry.initialize(user, amount, salt, asset, allowed_list, now);
    Ok(())
}

/// Lets `operator` move `amount` of `asset` out of `deposit` to `receiver` at `now`. On
/// success the caller moves the asset itself.
pub fn operator_transfer(
    vault: &Vault,
    deposit: &mut UserDeposit,
    operator: Pubkey,
    receiver: Pubkey,
    asset: Asset,
    amount: u64,
    now: u64,
) -> (r: Result<(), EscrowError>)
    ensures
        *final(deposit) == operator_transfer_post(
            *vault,
            *old(deposit),
            operator,
            receiver,
            asset,
            amount,
            now,
        ),
        old(deposit).wf() && old(deposit).withdraw_amount == 0 ==> final(deposit).wf(),
        match operator_transfer_error(*vault, *old(deposit), operator, receiver, asset, amount, now) {
            Some(e) => r == Err::<(), EscrowError>(e),
            None => r is Ok,
        },
{
    if !keys_contain(&vault.operators, &operator) {
        return Err(EscrowError::InvalidOperator);
    }
    if !keys_contain(&deposit.allowed_list, &receiver) {
        return Err(EscrowError::InvalidAllowedReceiver);
    }
    if !(deposit.asset == asset) {
        return Err(EscrowError::InvalidAsset);
    }
    if !deposit.is_in_transfer_time(now) {
        return Err(EscrowError::ExpiredTransferTime);
    }
    if deposit.transferred_amount > deposit.amount || amount > deposit.amount
        - deposit.transferred_amount {
        return Err(EscrowError::ExceedTransferAmount);
    }
    deposit.transferred_amount = deposit.transferred_amount + amount;
    Ok(())
}

/// Releases to `user` what remains of `deposit`, paid out as `asset`, at `now`, and returns
/// how much that is. On success the caller moves the asset itself.
pub fn user_withdraw(deposit: &mut UserDeposit, user: Pubkey, asset: Asset, now: u64) -> (r:
    Result<u64, EscrowError>)
    requires
        old(deposit).wf(),
    ensures
        *final(deposit) == user_withdraw_post(*old(deposit), user, asset, now),
        final(deposit).wf(),
        match user_withdraw_error(*old(deposit), user, asset, now) {
            Some(e) => r == Err::<u64, EscrowError>(e),
            None => r == Ok::<u64, EscrowError>(old(deposit).remaining() as u64),
        },
{
    if !(deposit.user == user) {
        return Err(EscrowError::InvalidUser);
    }
    if deposit.is_in_transfer_time(now) {
        return Err(EscrowError::InTransferTime);
    }
    if !(deposit.asset == asset) {
        return Err(EscrowError::InvalidAsset);
    }
    let remaining = deposit.amount - deposit.transferred_amount - deposit.withdraw_amount;
    match asset {
        Asset::Sol => {},
        Asset::Spl(_) => {
            if remaining == 0 {
                return Err(EscrowError::NoWithdrawAmount);
            }
        },
    }
    deposit.withdraw_amount = deposit.amount - deposit.transferred_amount;
    Ok(remaining)
}

/// One call against a deposit entry: an operator transfer or a withdrawal by its user.
pub enum LedgerCall {
    Transfer {
        vault: Vault,
        operator: Pubkey,
        receiver: Pubkey,
        asset: Asset,
        amount: u64,
        now: u64,
    },
    Withdraw { user: Pubkey, asset: Asset, now: u64 },
}

impl LedgerCall {
    /// The instant at which the call is made.
    pub open spec fn time(self) -> u64 {
        match self {
            LedgerCall::Transfer { now, .. } => now,
            LedgerCall::Withdraw { now, .. } => now,
        }
    }
}

/// The entry after `call`, whether it was accepted or refused.
pub open spec fn apply_call(deposit: UserDeposit, call: LedgerCall) -> UserDeposit {
    match call {
        LedgerCall::Transfer { vault, operator, receiver, asset, amount, now } => {
            operator_transfer_post(vault, deposit, operator, receiver, asset, amount, now)
        },
        LedgerCall::Withdraw { user, asset, now } => user_withdraw_post(deposit, user, asset, now),
    }
}

/// The entry after `calls`, made one after the other.
pub open spec fn replay(deposit: UserDeposit, calls: Seq<LedgerCall>) -> UserDeposit
    decreases calls.len(),
{
    if calls.len() == 0 {
        deposit
    } else {
        replay(apply_call(deposit, calls[0]), calls.drop_first())
    }
}

/// Whether `calls` are made at instants that never go back.
pub open spec fn times_nondecreasing(calls: Seq<LedgerCall>) -> bool {
    forall|i: int, j: int| 0 <= i <= j < calls.len() ==> calls[i].time() <= calls[j].time()
}

proof fn lemma_replay_conserves(deposit: UserDeposit, calls: Seq<LedgerCall>, t: u64)
    requires
        deposit.wf(),
        deposit.withdraw_amount > 0 ==> !in_transfer_window(deposit.deposited_at, t),
        times_nondecreasing(calls),
        forall|i: int| 0 <= i < calls.len() ==> t <= calls[i].time(),
    ensures
        replay(deposit, calls).wf(),
        replay(deposit, calls).amount == deposit.amount,
    decreases calls.len(),
{
    if calls.len() > 0 {
        let call = calls[0];
        let rest = calls.drop_first();
        assert forall|i: int| 0 <= i < rest.len() implies call.time() <= rest[i].time() by {
            assert(rest[i] == calls[i + 1]);
        }
        assert forall|i: int, j: int| 0 <= i <= j < rest.len() implies rest[i].time()
            <= rest[j].time() by {
            assert(rest[i] == calls[i + 1]);
            assert(rest[j] == calls[j + 1]);
        }
        lemma_replay_conserves(apply_call(deposit, call), rest, call.time());
    }
}

/// Conservation: along any operator transfers and withdrawals against one deposit that nothing
/// was withdrawn from yet, made at instants that never go back, what operators moved out plus
/// what its user withdrew never exceeds the deposited amount, after every call.
pub proof fn lemma_conservation(deposit: UserDeposit, calls: Seq<LedgerCall>, k: int)
    requires
        deposit.wf(),
        deposit.withdraw_amount == 0,
        times_nondecreasing(calls),
        0 <= k <= calls.len(),
    ensures
        replay(deposit, calls.take(k)).amount == deposit.amount,
        replay(deposit, calls.take(k)).transferred_amount + replay(
            deposit,
            calls.take(k),
        ).withdraw_amount <= deposit.amount,
{
    let prefix = calls.take(k);
    assert forall|i: int, j: int| 0 <= i <= j < prefix.len() implies prefix[i].time()
        <= prefix[j].time() by {
        assert(prefix[i] == calls[i]);
        assert(prefix[j] == calls[j]);
    }
    lemma_replay_conserves(deposit, prefix, 0);
}

/// Window exclusivity: an operator transfer is accepted only up to the end of the transfer
/// window and a withdrawal only after it, so never both at one instant; and neither is refused
/// for its timing in its own period, so no instant is in neither. For the depositor, a
/// withdrawal is refused as early exactly while the window is open, whatever the asset.
pub proof fn lemma_window_exclusive(
    vault: Vault,
    deposit: UserDeposit,
    operator: Pubkey,
    receiver: Pubkey,
    transfer_asset: Asset,
    amount: u64,
    user: Pubkey,
    withdraw_asset: Asset,
    now: u64,
)
    ensures
        operator_transfer_error(vault, deposit, operator, receiver, transfer_asset, amount, now)
            is None ==> now <= deposit.deposited_at + TRANSFER_TIME,
        user_withdraw_error(deposit, user, withdraw_asset, now) is None ==> now
            > deposit.deposited_at + TRANSFER_TIME,
        !(operator_transfer_error(vault, deposit, operator, receiver, transfer_asset, amount, now)
            is None && user_withdraw_error(deposit, user, withdraw_asset, now) is None),
        now <= deposit.deposited_at + TRANSFER_TIME ==> operator_transfer_error(
            vault,
            deposit,
            operator,
            receiver,
            transfer_asset,
            amount,
            now,
        ) != Some(EscrowError::ExpiredTransferTime),
        now > deposit.deposited_at + TRANSFER_TIME ==> user_withdraw_error(
            deposit,
            user,
            withdraw_asset,
            now,
        ) != Some(EscrowError::InTransferTime),
        user == deposit.user ==> (user_withdraw_error(deposit, user, withdraw_asset, now) == Some(
            EscrowError::InTransferTime,
        ) <==> now <= deposit.deposited_at + TRANSFER_TIME),
{
}

/// The operator set stays bounded and without repeats: a full registry refuses a new operator
/// with `ExceedOperatorLimit`, a member cannot be added again, a non-member cannot be removed,
/// and every accepted addition leaves a valid set.
pub proof fn lemma_operator_set_bound(operators: Seq<Pubkey>, operator: Pubkey)
    requires
        valid_operators(operators),
    ensures
        operators.len() == MAX_OPERATORS_LEN && !operators.contains(operator) ==> add_operator_error(
            operators,
            operator,
        ) == Some(EscrowError::ExceedOperatorLimit),
        operators.contains(operator) ==> add_operator_error(operators, operator) == Some(
            EscrowError::OperatorAlreadyExists,
        ),
        !operators.contains(operator) ==> remove_operator_error(operators, operator) == Some(
            EscrowError::OperatorNotExists,
        ),
        add_operator_error(operators, operator) is None ==> valid_operators(
            operators.push(operator),
        ),
{
    if add_operator_error(operators, operator) is None {
        let pushed = operators.push(operator);
        assert forall|i: int, j: int|
            0 <= i < pushed.len() && 0 <= j < pushed.len() && i != j implies pushed[i]
            != pushed[j] by {
            if i < operators.len() && j < operators.len() {
            } else if i < operators.len() {
                assert(operators.contains(operators[i]));
            } else {
                assert(operators.contains(operators[j]));
            }
        }
    }
}

/// Allow-list enforcement: a current operator's transfer to a receiver that is not on the
/// deposit's allow-list is refused with `InvalidAllowedReceiver`, whatever the asset, amount
/// and instant, and leaves the entry as it was.
pub proof fn lemma_allow_list_enforced(
    vault: Vault,
    deposit: UserDeposit,
    operator: Pubkey,
    receiver: Pubkey,
    asset: Asset,
    amount: u64,
    now: u64,
)
    requires
        vault.operators@.contains(operator),
        !deposit.allowed_list@.contains(receiver),
    ensures
        operator_transfer_error(vault, deposit, operator, receiver, asset, amount, now) == Some(
            EscrowError::InvalidAllowedReceiver,
        ),
        operator_transfer_post(vault, deposit, operator, receiver, asset, amount, now) == deposit,
{
}

/// A deposit that operators emptied releases nothing to its user, however often asked after
/// the window: on the native pathway each withdrawal moves zero and leaves the entry as it
/// was; on the token pathway each is refused with `NoWithdrawAmount`.
pub proof fn lemma_drained_withdrawal(
    deposit: UserDeposit,
    asset: Asset,
    first: u64,
    second: u64,
)
    requires
        deposit.wf(),
        deposit.transferred_amount == deposit.amount,
        deposit.asset == asset,
        !in_transfer_window(deposit.deposited_at, first),
        !in_transfer_window(deposit.deposited_at, second),
    ensures
        ({
            let user = deposit.user;
            let after = user_withdraw_post(deposit, user, asset, first);
            &&& after == deposit
            &&& asset is Sol ==> {
                &&& user_withdraw_error(deposit, user, asset, first) is None
                &&& deposit.remaining() == 0
                &&& user_withdraw_error(after, user, asset, second) is None
                &&& after.remaining() == 0
                &&& user_withdraw_post(after, user, asset, second) == after
            }
            &&& asset is Spl ==> {
                &&& user_withdraw_error(deposit, user, asset, first) == Some(
                    EscrowError::NoWithdrawAmount,
                )
                &&& user_withdraw_error(after, user, asset, second) == Some(
                    EscrowError::NoWithdrawAmount,
                )
            }
        }),
{
}

/// A withdrawal is released once: after one is accepted nothing remains, so a later one moves
/// zero and leaves the entry as it was on the native pathway, and is refused with
/// `NoWithdrawAmount` on the token pathway.
pub proof fn lemma_withdrawal_once(
    deposit: UserDeposit,
    user: Pubkey,
    asset: Asset,
    first: u64,
    second: u64,
)
    requires
        deposit.wf(),
        user_withdraw_error(deposit, user, asset, first) is None,
        first <= second,
    ensures
        ({
            let after = user_withdraw_post(deposit, user, asset, first);
            &&& after.wf()
            &&& after.remaining() == 0
            &&& asset is Sol ==> {
                &&& user_withdraw_error(after, user, asset, second) is None
                &&& user_withdraw_post(after, user, asset, second) == after
            }
            &&& asset is Spl ==> user_withdraw_error(after, user, asset, second) == Some(
                EscrowError::NoWithdrawAmount,
            )
        }),
{
}

} // verus!
