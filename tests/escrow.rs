use caliber_escrow::{
    admin_remove_operator, AddOrRemoveOperator,
    operator_transfer_sol, operator_transfer_spl_token, user_deposit_sol, user_deposit_spl_token,
    user_withdraw_sol, user_withdraw_spl_token, Asset, EscrowError, OperatorTransferSol,
    OperatorTransferSplToken, Pubkey, UserDeposit, UserDepositSol, UserDepositSplToken,
    UserWithdrawSol, UserWithdrawSplToken, Vault, TRANSFER_TIME,
};

const T0: u64 = 1_700_000_000;

fn key(b: u8) -> Pubkey {
    Pubkey::new([b; 32])
}

fn user() -> Pubkey {
    key(1)
}

fn operator() -> Pubkey {
    key(2)
}

fn receiver() -> Pubkey {
    key(3)
}

fn mint() -> Pubkey {
    key(4)
}

fn blank() -> UserDeposit {
    UserDeposit {
        user: key(0),
        amount: 0,
        transferred_amount: 0,
        withdraw_amount: 0,
        deposited_at: 0,
        salt: 0,
        asset: Asset::Sol,
        allowed_list: Vec::new(),
    }
}

fn vault() -> Vault {
    Vault { admin: key(9), operators: vec![operator()] }
}

fn sol_deposit(amount: u64) -> UserDeposit {
    let mut ctx = UserDepositSol { user: user(), user_deposit: blank() };
    assert_eq!(user_deposit_sol(&mut ctx, 7, amount, vec![receiver()], T0), Ok(()));
    ctx.user_deposit
}

fn spl_deposit(amount: u64) -> UserDeposit {
    let mut ctx =
        UserDepositSplToken { user: user(), deposit_token: mint(), user_deposit: blank() };
    assert_eq!(user_deposit_spl_token(&mut ctx, 7, amount, vec![receiver()], T0), Ok(()));
    ctx.user_deposit
}

fn sol_transfer(d: UserDeposit, op: Pubkey, to: Pubkey, amount: u64, now: u64)
    -> (Result<(), EscrowError>, UserDeposit) {
    let mut ctx = OperatorTransferSol { operator: op, vault: vault(), user_deposit: d, receiver: to };
    let r = operator_transfer_sol(&mut ctx, amount, now);
    (r, ctx.user_deposit)
}

fn spl_transfer(d: UserDeposit, token: Pubkey, amount: u64, now: u64)
    -> (Result<(), EscrowError>, UserDeposit) {
    let mut ctx = OperatorTransferSplToken {
        operator: operator(),
        receiver: receiver(),
        vault: vault(),
        user_deposit: d,
        deposit_token: token,
    };
    let r = operator_transfer_spl_token(&mut ctx, amount, now);
    (r, ctx.user_deposit)
}

fn sol_withdraw(d: UserDeposit, who: Pubkey, now: u64) -> (Result<u64, EscrowError>, UserDeposit) {
    let mut ctx = UserWithdrawSol { user: who, user_deposit: d };
    let r = user_withdraw_sol(&mut ctx, now);
    (r, ctx.user_deposit)
}

fn spl_withdraw(d: UserDeposit, now: u64) -> (Result<u64, EscrowError>, UserDeposit) {
    let mut ctx = UserWithdrawSplToken { user: user(), user_deposit: d, deposit_token: mint() };
    let r = user_withdraw_spl_token(&mut ctx, now);
    (r, ctx.user_deposit)
}

#[test]
fn deposit_records_a_fresh_entry() {
    let d = sol_deposit(100);
    assert!(d.user == user());
    assert_eq!(d.amount, 100);
    assert_eq!(d.transferred_amount, 0);
    assert_eq!(d.withdraw_amount, 0);
    assert_eq!(d.deposited_at, T0);
    assert_eq!(d.salt, 7);
    assert!(d.asset == Asset::Sol);
    assert!(d.allowed_list == vec![receiver()]);
}

#[test]
fn token_deposit_records_its_mint() {
    let d = spl_deposit(100);
    assert!(d.asset == Asset::Spl(mint()));
    assert!(d.asset != Asset::Spl(key(5)));
    assert!(d.asset != Asset::Sol);
}

#[test]
fn deposit_with_five_receivers_is_accepted() {
    let mut ctx = UserDepositSol { user: user(), user_deposit: blank() };
    let list: Vec<Pubkey> = (10..15).map(key).collect();
    assert_eq!(user_deposit_sol(&mut ctx, 1, 50, list, T0), Ok(()));
    assert_eq!(ctx.user_deposit.allowed_list.len(), 5);
}

#[test]
fn deposit_with_six_receivers_fails() {
    let mut ctx = UserDepositSol { user: user(), user_deposit: blank() };
    let list: Vec<Pubkey> = (10..16).map(key).collect();
    let r = user_deposit_sol(&mut ctx, 1, 50, list, T0);
    assert_eq!(r, Err(EscrowError::ExceedAllowedListLimit));
    assert_eq!(ctx.user_deposit.amount, 0);
    let mut ctx =
        UserDepositSplToken { user: user(), deposit_token: mint(), user_deposit: blank() };
    let list: Vec<Pubkey> = (10..16).map(key).collect();
    let r = user_deposit_spl_token(&mut ctx, 1, 50, list, T0);
    assert_eq!(r, Err(EscrowError::ExceedAllowedListLimit));
}

#[test]
fn initialize_and_window_check_on_the_entry() {
    let mut d = blank();
    d.initialize(user(), 10, 3, Asset::Spl(mint()), vec![receiver()], T0);
    assert_eq!(d.deposited_at, T0);
    assert!(d.is_in_transfer_time(T0));
    assert!(d.is_in_transfer_time(T0 + TRANSFER_TIME));
    assert!(!d.is_in_transfer_time(T0 + TRANSFER_TIME + 1));
    assert!(d.is_in_transfer_time(0));
}

#[test]
fn window_check_near_the_largest_time() {
    let mut d = blank();
    d.deposited_at = u64::MAX - 10;
    assert!(d.is_in_transfer_time(u64::MAX));
}

#[test]
fn full_lifecycle() {
    let d = sol_deposit(100);
    let (r, d) = sol_transfer(d, operator(), receiver(), 40, T0 + 10);
    assert_eq!(r, Ok(()));
    assert_eq!(d.transferred_amount, 40);
    let (r, d) = sol_transfer(d, operator(), receiver(), 70, T0 + 10);
    assert_eq!(r, Err(EscrowError::ExceedTransferAmount));
    assert_eq!(d.transferred_amount, 40);
    let (r, d) = sol_withdraw(d, user(), T0 + TRANSFER_TIME + 1);
    assert_eq!(r, Ok(60));
    assert_eq!(d.withdraw_amount, 60);
    let (r, d) = sol_withdraw(d, user(), T0 + TRANSFER_TIME + 2);
    assert_eq!(r, Ok(0));
    assert_eq!(d.withdraw_amount, 60);
    assert_eq!(d.transferred_amount + d.withdraw_amount, 100);
}

#[test]
fn expired_operator_action() {
    let d = sol_deposit(100);
    let (r, d) = sol_transfer(d, operator(), receiver(), 1, T0 + TRANSFER_TIME + 1);
    assert_eq!(r, Err(EscrowError::ExpiredTransferTime));
    assert_eq!(d.transferred_amount, 0);
    let (r, _) = spl_transfer(spl_deposit(100), mint(), 1, T0 + TRANSFER_TIME + 1);
    assert_eq!(r, Err(EscrowError::ExpiredTransferTime));
}

#[test]
fn premature_withdrawal() {
    let d = sol_deposit(100);
    let (r, d) = sol_withdraw(d, user(), T0 + TRANSFER_TIME - 1);
    assert_eq!(r, Err(EscrowError::InTransferTime));
    assert_eq!(d.withdraw_amount, 0);
    let (r, _) = spl_withdraw(spl_deposit(100), T0 + TRANSFER_TIME - 1);
    assert_eq!(r, Err(EscrowError::InTransferTime));
}

#[test]
fn window_boundary_belongs_to_the_operators() {
    let d = sol_deposit(100);
    let end = T0 + TRANSFER_TIME;
    let (r, d) = sol_transfer(d, operator(), receiver(), 10, end);
    assert_eq!(r, Ok(()));
    let (r, d) = sol_withdraw(d, user(), end);
    assert_eq!(r, Err(EscrowError::InTransferTime));
    let (r, d) = sol_transfer(d, operator(), receiver(), 10, end + 1);
    assert_eq!(r, Err(EscrowError::ExpiredTransferTime));
    let (r, _) = sol_withdraw(d, user(), end + 1);
    assert_eq!(r, Ok(90));
}

#[test]
fn transfer_and_withdrawal_never_both_accepted() {
    for now in [T0, T0 + 1, T0 + TRANSFER_TIME - 1, T0 + TRANSFER_TIME, T0 + TRANSFER_TIME + 1] {
        let (t, _) = sol_transfer(sol_deposit(100), operator(), receiver(), 5, now);
        let (w, _) = sol_withdraw(sol_deposit(100), user(), now);
        assert!(t.is_ok() != w.is_ok());
    }
}

#[test]
fn non_operator_cannot_transfer() {
    let d = sol_deposit(100);
    let (r, d) = sol_transfer(d, key(8), receiver(), 1, T0);
    assert_eq!(r, Err(EscrowError::InvalidOperator));
    assert_eq!(d.transferred_amount, 0);
}

#[test]
fn removed_operator_can_no_longer_transfer() {
    let mut registry = AddOrRemoveOperator { admin: key(9), vault: vault() };
    assert_eq!(admin_remove_operator(&mut registry, operator()), Ok(()));
    let mut ctx = OperatorTransferSol {
        operator: operator(),
        vault: registry.vault,
        user_deposit: sol_deposit(100),
        receiver: receiver(),
    };
    assert_eq!(operator_transfer_sol(&mut ctx, 1, T0 + 1), Err(EscrowError::InvalidOperator));
    assert_eq!(ctx.user_deposit.transferred_amount, 0);
}

#[test]
fn operator_check_comes_before_the_allow_list() {
    let (r, _) = sol_transfer(sol_deposit(100), key(8), key(8), 1, T0);
    assert_eq!(r, Err(EscrowError::InvalidOperator));
}

#[test]
fn token_transfer_by_non_operator_fails() {
    let mut ctx = OperatorTransferSplToken {
        operator: key(8),
        receiver: receiver(),
        vault: vault(),
        user_deposit: spl_deposit(100),
        deposit_token: mint(),
    };
    assert_eq!(operator_transfer_spl_token(&mut ctx, 1, T0), Err(EscrowError::InvalidOperator));
}

#[test]
fn receiver_off_the_allow_list_is_refused() {
    for (amount, now) in [(1, T0), (1000, T0), (1, T0 + TRANSFER_TIME + 5), (0, T0)] {
        let (r, d) = sol_transfer(sol_deposit(100), operator(), key(8), amount, now);
        assert_eq!(r, Err(EscrowError::InvalidAllowedReceiver));
        assert_eq!(d.transferred_amount, 0);
    }
}

#[test]
fn native_transfer_out_of_a_token_deposit_fails() {
    let (r, _) = sol_transfer(spl_deposit(100), operator(), receiver(), 1, T0);
    assert_eq!(r, Err(EscrowError::InvalidAsset));
}

#[test]
fn token_transfer_with_another_mint_fails() {
    let (r, _) = spl_transfer(spl_deposit(100), key(5), 1, T0);
    assert_eq!(r, Err(EscrowError::InvalidAsset));
    let (r, _) = spl_transfer(sol_deposit(100), mint(), 1, T0);
    assert_eq!(r, Err(EscrowError::InvalidAsset));
}

#[test]
fn partial_transfers_add_up_to_the_deposit() {
    let d = spl_deposit(100);
    let (r, d) = spl_transfer(d, mint(), 30, T0 + 1);
    assert_eq!(r, Ok(()));
    let (r, d) = spl_transfer(d, mint(), 70, T0 + 2);
    assert_eq!(r, Ok(()));
    assert_eq!(d.transferred_amount, 100);
    let (r, d) = spl_transfer(d, mint(), 1, T0 + 3);
    assert_eq!(r, Err(EscrowError::ExceedTransferAmount));
    assert_eq!(d.transferred_amount, 100);
}

#[test]
fn transfer_amount_near_the_largest_value_is_refused() {
    let (r, d) = sol_transfer(sol_deposit(100), operator(), receiver(), u64::MAX, T0);
    assert_eq!(r, Err(EscrowError::ExceedTransferAmount));
    assert_eq!(d.transferred_amount, 0);
}

#[test]
fn someone_else_cannot_withdraw() {
    let (r, d) = sol_withdraw(sol_deposit(100), key(8), T0 + TRANSFER_TIME + 1);
    assert_eq!(r, Err(EscrowError::InvalidUser));
    assert_eq!(d.withdraw_amount, 0);
}

#[test]
fn withdrawing_with_the_wrong_pathway_fails() {
    let (r, _) = sol_withdraw(spl_deposit(100), user(), T0 + TRANSFER_TIME + 1);
    assert_eq!(r, Err(EscrowError::InvalidAsset));
    let (r, _) = spl_withdraw(sol_deposit(100), T0 + TRANSFER_TIME + 1);
    assert_eq!(r, Err(EscrowError::InvalidAsset));
}

#[test]
fn wrong_pathway_inside_the_window_is_refused_as_early() {
    let (r, _) = sol_withdraw(spl_deposit(100), user(), T0 + TRANSFER_TIME);
    assert_eq!(r, Err(EscrowError::InTransferTime));
    let (r, _) = spl_withdraw(sol_deposit(100), T0 + 1);
    assert_eq!(r, Err(EscrowError::InTransferTime));
    let mut ctx = UserWithdrawSplToken {
        user: user(),
        user_deposit: spl_deposit(100),
        deposit_token: key(5),
    };
    assert_eq!(user_withdraw_spl_token(&mut ctx, T0 + 1), Err(EscrowError::InTransferTime));
    let (r, _) = sol_withdraw(spl_deposit(100), key(8), T0 + 1);
    assert_eq!(r, Err(EscrowError::InvalidUser));
}

#[test]
fn token_withdrawal_releases_the_rest_once() {
    let (r, d) = spl_transfer(spl_deposit(100), mint(), 25, T0 + 5);
    assert_eq!(r, Ok(()));
    let (r, d) = spl_withdraw(d, T0 + TRANSFER_TIME + 1);
    assert_eq!(r, Ok(75));
    assert_eq!(d.withdraw_amount, 75);
    let (r, d) = spl_withdraw(d, T0 + TRANSFER_TIME + 2);
    assert_eq!(r, Err(EscrowError::NoWithdrawAmount));
    assert_eq!(d.withdraw_amount, 75);
}

#[test]
fn drained_native_deposit_withdraws_zero_twice() {
    let (r, d) = sol_transfer(sol_deposit(100), operator(), receiver(), 100, T0 + 5);
    assert_eq!(r, Ok(()));
    let (r, d) = sol_withdraw(d, user(), T0 + TRANSFER_TIME + 1);
    assert_eq!(r, Ok(0));
    let (r, d) = sol_withdraw(d, user(), T0 + TRANSFER_TIME + 2);
    assert_eq!(r, Ok(0));
    assert_eq!(d.withdraw_amount, 0);
    assert_eq!(d.transferred_amount, 100);
}

#[test]
fn drained_token_deposit_refuses_withdrawal_twice() {
    let (r, d) = spl_transfer(spl_deposit(100), mint(), 100, T0 + 5);
    assert_eq!(r, Ok(()));
    let (r, d) = spl_withdraw(d, T0 + TRANSFER_TIME + 1);
    assert_eq!(r, Err(EscrowError::NoWithdrawAmount));
    let (r, d) = spl_withdraw(d, T0 + TRANSFER_TIME + 2);
    assert_eq!(r, Err(EscrowError::NoWithdrawAmount));
    assert_eq!(d.withdraw_amount, 0);
}

#[test]
fn conservation_along_a_sequence_of_calls() {
    let mut d = sol_deposit(100);
    let steps: [(bool, u64, u64); 6] = [
        (true, 30, T0 + 1),
        (true, 80, T0 + 2),
        (true, 50, T0 + 3),
        (false, 0, T0 + TRANSFER_TIME + 1),
        (true, 10, T0 + TRANSFER_TIME + 2),
        (false, 0, T0 + TRANSFER_TIME + 3),
    ];
    let mut moved: u64 = 0;
    for (is_transfer, amount, now) in steps {
        if is_transfer {
            let (r, next) = sol_transfer(d, operator(), receiver(), amount, now);
            if r.is_ok() {
                moved += amount;
            }
            d = next;
        } else {
            let (r, next) = sol_withdraw(d, user(), now);
            if let Ok(x) = r {
                moved += x;
            }
            d = next;
        }
        assert!(d.transferred_amount + d.withdraw_amount <= d.amount);
        assert!(moved <= 100);
    }
    assert_eq!(moved, 100);
    assert_eq!(d.transferred_amount, 80);
    assert_eq!(d.withdraw_amount, 20);
}
