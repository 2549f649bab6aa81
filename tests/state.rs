use caliber_escrow::escrow::{deposit, operator_transfer, user_withdraw};
use caliber_escrow::{Asset, EscrowError, Pubkey, UserDeposit, Vault, TRANSFER_TIME};

fn key(b: u8) -> Pubkey {
    Pubkey::new([b; 32])
}

fn entry(amount: u64, transferred: u64, withdrawn: u64, receivers: usize) -> UserDeposit {
    UserDeposit {
        user: key(1),
        amount,
        transferred_amount: transferred,
        withdraw_amount: withdrawn,
        deposited_at: 100,
        salt: 0,
        asset: Asset::Sol,
        allowed_list: (0..receivers).map(|i| key(20 + i as u8)).collect(),
    }
}

#[test]
fn registry_well_formedness() {
    let ok = Vault { admin: key(1), operators: vec![key(2), key(3), key(4), key(5), key(6)] };
    assert!(ok.is_well_formed());
    let too_many = Vault { admin: key(1), operators: (2..8).map(key).collect() };
    assert!(!too_many.is_well_formed());
    let repeated = Vault { admin: key(1), operators: vec![key(2), key(3), key(2)] };
    assert!(!repeated.is_well_formed());
    let empty = Vault { admin: key(1), operators: Vec::new() };
    assert!(empty.is_well_formed());
}

#[test]
fn entry_well_formedness() {
    assert!(entry(100, 40, 60, 5).is_well_formed());
    assert!(!entry(100, 40, 61, 1).is_well_formed());
    assert!(!entry(100, 101, 0, 1).is_well_formed());
    assert!(!entry(100, 0, 0, 6).is_well_formed());
    assert!(entry(0, 0, 0, 0).is_well_formed());
}

#[test]
fn core_functions_on_one_entry() {
    let mut d = entry(0, 0, 0, 0);
    let r = deposit(&mut d, key(1), 3, 500, Asset::Spl(key(7)), vec![key(20)], 1000);
    assert_eq!(r, Ok(()));
    let vault = Vault { admin: key(9), operators: vec![key(2)] };
    let r = operator_transfer(&vault, &mut d, key(2), key(20), Asset::Spl(key(7)), 200, 1000);
    assert_eq!(r, Ok(()));
    let r = operator_transfer(&vault, &mut d, key(2), key(20), Asset::Sol, 1, 1000);
    assert_eq!(r, Err(EscrowError::InvalidAsset));
    let r = user_withdraw(&mut d, key(1), Asset::Spl(key(7)), 1000 + TRANSFER_TIME + 1);
    assert_eq!(r, Ok(300));
    assert_eq!(d.transferred_amount + d.withdraw_amount, d.amount);
}
