use timelock_vault::config::VaultConfig;
use timelock_vault::config::LOCK_DURATION;
use timelock_vault::config::PENALTY_DENOMINATOR;
use timelock_vault::config::PENALTY_NUMERATOR;
use timelock_vault::controller::VaultController;
use timelock_vault::error::CustomError;
use timelock_vault::key::AccountKey;
use timelock_vault::ledger::Authority;
use timelock_vault::vault::Settlement;
use timelock_vault::vault::Vault;

fn key(n: u8) -> AccountKey {
    AccountKey::new([n; 32])
}

fn vault(balance: u64, unlock_time: i64) -> Vault {
    Vault { owner: key(1), bump: 250, balance, unlock_time }
}

#[test]
fn keys_are_equal_when_all_bytes_agree() {
    let mut bytes = [0u8; 32];
    bytes[31] = 1;
    assert_eq!(key(5), key(5));
    assert_ne!(key(5), key(6));
    assert_ne!(AccountKey::new(bytes), key(0));
    bytes[31] = 0;
    assert_eq!(AccountKey::new(bytes), key(0));
    bytes[0] = 9;
    assert_ne!(AccountKey::new(bytes), key(0));
    assert_eq!(AccountKey::new(bytes).to_bytes(), bytes);
}

#[test]
fn reference_policy_is_a_day_and_a_tenth() {
    let config = VaultConfig::reference();
    assert_eq!(config.lock_duration(), 86400);
    assert_eq!(config.penalty_numerator(), 1);
    assert_eq!(config.penalty_denominator(), 10);
    assert_eq!(LOCK_DURATION, 86400);
    assert_eq!(PENALTY_NUMERATOR, 1);
    assert_eq!(PENALTY_DENOMINATOR, 10);
    assert_eq!(VaultConfig::new(86400, 1, 10), Some(config));
}

#[test]
fn invalid_policies_are_refused() {
    assert_eq!(VaultConfig::new(-1, 1, 10), None);
    assert_eq!(VaultConfig::new(10, 1, 0), None);
    assert_eq!(VaultConfig::new(10, 0, 0), None);
    assert_eq!(VaultConfig::new(10, 11, 10), None);
    assert!(VaultConfig::new(0, 0, 1).is_some());
    assert!(VaultConfig::new(i64::MAX, u64::MAX, u64::MAX).is_some());
}

#[test]
fn fee_is_the_truncated_share() {
    let tenth = VaultConfig::reference();
    assert_eq!(tenth.fee(0), 0);
    assert_eq!(tenth.fee(9), 0);
    assert_eq!(tenth.fee(10), 1);
    assert_eq!(tenth.fee(1000), 100);
    assert_eq!(tenth.fee(1005), 100);
    assert_eq!(tenth.fee(u64::MAX), 1844674407370955161);
    let three_sevenths = VaultConfig::new(5, 3, 7).unwrap();
    assert_eq!(three_sevenths.fee(100), 42);
    assert_eq!(three_sevenths.fee(7), 3);
    assert_eq!(three_sevenths.fee(6), 2);
    let all = VaultConfig::new(5, u64::MAX, u64::MAX).unwrap();
    assert_eq!(all.fee(u64::MAX), u64::MAX);
    let none = VaultConfig::new(5, 0, 3).unwrap();
    assert_eq!(none.fee(u64::MAX), 0);
}

#[test]
fn create_locks_an_empty_vault() {
    let config = VaultConfig::new(100, 1, 4).unwrap();
    assert_eq!(
        Vault::create(key(1), 7, 50, &config),
        Some(Vault { owner: key(1), bump: 7, balance: 0, unlock_time: 150 })
    );
    assert_eq!(Vault::create(key(1), 7, -500, &config).unwrap().unlock_time, -400);
    assert_eq!(Vault::create(key(1), 7, i64::MAX - 99, &config), None);
    assert_eq!(Vault::create(key(1), 7, i64::MAX - 100, &config).unwrap().unlock_time, i64::MAX);
}

#[test]
fn lock_ends_at_the_unlock_time() {
    let v = vault(10, 86400);
    assert!(v.is_locked(0));
    assert!(v.is_locked(86399));
    assert!(!v.is_locked(86400));
    assert!(!v.is_locked(86401));
    assert!(v.is_locked(i64::MIN));
    assert!(!v.is_locked(i64::MAX));
}

#[test]
fn credit_adds_or_refuses() {
    let v = vault(10, 86400);
    assert_eq!(v.credit(5), Ok(vault(15, 86400)));
    assert_eq!(v.credit(0), Err(CustomError::InvalidAmount));
    assert_eq!(v.credit(u64::MAX - 10), Ok(vault(u64::MAX, 86400)));
    assert_eq!(v.credit(u64::MAX - 9), Err(CustomError::Overflow));
    assert_eq!(vault(u64::MAX, 0).credit(0), Err(CustomError::InvalidAmount));
}

#[test]
fn settlement_divides_the_balance() {
    let config = VaultConfig::reference();
    let v = vault(1000, 86400);
    assert_eq!(v.settlement(&config, 50000), Settlement { fee: 100, payout: 900 });
    assert_eq!(v.settlement(&config, 86400), Settlement { fee: 0, payout: 1000 });
    assert_eq!(v.settlement(&config, 86401), Settlement { fee: 0, payout: 1000 });
    assert_eq!(vault(1005, 86400).settlement(&config, 0), Settlement { fee: 100, payout: 905 });
    assert_eq!(vault(0, 86400).settlement(&config, 0), Settlement { fee: 0, payout: 0 });
    let quarter = VaultConfig::new(100, 1, 4).unwrap();
    assert_eq!(vault(1001, 86400).settlement(&quarter, 0), Settlement { fee: 250, payout: 751 });
}

#[test]
fn drain_empties_and_keeps_the_rest() {
    assert_eq!(vault(1000, 86400).drain(), vault(0, 86400));
    assert_eq!(vault(0, 86400).drain(), vault(0, 86400));
}

#[test]
fn custody_seeds_are_tag_owner_and_bump() {
    let mut bytes = [0u8; 32];
    for i in 0..32 {
        bytes[i] = i as u8;
    }
    let owner = AccountKey::new(bytes);
    let seeds = Authority::Custody { owner, bump: 253 }.signer_seeds();
    assert_eq!(seeds, vec![b"vault".to_vec(), bytes.to_vec(), vec![253u8]]);
}

#[test]
fn owner_signs_without_seeds() {
    assert!(Authority::Owner(key(1)).signer_seeds().is_empty());
}

#[test]
fn new_controller_has_no_records() {
    let controller = VaultController::new(VaultConfig::reference());
    assert!(controller.records().is_empty());
    assert_eq!(controller.lookup(&key(1)), None);
    assert_eq!(controller.config(), VaultConfig::reference());
}

#[test]
fn records_of_distinct_owners_are_taken_over() {
    let a = Vault { owner: key(1), bump: 1, balance: 10, unlock_time: 5 };
    let b = Vault { owner: key(2), bump: 2, balance: 20, unlock_time: 6 };
    let controller = VaultController::with_records(VaultConfig::reference(), vec![a, b]).unwrap();
    assert_eq!(controller.lookup(&key(1)), Some(a));
    assert_eq!(controller.lookup(&key(2)), Some(b));
    assert_eq!(controller.lookup(&key(3)), None);
    assert_eq!(controller.records(), &vec![a, b]);
}

#[test]
fn two_records_of_one_owner_are_refused() {
    let a = Vault { owner: key(1), bump: 1, balance: 10, unlock_time: 5 };
    let b = Vault { owner: key(2), bump: 2, balance: 20, unlock_time: 6 };
    let c = Vault { owner: key(1), bump: 3, balance: 30, unlock_time: 7 };
    assert!(VaultController::with_records(VaultConfig::reference(), vec![a, b, c]).is_none());
    assert!(VaultController::with_records(VaultConfig::reference(), vec![a, a]).is_none());
    assert!(VaultController::with_records(VaultConfig::reference(), vec![b, a, c]).is_none());
    assert!(VaultController::with_records(VaultConfig::reference(), vec![]).is_some());
    assert!(VaultController::with_records(VaultConfig::reference(), vec![c]).is_some());
}
