use amm_video::error::AmmError;
use amm_video::lock::Lock;
use amm_video::state::{Config, Pubkey};

const SEED: u64 = 123;
const FEE_BPS: u16 = 30;

fn key(b: u8) -> Pubkey {
    Pubkey::new_from_array([b; 32])
}

fn config(authority: Option<Pubkey>) -> Config {
    Config {
        seed: SEED,
        authority,
        mint_x: key(10),
        mint_y: key(11),
        fee: FEE_BPS,
        treasury: key(12),
        locked: false,
        config_bump: 254,
        lp_bump: 253,
    }
}

#[test]
fn test_lock_rejects_non_authority() {
    let payer = key(1);
    let intruder = key(2);
    let mut ix = Lock { authority: intruder, config: config(Some(payer)) };
    let res = ix.lock();
    assert!(res.is_err(), "lock by non-authority must fail");
    assert_eq!(res, Err(AmmError::InvalidAuthority));
    assert!(!ix.config.locked);
}

#[test]
fn test_lock_disables_pool() {
    let payer = key(1);
    let mut ix = Lock { authority: payer, config: config(Some(payer)) };
    let res = ix.lock();
    assert!(res.is_ok(), "lock failed: {:?}", res.err());
    assert!(ix.config.locked);

    // Locking twice is rejected.
    let res = ix.lock();
    assert!(res.is_err(), "double lock must fail");
    assert_eq!(res, Err(AmmError::AlreadyLocked));
    assert!(ix.config.locked);
}

#[test]
fn test_lock_rejects_missing_authority() {
    // A pool initialized with `authority: None` can never be locked.
    let payer = key(1);
    let mut ix = Lock { authority: payer, config: config(None) };
    let res = ix.lock();
    assert!(res.is_err(), "lock without an authority must fail");
    assert_eq!(res, Err(AmmError::NoAuthoritySet));
    assert!(!ix.config.locked);
    assert_eq!(ix.lock(), Err(AmmError::NoAuthoritySet));
}

#[test]
fn lock_changes_only_the_flag() {
    let payer = key(1);
    let before = config(Some(payer));
    let mut ix = Lock { authority: payer, config: before };
    assert_eq!(ix.lock(), Ok(()));
    let expected = Config { locked: true, ..before };
    assert_eq!(ix.config, expected);
    assert_eq!(ix.authority, payer);
}

#[test]
fn pubkeys_compare_by_every_byte() {
    let mut a = [7u8; 32];
    let b = a;
    assert_eq!(Pubkey::new_from_array(a), Pubkey::new_from_array(b));
    a[31] = 8;
    assert_ne!(Pubkey::new_from_array(a), Pubkey::new_from_array(b));
    assert_eq!(Pubkey::new_from_array(a).to_bytes(), a);
}
