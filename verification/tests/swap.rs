use amm_video::constants::{CURVE_DECIMALS, PRECISION, SEED};
use amm_video::error::AmmError;
use amm_video::lock::Lock;
use amm_video::state::{Config, Mint, Pubkey, TokenAccount};
use amm_video::swap::{config_signer_seeds, LiquidityPair, Swap, SwapPlan, SwapResult, TokenTransfer};
use std::collections::HashMap;

const POOL_SEED: u64 = 123;
const FEE_BPS: u16 = 30; // 0.30%
const GENESIS_LP: u64 = 100_000_000;
const GENESIS_X: u64 = 200_000_000;
const GENESIS_Y: u64 = 200_000_000;
const USER_FUNDS: u64 = 1_000_000_000;
const CONFIG_BUMP: u8 = 254;

fn key(b: u8) -> Pubkey {
    Pubkey::new_from_array([b; 32])
}

fn account(b: u8, amount: u64) -> TokenAccount {
    TokenAccount { key: key(b), amount }
}

/// A pool after the genesis deposit (100M LP for 200M X + 200M Y), with a
/// user holding what is left of 1_000_000_000 of each mint.
fn pool() -> Swap {
    let payer = key(1);
    Swap {
        user: payer,
        mint_x: key(10),
        mint_y: key(11),
        config_key: key(20),
        config: Config {
            seed: POOL_SEED,
            authority: Some(payer),
            mint_x: key(10),
            mint_y: key(11),
            fee: FEE_BPS,
            treasury: key(12),
            locked: false,
            config_bump: CONFIG_BUMP,
            lp_bump: 253,
        },
        mint_lp: Mint { key: key(21), supply: GENESIS_LP },
        vault_x: account(30, GENESIS_X),
        vault_y: account(31, GENESIS_Y),
        user_x: account(40, USER_FUNDS - GENESIS_X),
        user_y: account(41, USER_FUNDS - GENESIS_Y),
        treasury: key(12),
        treasury_x: account(50, 0),
        treasury_y: account(51, 0),
        token_program: key(60),
    }
}

fn balances(p: &Swap) -> HashMap<Pubkey, i128> {
    let mut b = HashMap::new();
    for a in [p.vault_x, p.vault_y, p.user_x, p.user_y, p.treasury_x, p.treasury_y] {
        b.insert(a.key, a.amount as i128);
    }
    b
}

fn apply(b: &mut HashMap<Pubkey, i128>, t: &TokenTransfer) {
    *b.get_mut(&t.from).unwrap() -= t.amount as i128;
    *b.get_mut(&t.to).unwrap() += t.amount as i128;
}

fn apply_plan(b: &mut HashMap<Pubkey, i128>, plan: &SwapPlan) {
    apply(b, &plan.vault_deposit);
    if let Some(t) = &plan.treasury_deposit {
        apply(b, t);
    }
    apply(b, &plan.withdrawal);
}

fn seed_bytes() -> Vec<Vec<u8>> {
    vec![b"config".to_vec(), POOL_SEED.to_le_bytes().to_vec(), vec![CONFIG_BUMP]]
}

#[test]
fn test_swap_x_for_y() {
    let p = pool();
    let amount_in = 10_000_000u64;
    let req = p.curve_request(true, amount_in, 1).unwrap();
    assert_eq!(req.x, GENESIS_X);
    assert_eq!(req.y, GENESIS_Y);
    assert_eq!(req.l, GENESIS_LP);
    assert_eq!(req.fee, FEE_BPS);
    assert_eq!(req.pair, LiquidityPair::X);

    // The curve's answer for this request: the whole input is deposited,
    // the fee is 10M * 30 / 10_000 = 30_000, and some Y is paid out.
    let curve = SwapResult { deposit: amount_in, withdraw: 9_800_000, fee: 30_000 };
    let plan = p.swap(true, amount_in, 1, Some(curve));
    assert!(plan.is_ok(), "swap X->Y failed: {:?}", plan.as_ref().err());
    let plan = plan.unwrap();

    let expected_treasury_fee = (amount_in * FEE_BPS as u64 / 10_000) / 2;
    assert_eq!(expected_treasury_fee, 15_000);

    let mut b = balances(&p);
    apply_plan(&mut b, &plan);
    assert_eq!(b[&p.treasury_x.key], expected_treasury_fee as i128);
    assert_eq!(b[&p.vault_x.key], (GENESIS_X + amount_in - expected_treasury_fee) as i128);
    // Taker received Y and spent exactly `amount_in` of X.
    assert!(b[&p.user_y.key] > (USER_FUNDS - GENESIS_Y) as i128);
    assert_eq!(b[&p.user_x.key], (USER_FUNDS - GENESIS_X - amount_in) as i128);
    assert_eq!(b[&p.vault_y.key], (GENESIS_Y - 9_800_000) as i128);
    assert_eq!(b[&p.treasury_y.key], 0);

    // The input is signed for by the user, the output by the program.
    assert_eq!(plan.vault_deposit.authority, p.user);
    assert!(plan.vault_deposit.signer_seeds.is_empty());
    assert_eq!(plan.withdrawal.authority, p.config_key);
    assert_eq!(plan.withdrawal.signer_seeds, seed_bytes());
    assert_eq!(plan.withdrawal.program, p.token_program);
}

#[test]
fn test_swap_y_for_x() {
    let p = pool();
    let amount_in = 10_000_000u64;
    let req = p.curve_request(false, amount_in, 1).unwrap();
    assert_eq!(req.pair, LiquidityPair::Y);
    let curve = SwapResult { deposit: amount_in, withdraw: 9_800_000, fee: 30_000 };
    let plan = p.swap(false, amount_in, 1, Some(curve));
    assert!(plan.is_ok(), "swap Y->X failed: {:?}", plan.as_ref().err());
    let plan = plan.unwrap();

    let expected_treasury_fee = (amount_in * FEE_BPS as u64 / 10_000) / 2;
    let mut b = balances(&p);
    apply_plan(&mut b, &plan);
    assert_eq!(b[&p.treasury_y.key], expected_treasury_fee as i128);
    assert_eq!(b[&p.vault_y.key], (GENESIS_Y + amount_in - expected_treasury_fee) as i128);
    assert!(b[&p.user_x.key] > (USER_FUNDS - GENESIS_X) as i128);
    assert_eq!(b[&p.user_y.key], (USER_FUNDS - GENESIS_Y - amount_in) as i128);
    assert_eq!(b[&p.treasury_x.key], 0);
}

#[test]
fn test_swap_rejects_slippage() {
    let p = pool();
    // With a minimum of u64::MAX the curve refuses the swap.
    let req = p.curve_request(true, 10_000_000, u64::MAX).unwrap();
    assert_eq!(req.min, u64::MAX);
    let res = p.swap(true, 10_000_000, u64::MAX, None);
    assert!(res.is_err(), "swap breaching min_amount_out must fail");
    assert_eq!(res.err(), Some(AmmError::SlippageExceeded));
}

#[test]
fn test_swap_rejects_zero_amount() {
    let p = pool();
    let res = p.swap(true, 0, 0, None);
    assert!(res.is_err(), "zero-amount swap must fail");
    assert_eq!(res.err(), Some(AmmError::InvalidAmount));
    assert_eq!(p.curve_request(true, 0, 0), Err(AmmError::InvalidAmount));
}

#[test]
fn locked_pool_refuses_swap() {
    let p = pool();
    let mut lock = Lock { authority: p.user, config: p.config };
    assert_eq!(lock.lock(), Ok(()));
    let locked = Swap { config: lock.config, ..pool() };
    let curve = SwapResult { deposit: 1_000_000, withdraw: 990_000, fee: 3_000 };
    assert_eq!(locked.swap(true, 1_000_000, 0, Some(curve)).err(), Some(AmmError::PoolLocked));
    assert_eq!(locked.curve_request(true, 1_000_000, 0), Err(AmmError::PoolLocked));
    // Locked takes precedence over a zero amount.
    assert_eq!(locked.curve_request(true, 0, 0), Err(AmmError::PoolLocked));
}

#[test]
fn curve_request_hands_over_the_pool() {
    let p = pool();
    let req = p.curve_request(false, 5, 4).unwrap();
    assert_eq!(req.decimals, CURVE_DECIMALS);
    assert_eq!(10u32.pow(req.decimals as u32), PRECISION);
    assert_eq!((req.x, req.y, req.l, req.fee, req.amount, req.min), (GENESIS_X, GENESIS_Y, GENESIS_LP, FEE_BPS, 5, 4));
    assert_eq!(SEED, "anchor");
}

#[test]
fn small_fee_skips_the_treasury() {
    let p = pool();
    let curve = SwapResult { deposit: 100, withdraw: 90, fee: 1 };
    let plan = p.swap(true, 100, 1, Some(curve)).unwrap();
    assert!(plan.treasury_deposit.is_none());
    assert_eq!(plan.vault_deposit.amount, 100);
    assert_eq!(plan.vault_deposit.from, p.user_x.key);
    assert_eq!(plan.vault_deposit.to, p.vault_x.key);
    assert_eq!(plan.withdrawal.from, p.vault_y.key);
    assert_eq!(plan.withdrawal.to, p.user_y.key);
    assert_eq!(plan.withdrawal.amount, 90);
}

#[test]
fn fee_share_above_deposit_underflows() {
    let p = pool();
    let curve = SwapResult { deposit: 10, withdraw: 9, fee: 22 };
    assert_eq!(p.swap(true, 10, 1, Some(curve)).err(), Some(AmmError::Underflow));
    // Exactly half the fee is still fine.
    let curve = SwapResult { deposit: 11, withdraw: 9, fee: 22 };
    let plan = p.swap(true, 11, 1, Some(curve)).unwrap();
    assert_eq!(plan.vault_deposit.amount, 0);
    assert_eq!(plan.treasury_deposit.unwrap().amount, 11);
}

#[test]
fn deposit_and_withdraw_transfers() {
    let p = pool();
    let t = p.deposit_to(p.user_y.key, p.treasury_y.key, 77);
    assert_eq!((t.from, t.to, t.authority, t.amount, t.program), (p.user_y.key, p.treasury_y.key, p.user, 77, p.token_program));
    assert!(t.signer_seeds.is_empty());
    let w = p.withdraw_tokens(false, 5);
    assert_eq!((w.from, w.to, w.authority, w.amount), (p.vault_x.key, p.user_x.key, p.config_key, 5));
    assert_eq!(w.signer_seeds, seed_bytes());
}

#[test]
fn config_seeds_are_tag_seed_and_bump() {
    let s = config_signer_seeds(0x0102_0304_0506_0708, 9);
    assert_eq!(s, vec![b"config".to_vec(), vec![8, 7, 6, 5, 4, 3, 2, 1], vec![9]]);
}
