use vstd::prelude::*;

use crate::error::AmmError;
use crate::lock::lock_outcome;
use crate::state::{Config, Pubkey};
use crate::constants::CURVE_DECIMALS;
use crate::swap::{swap_precheck, LiquidityPair, PlanModel, Swap, SwapResult, TransferModel};

verus! {

/// Balances of token accounts, by address.
pub type Balances = Map<Pubkey, int>;

/// The balances after `t` moves its amount from `t.from` to `t.to`.
pub open spec fn after_transfer(b: Balances, t: TransferModel) -> Balances {
    let moved = b.insert(t.from, b[t.from] - t.amount);
    moved.insert(t.to, moved[t.to] + t.amount)
}

/// The balances after the transfers of a swap plan, made in order.
pub open spec fn after_plan(b: Balances, p: PlanModel) -> Balances {
    let b1 = after_transfer(b, p.vault_deposit);
    let b2 = match p.treasury_deposit {
        Some(t) => after_transfer(b1, t),
        None => b1,
    };
    after_transfer(b2, p.withdrawal)
}

/// A locked pool refuses to be locked again, whoever signs.
pub proof fn law_locked_pool_refuses_lock(config: Config, signer: Pubkey)
    requires
        config.locked,
    ensures
        lock_outcome(config, signer) == Err::<Config, AmmError>(AmmError::AlreadyLocked),
{
}

/// Locking twice is rejected: once a lock succeeds, every further lock
/// fails with `AlreadyLocked`.
pub proof fn law_lock_only_once(config: Config, first: Pubkey, second: Pubkey)
    requires
        lock_outcome(config, first) is Ok,
    ensures
        lock_outcome(config, first)->Ok_0.locked,
        lock_outcome(lock_outcome(config, first)->Ok_0, second) == Err::<Config, AmmError>(
            AmmError::AlreadyLocked,
        ),
{
}

/// A pool without an authority can never be locked: every lock fails.
pub proof fn law_no_authority_never_locks(config: Config, signer: Pubkey)
    requires
        config.authority is None,
    ensures
        lock_outcome(config, signer) is Err,
{
}

/// Only the pool's authority can lock it: a lock succeeds only for the
/// stored authority, and every other signer is refused.
pub proof fn law_only_the_authority_locks(config: Config, signer: Pubkey)
    ensures
        lock_outcome(config, signer) is Ok ==> config.authority == Some(signer),
        config.authority != Some(signer) ==> lock_outcome(config, signer) is Err,
{
}

/// Locking changes nothing but the `locked` flag.
pub proof fn law_lock_keeps_the_rest(config: Config, signer: Pubkey)
    requires
        lock_outcome(config, signer) is Ok,
    ensures
        lock_outcome(config, signer)->Ok_0 == (Config { locked: true, ..config }),
{
}

/// Once a lock succeeds, every swap on the pool is refused with
/// `PoolLocked`, whatever the curve would answer, and the checks before
/// pricing already refuse it with `PoolLocked`.
pub proof fn law_lock_disables_swap(
    config: Config,
    signer: Pubkey,
    pool: Swap,
    is_x: bool,
    amount: u64,
    curve: Option<SwapResult>,
)
    requires
        lock_outcome(config, signer) is Ok,
        pool.config == lock_outcome(config, signer)->Ok_0,
    ensures
        swap_precheck(pool.config, amount) == Some(AmmError::PoolLocked),
        pool.swap_outcome(is_x, amount, curve) == Err::<PlanModel, AmmError>(AmmError::PoolLocked),
{
}

/// A swap of zero tokens is refused, whatever the curve would answer.
pub proof fn law_zero_swap_refused(pool: Swap, is_x: bool, curve: Option<SwapResult>)
    ensures
        pool.swap_outcome(is_x, 0, curve) is Err,
{
}

/// A swap the curve refuses fails with `SlippageExceeded` on an unlocked
/// pool and a non-zero amount.
pub proof fn law_curve_refusal_is_slippage(pool: Swap, is_x: bool, amount: u64)
    requires
        !pool.config.locked,
        amount > 0,
    ensures
        pool.swap_outcome(is_x, amount, None) == Err::<PlanModel, AmmError>(
            AmmError::SlippageExceeded,
        ),
{
}

/// The user pays exactly what the curve deposits: the vault receives the
/// deposit less half the fee, the treasury account of the input mint
/// receives half the fee (rounded down, and no transfer when that is zero),
/// and the user receives exactly what the curve withdraws.
pub proof fn law_swap_splits_the_input(
    pool: Swap,
    is_x: bool,
    amount: u64,
    res: SwapResult,
)
    requires
        pool.swap_outcome(is_x, amount, Some(res)) is Ok,
    ensures
        ({
            let plan = pool.swap_outcome(is_x, amount, Some(res))->Ok_0;
            let to_treasury: int = match plan.treasury_deposit {
                Some(t) => t.amount as int,
                None => 0,
            };
            &&& plan.vault_deposit.amount + to_treasury == res.deposit
            &&& to_treasury == res.fee / 2
            &&& plan.vault_deposit.amount == res.deposit - res.fee / 2
            &&& plan.vault_deposit.from == pool.user_in(is_x)
            &&& plan.vault_deposit.to == pool.vault_in(is_x)
            &&& (plan.treasury_deposit matches Some(t) ==> t.from == pool.user_in(is_x) && t.to
                == pool.treasury_in(is_x))
            &&& plan.withdrawal.amount == res.withdraw
        }),
{
}

/// Carried out on distinct accounts, a swap moves balances thus: the
/// user's input account loses the deposit, the input vault gains the
/// deposit less half the fee, the input treasury account gains half the
/// fee, the output vault loses the withdrawn amount and the user's output
/// account gains it; every other account keeps its balance.
pub proof fn law_swap_moves_balances(
    pool: Swap,
    is_x: bool,
    amount: u64,
    res: SwapResult,
    b: Balances,
    k: Pubkey,
)
    requires
        pool.swap_outcome(is_x, amount, Some(res)) is Ok,
        pool.user_in(is_x) != pool.vault_in(is_x),
        pool.user_in(is_x) != pool.treasury_in(is_x),
        pool.vault_in(is_x) != pool.treasury_in(is_x),
        pool.vault_transfer(is_x, 0).from != pool.vault_transfer(is_x, 0).to,
        pool.vault_transfer(is_x, 0).from != pool.user_in(is_x),
        pool.vault_transfer(is_x, 0).from != pool.vault_in(is_x),
        pool.vault_transfer(is_x, 0).from != pool.treasury_in(is_x),
        pool.vault_transfer(is_x, 0).to != pool.user_in(is_x),
        pool.vault_transfer(is_x, 0).to != pool.vault_in(is_x),
        pool.vault_transfer(is_x, 0).to != pool.treasury_in(is_x),
    ensures
        ({
            let after = after_plan(b, pool.swap_outcome(is_x, amount, Some(res))->Ok_0);
            let fee_share = res.fee / 2;
            let vault_out = pool.vault_transfer(is_x, 0).from;
            let user_out = pool.vault_transfer(is_x, 0).to;
            &&& after[pool.user_in(is_x)] == b[pool.user_in(is_x)] - res.deposit
            &&& after[pool.vault_in(is_x)] == b[pool.vault_in(is_x)] + res.deposit - fee_share
            &&& after[pool.treasury_in(is_x)] == b[pool.treasury_in(is_x)] + fee_share
            &&& after[vault_out] == b[vault_out] - res.withdraw
            &&& after[user_out] == b[user_out] + res.withdraw
            &&& (k != pool.user_in(is_x) && k != pool.vault_in(is_x) && k != pool.treasury_in(is_x)
                && k != vault_out && k != user_out) ==> after[k] == b[k]
        }),
{
}

/// The user's account of the input mint, the vault of the input mint and
/// the treasury's account of the input mint: X accounts for an X deposit,
/// Y accounts otherwise.
pub proof fn law_input_accounts_follow_the_side(pool: Swap, is_x: bool)
    ensures
        is_x ==> pool.user_in(is_x) == pool.user_x.key && pool.vault_in(is_x) == pool.vault_x.key
            && pool.treasury_in(is_x) == pool.treasury_x.key,
        !is_x ==> pool.user_in(is_x) == pool.user_y.key && pool.vault_in(is_x) == pool.vault_y.key
            && pool.treasury_in(is_x) == pool.treasury_y.key,
{
}

/// The authority of an unlocked pool can always lock it, whatever the other
/// fields of the config hold: the result is the same config with `locked` set.
pub proof fn law_authority_locks_unlocked_pool(config: Config, signer: Pubkey)
    requires
        !config.locked,
        config.authority == Some(signer),
    ensures
        lock_outcome(config, signer) == Ok::<Config, AmmError>(Config { locked: true, ..config }),
{
}

/// Which error a refused lock reports: `AlreadyLocked` for a locked pool,
/// else `NoAuthoritySet` without an authority, else `InvalidAuthority` for
/// a signer other than the authority; and a lock is refused exactly then.
pub proof fn law_lock_refusals(config: Config, signer: Pubkey)
    ensures
        config.locked ==> lock_outcome(config, signer) == Err::<Config, AmmError>(
            AmmError::AlreadyLocked,
        ),
        !config.locked && config.authority is None ==> lock_outcome(config, signer) == Err::<
            Config,
            AmmError,
        >(AmmError::NoAuthoritySet),
        !config.locked && config.authority is Some && config.authority != Some(signer)
            ==> lock_outcome(config, signer) == Err::<Config, AmmError>(AmmError::InvalidAuthority),
        lock_outcome(config, signer) is Err <==> (config.locked || config.authority != Some(signer)),
{
}

/// The checks before pricing refuse a swap exactly on a locked pool
/// (`PoolLocked`) or a zero amount (`InvalidAmount`, on an unlocked pool);
/// every non-zero amount on an unlocked pool passes them.
pub proof fn law_swap_checks(config: Config, amount: u64)
    ensures
        config.locked ==> swap_precheck(config, amount) == Some(AmmError::PoolLocked),
        !config.locked && amount == 0 ==> swap_precheck(config, amount) == Some(
            AmmError::InvalidAmount,
        ),
        !config.locked && amount > 0 ==> swap_precheck(config, amount) is None,
{
}

/// What the curve is handed: the X vault's amount as `x` and the Y vault's
/// as `y` whichever side is swapped, the LP supply, the configured fee, the
/// curve's decimals, the side (X exactly when `is_x`), the amount and the
/// minimum.
pub proof fn law_curve_request_contents(pool: Swap, is_x: bool, amount: u64, min: u64)
    ensures
        ({
            let r = pool.request_for(is_x, amount, min);
            &&& r.x == pool.vault_x.amount
            &&& r.y == pool.vault_y.amount
            &&& r.l == pool.mint_lp.supply
            &&& r.fee == pool.config.fee
            &&& r.decimals == CURVE_DECIMALS
            &&& r.decimals == 6
            &&& (r.pair == LiquidityPair::X) == is_x
            &&& (r.pair == LiquidityPair::Y) == !is_x
            &&& r.amount == amount
            &&& r.min == min
        }),
{
}

/// A transfer out of the user's accounts is made by the token program,
/// authorised by the swapping user, with no program signature.
pub proof fn law_user_transfer_signed_by_user(pool: Swap, from: Pubkey, to: Pubkey, amount: u64)
    ensures
        pool.user_transfer(from, to, amount) == (TransferModel {
            program: pool.token_program,
            from,
            to,
            authority: pool.user,
            amount,
            signer_seeds: Seq::empty(),
        }),
{
}

/// The output of a swap is paid by the token program out of the vault of
/// the other mint into the user's account of that mint, authorised by the
/// config account, for which the program signs with the seeds `config`,
/// the pool's seed as 8 little-endian bytes, and the config's bump.
pub proof fn law_output_transfer(pool: Swap, is_x: bool, amount: u64)
    ensures
        ({
            let t = pool.vault_transfer(is_x, amount);
            &&& t.program == pool.token_program
            &&& t.from == (if is_x { pool.vault_y.key } else { pool.vault_x.key })
            &&& t.to == (if is_x { pool.user_y.key } else { pool.user_x.key })
            &&& t.authority == pool.config_key
            &&& t.amount == amount
            &&& t.signer_seeds.len() == 3
            &&& t.signer_seeds[0] == seq![0x63u8, 0x6f, 0x6e, 0x66, 0x69, 0x67]
            &&& t.signer_seeds[1] == vstd::bytes::spec_u64_to_le_bytes(pool.config.seed)
            &&& t.signer_seeds[1].len() == 8
            &&& vstd::bytes::spec_u64_from_le_bytes(t.signer_seeds[1]) == pool.config.seed
            &&& t.signer_seeds[2] == seq![pool.config.config_bump]
        }),
{
    vstd::bytes::lemma_auto_spec_u64_to_from_le_bytes();
    assert(pool.vault_transfer(is_x, amount).signer_seeds[0] =~= seq![0x63u8, 0x6f, 0x6e, 0x66, 0x69, 0x67]);
}

/// The refusals of a swap, case by case: a locked pool gives `PoolLocked`;
/// else a zero amount gives `InvalidAmount`; else a curve refusal gives
/// `SlippageExceeded`.
pub proof fn law_swap_refusals(pool: Swap, is_x: bool, amount: u64, curve: Option<SwapResult>)
    ensures
        pool.config.locked ==> pool.swap_outcome(is_x, amount, curve) == Err::<PlanModel, AmmError>(
            AmmError::PoolLocked,
        ),
        !pool.config.locked && amount == 0 ==> pool.swap_outcome(is_x, amount, curve) == Err::<
            PlanModel,
            AmmError,
        >(AmmError::InvalidAmount),
        !pool.config.locked && amount > 0 && curve is None ==> pool.swap_outcome(is_x, amount, curve)
            == Err::<PlanModel, AmmError>(AmmError::SlippageExceeded),
{
}

/// A swap the curve accepts, on an unlocked pool and a non-zero amount: a
/// deposit below half the fee gives `Underflow`; otherwise the swap is
/// carried out: the user pays the deposit less half the fee into the input
/// vault and half the fee (when not zero) into the treasury's account of
/// the input mint, both signed by the user, and the curve's output is paid
/// out of the other vault on the config's authority.
pub proof fn law_swap_priced(pool: Swap, is_x: bool, amount: u64, res: SwapResult)
    requires
        !pool.config.locked,
        amount > 0,
    ensures
        res.deposit < res.fee / 2 ==> pool.swap_outcome(is_x, amount, Some(res)) == Err::<
            PlanModel,
            AmmError,
        >(AmmError::Underflow),
        res.deposit >= res.fee / 2 ==> {
            let user_in = if is_x { pool.user_x.key } else { pool.user_y.key };
            let vault_in = if is_x { pool.vault_x.key } else { pool.vault_y.key };
            let treasury_in = if is_x { pool.treasury_x.key } else { pool.treasury_y.key };
            let out = pool.swap_outcome(is_x, amount, Some(res));
            &&& out is Ok
            &&& out->Ok_0.vault_deposit == (TransferModel {
                program: pool.token_program,
                from: user_in,
                to: vault_in,
                authority: pool.user,
                amount: (res.deposit - res.fee / 2) as u64,
                signer_seeds: Seq::empty(),
            })
            &&& out->Ok_0.treasury_deposit == (if res.fee / 2 > 0 {
                Some(
                    TransferModel {
                        program: pool.token_program,
                        from: user_in,
                        to: treasury_in,
                        authority: pool.user,
                        amount: res.fee / 2,
                        signer_seeds: Seq::empty(),
                    },
                )
            } else {
                None
            })
            &&& out->Ok_0.withdrawal.from == (if is_x { pool.vault_y.key } else { pool.vault_x.key })
            &&& out->Ok_0.withdrawal.to == (if is_x { pool.user_y.key } else { pool.user_x.key })
            &&& out->Ok_0.withdrawal.amount == res.withdraw
            &&& out->Ok_0.withdrawal.authority == pool.config_key
            &&& out->Ok_0.withdrawal.program == pool.token_program
            &&& out->Ok_0.withdrawal.signer_seeds == seq![
                seq![0x63u8, 0x6f, 0x6e, 0x66, 0x69, 0x67],
                vstd::bytes::spec_u64_to_le_bytes(pool.config.seed),
                seq![pool.config.config_bump],
            ]
        },
{
}

/// A swap the curve accepts on an unlocked pool and a non-zero amount goes
/// through exactly when the deposit covers half the fee, whatever the size
/// of the amount.
pub proof fn law_swap_goes_through(pool: Swap, is_x: bool, amount: u64, res: SwapResult)
    requires
        !pool.config.locked,
        amount > 0,
    ensures
        pool.swap_outcome(is_x, amount, Some(res)) is Ok <==> res.deposit >= res.fee / 2,
{
}

} // verus!
