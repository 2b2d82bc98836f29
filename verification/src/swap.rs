use vstd::prelude::*;

use crate::constants::CURVE_DECIMALS;
use crate::error::AmmError;
use crate::state::{Config, Mint, Pubkey, TokenAccount};

verus! {

/// The side of the pool that a swap deposits into.
#[derive(Debug, Clone, Copy, PartialEq, Eq, Structural)]
pub enum LiquidityPair {
    X,
    Y,
}

/// What the pool hands to the constant-product curve to price a swap:
/// the reserves, the LP supply, the fee, the curve's decimals, and the
/// trade itself.
#[derive(Debug, Clone, Copy, PartialEq, Eq, Structural)]
pub struct CurveRequest {
    /// Amount of X in the pool.
    pub x: u64,
    /// Amount of Y in the pool.
    pub y: u64,
    /// Supply of LP tokens.
    pub l: u64,
    /// Swap fee in basis points.
    pub fee: u16,
    /// Decimals the curve is initialised with.
    pub decimals: u8,
    /// The side the user deposits into.
    pub pair: LiquidityPair,
    /// Amount the user deposits.
    pub amount: u64,
    /// Least amount the user accepts in return.
    pub min: u64,
}

/// What the curve reports for a swap it accepts.
#[derive(Debug, Clone, Copy, PartialEq, Eq, Structural)]
pub struct SwapResult {
    /// Amount taken from the user (in the input mint).
    pub deposit: u64,
    /// Amount paid to the user (in the output mint).
    pub withdraw: u64,
    /// Fee charged on the deposit (in the input mint).
    pub fee: u64,
}

/// A token transfer as a plain value.
pub struct TransferModel {
    pub program: Pubkey,
    pub from: Pubkey,
    pub to: Pubkey,
    pub authority: Pubkey,
    pub amount: u64,
    pub signer_seeds: Seq<Seq<u8>>,
}

/// A transfer of `amount` tokens from `from` to `to`, authorised by
/// `authority`; when `signer_seeds` is not empty, the program signs for the
/// authority with those seeds.
pub struct TokenTransfer {
    /// The token program that performs the transfer.
    pub program: Pubkey,
    pub from: Pubkey,
    pub to: Pubkey,
    pub authority: Pubkey,
    pub amount: u64,
    pub signer_seeds: Vec<Vec<u8>>,
}

impl View for TokenTransfer {
    type V = TransferModel;

    open spec fn view(&self) -> TransferModel {
        TransferModel {
            program: self.program,
            from: self.from,
            to: self.to,
            authority: self.authority,
            amount: self.amount,
            signer_seeds: self.signer_seeds@.map_values(|v: Vec<u8>| v@),
        }
    }
}

/// The transfers of a swap, as plain values.
pub struct PlanModel {
    pub vault_deposit: TransferModel,
    pub treasury_deposit: Option<TransferModel>,
    pub withdrawal: TransferModel,
}

/// The transfers that carry out a swap, in the order they are made:
/// the pool's share of the input into the vault, the protocol's share of
/// the fee into the treasury (when it is not zero), and the output out of
/// the opposite vault.
pub struct SwapPlan {
    pub vault_deposit: TokenTransfer,
    pub treasury_deposit: Option<TokenTransfer>,
    pub withdrawal: TokenTransfer,
}

impl View for SwapPlan {
    type V = PlanModel;

    open spec fn view(&self) -> PlanModel {
        PlanModel {
            vault_deposit: self.vault_deposit@,
            treasury_deposit: match self.treasury_deposit {
                Some(t) => Some(t@),
                None => None,
            },
            withdrawal: self.withdrawal@,
        }
    }
}

/// The ASCII bytes of `config`, the first seed of the config account's address.
pub open spec fn config_tag() -> Seq<u8> {
    seq![0x63u8, 0x6f, 0x6e, 0x66, 0x69, 0x67]
}

/// The seeds with which the program signs for the config account.
pub open spec fn config_seeds(seed: u64, bump: u8) -> Seq<Seq<u8>> {
    seq![config_tag(), vstd::bytes::spec_u64_to_le_bytes(seed), seq![bump]]
}

/// The seeds with which the program signs for the config account of the
/// pool with `seed` and bump `bump`: `config`, the seed's little-endian
/// bytes, and the bump.
pub fn config_signer_seeds(seed: u64, bump: u8) -> (seeds: Vec<Vec<u8>>)
    ensures
        seeds@.map_values(|v: Vec<u8>| v@) == config_seeds(seed, bump),
{
    let tag: Vec<u8> = vec![0x63u8, 0x6f, 0x6e, 0x66, 0x69, 0x67];
    let seed_bytes: Vec<u8> = vstd::bytes::u64_to_le_bytes(seed);
    let bump_bytes: Vec<u8> = vec![bump];
    let mut seeds: Vec<Vec<u8>> = Vec::new();
    seeds.push(tag);
    seeds.push(seed_bytes);
    seeds.push(bump_bytes);
    assert(seeds@[0]@ =~= config_tag());
    assert(seeds@[2]@ =~= seq![bump]);
    assert(seeds@.map_values(|v: Vec<u8>| v@) =~= config_seeds(seed, bump));
    seeds
}

/// The half of the swap fee that goes to the protocol treasury; the other
/// half stays in the pool as a reward for LPs.
pub open spec fn treasury_share(fee: u64) -> u64 {
    fee / 2
}

/// The accounts of the `swap` instruction, by what the swap reads of them.
pub struct Swap {
    /// The user who swaps (and signs).
    pub user: Pubkey,
    pub mint_x: Pubkey,
    pub mint_y: Pubkey,
    /// Address of the config account.
    pub config_key: Pubkey,
    pub config: Config,
    pub mint_lp: Mint,
    /// The pool's X vault.
    pub vault_x: TokenAccount,
    /// The pool's Y vault.
    pub vault_y: TokenAccount,
    /// The user's X account.
    pub user_x: TokenAccount,
    /// The user's Y account.
    pub user_y: TokenAccount,
    /// Protocol fee recipient stored on the config.
    pub treasury: Pubkey,
    /// The treasury's X account.
    pub treasury_x: TokenAccount,
    /// The treasury's Y account.
    pub treasury_y: TokenAccount,
    pub token_program: Pubkey,
}

/// The error that the checks before pricing a swap raise, if any.
pub open spec fn swap_precheck(config: Config, amount: u64) -> Option<AmmError> {
    if config.locked {
        Some(AmmError::PoolLocked)
    } else if amount == 0 {
        Some(AmmError::InvalidAmount)
    } else {
        None
    }
}

impl Swap {
    /// The request the pool hands to the curve for this swap.
    pub open spec fn request_for(self, is_x: bool, amount: u64, min: u64) -> CurveRequest {
        CurveRequest {
            x: self.vault_x.amount,
            y: self.vault_y.amount,
            l: self.mint_lp.supply,
            fee: self.config.fee,
            decimals: CURVE_DECIMALS,
            pair: if is_x { LiquidityPair::X } else { LiquidityPair::Y },
            amount,
            min,
        }
    }

    /// A transfer out of one of the user's accounts, signed by the user.
    pub open spec fn user_transfer(self, from: Pubkey, to: Pubkey, amount: u64) -> TransferModel {
        TransferModel {
            program: self.token_program,
            from,
            to,
            authority: self.user,
            amount,
            signer_seeds: Seq::empty(),
        }
    }

    /// The transfer that pays a swap's output: out of the vault of the
    /// other mint into the user's account of that mint, signed by the
    /// program for the config account.
    pub open spec fn vault_transfer(self, is_x: bool, amount: u64) -> TransferModel {
        TransferModel {
            program: self.token_program,
            from: if is_x { self.vault_y.key } else { self.vault_x.key },
            to: if is_x { self.user_y.key } else { self.user_x.key },
            authority: self.config_key,
            amount,
            signer_seeds: config_seeds(self.config.seed, self.config.config_bump),
        }
    }

    /// The user's account of the input mint.
    pub open spec fn user_in(self, is_x: bool) -> Pubkey {
        if is_x { self.user_x.key } else { self.user_y.key }
    }

    /// The vault of the input mint.
    pub open spec fn vault_in(self, is_x: bool) -> Pubkey {
        if is_x { self.vault_x.key } else { self.vault_y.key }
    }

    /// The treasury's account of the input mint (the fee is denominated in it).
    pub open spec fn treasury_in(self, is_x: bool) -> Pubkey {
        if is_x { self.treasury_x.key } else { self.treasury_y.key }
    }

    /// What a swap yields once the curve has answered: `curve` is the curve's
    /// result for `request_for(is_x, amount, min)`, `None` where it refused.
    pub open spec fn swap_outcome(
        self,
        is_x: bool,
        amount: u64,
        curve: Option<SwapResult>,
    ) -> Result<PlanModel, AmmError> {
        match swap_precheck(self.config, amount) {
            Some(e) => Err(e),
            None => match curve {
                None => Err(AmmError::SlippageExceeded),
                Some(res) => {
                    let fee_share = treasury_share(res.fee);
                    if res.deposit < fee_share {
                        Err(AmmError::Underflow)
                    } else {
                        Ok(PlanModel {
                            vault_deposit: self.user_transfer(
                                self.user_in(is_x),
                                self.vault_in(is_x),
                                (res.deposit - fee_share) as u64,
                            ),
                            treasury_deposit: if fee_share > 0 {
                                Some(self.user_transfer(self.user_in(is_x), self.treasury_in(is_x), fee_share))
                            } else {
                                None
                            },
                            withdrawal: self.vault_transfer(is_x, res.withdraw),
                        })
                    }
                },
            },
        }
    }

    /// Checks that a swap may be priced, and gives what the pool hands to
    /// the curve: the vault reserves, the LP supply, the configured fee, the
    /// curve's decimals and the trade.
    pub fn curve_request(&self, is_x: bool, amount: u64, min: u64) -> (r: Result<CurveRequest, AmmError>)
        ensures
            match swap_precheck(self.config, amount) {
                Some(e) => r == Err::<CurveRequest, AmmError>(e),
                None => r == Ok::<CurveRequest, AmmError>(self.request_for(is_x, amount, min)),
            },
    {
        if self.config.locked {
            return Err(AmmError::PoolLocked);
        }
        if amount == 0 {
            return Err(AmmError::InvalidAmount);
        }
        let pair = if is_x { LiquidityPair::X } else { LiquidityPair::Y };
        Ok(CurveRequest {
            x: self.vault_x.amount,
            y: self.vault_y.amount,
            l: self.mint_lp.supply,
            fee: self.config.fee,
            decimals: CURVE_DECIMALS,
            pair,
            amount,
            min,
        })
    }

    /// Swaps `amount` of X for Y (`is_x`) or of Y for X, given the curve's
    /// answer to `curve_request(is_x, amount, min)`. Half of the swap fee
    /// goes to the protocol treasury, the other half stays in the pool as a
    /// reward for LPs: the user's input is split between the vault and the
    /// treasury account of the input mint, and the output is paid out of the
    /// other vault.
    pub fn swap(&self, is_x: bool, amount: u64, min: u64, curve: Option<SwapResult>) -> (r: Result<
        SwapPlan,
        AmmError,
    >)
        ensures
            match self.swap_outcome(is_x, amount, curve) {
                Ok(plan) => r matches Ok(p) && p@ == plan,
                Err(e) => r matches Err(e2) && e2 == e,
            },
    {
        let _request = self.curve_request(is_x, amount, min)?;
        let res = match curve {
            None => {
                return Err(AmmError::SlippageExceeded);
            },
            Some(res) => res,
        };
        let treasury_fee = res.fee / 2;
        let vault_deposit = match res.deposit.checked_sub(treasury_fee) {
            None => {
                return Err(AmmError::Underflow);
            },
            Some(v) => v,
        };
        let (user_from, vault_to, treasury_to) = if is_x {
            (self.user_x.key, self.vault_x.key, self.treasury_x.key)
        } else {
            (self.user_y.key, self.vault_y.key, self.treasury_y.key)
        };
        let vault_deposit = self.deposit_to(user_from, vault_to, vault_deposit);
        let treasury_deposit = if treasury_fee > 0 {
            Some(self.deposit_to(user_from, treasury_to, treasury_fee))
        } else {
            None
        };
        let withdrawal = self.withdraw_tokens(is_x, res.withdraw);
        Ok(SwapPlan { vault_deposit, treasury_deposit, withdrawal })
    }

    /// Transfer `amount` of the input mint from the user's account `from`
    /// to `to`, signed by the user.
    pub fn deposit_to(&self, from: Pubkey, to: Pubkey, amount: u64) -> (t: TokenTransfer)
        ensures
            t@ == self.user_transfer(from, to, amount),
    {
        let t = TokenTransfer {
            program: self.token_program,
            from,
            to,
            authority: self.user,
            amount,
            signer_seeds: Vec::new(),
        };
        assert(t@.signer_seeds =~= Seq::<Seq<u8>>::empty());
        t
    }

    /// Pay `amount` out of the vault of the other mint into the user's
    /// account of that mint, signed by the program for the config account.
    pub fn withdraw_tokens(&self, is_x: bool, amount: u64) -> (t: TokenTransfer)
        ensures
            t@ == self.vault_transfer(is_x, amount),
    {
        let (from, to) = if is_x {
            (self.vault_y.key, self.user_y.key)
        } else {
            (self.vault_x.key, self.user_x.key)
        };
        TokenTransfer {
            program: self.token_program,
            from,
            to,
            authority: self.config_key,
            amount,
            signer_seeds: config_signer_seeds(self.config.seed, self.config.config_bump),
        }
    }
}

} // verus!
