use crate::accounts::TokenAccount;
use crate::address::Address;
use crate::curve::spec_deposit_amounts;
use crate::curve::spec_withdraw_amounts;
use crate::curve::ConstantProduct;
use crate::instructions::deposit::spec_pool_empty;
use crate::instructions::transfer::TransferAuthority;
use vstd::prelude::*;

verus! {

/// Why an operation on a plain pool was refused.
#[derive(Clone, Copy, Debug, PartialEq, Eq, Structural)]
pub enum AmmError {
    DefaultError,
    SlippageExceeded,
    InvalidToken,
    BumpError,
    InsufficientBalance,
    PoolLocked,
    InvalidAmount,
    MathOverflow,
}

impl AmmError {
    /// The message shown to a caller for this error.
    pub fn message(&self) -> (text: &'static str)
        ensures
            text@ == self.spec_message(),
    {
        match self {
            AmmError::DefaultError => "DefaultError",
            AmmError::SlippageExceeded => "Slippage exceeded.",
            AmmError::InvalidToken => "Invalid token.",
            AmmError::BumpError => "Bump error.",
            AmmError::InsufficientBalance => "Insufficient balance.",
            AmmError::PoolLocked => "The Pool is Locked Currently",
            AmmError::InvalidAmount => "The Amount You Entered Is Invalid",
            AmmError::MathOverflow => "Math Overflow",
        }
    }

    /// The characters of [`AmmError::message`].
    pub open spec fn spec_message(&self) -> Seq<char> {
        match self {
            AmmError::DefaultError => "DefaultError"@,
            AmmError::SlippageExceeded => "Slippage exceeded."@,
            AmmError::InvalidToken => "Invalid token."@,
            AmmError::BumpError => "Bump error."@,
            AmmError::InsufficientBalance => "Insufficient balance."@,
            AmmError::PoolLocked => "The Pool is Locked Currently"@,
            AmmError::InvalidAmount => "The Amount You Entered Is Invalid"@,
            AmmError::MathOverflow => "Math Overflow"@,
        }
    }
}

/// A plain pool of two token types without extensions.
#[derive(Clone, Copy, Debug)]
pub struct Config {
    pub seed: u64,
    pub mint_x: Address,
    pub mint_y: Address,
    pub fee: u16,
    pub locked: bool,
    pub lp_bump: u8,
    pub config_bump: u8,
    pub authority: Option<Address>,
}

/// Bytes that the account of a [`Config`] takes: a tag of 8 bytes, the seed, the two
/// mints, the fee, the lock, the two bump seeds, and the optional authority.
pub const INIT_SPACE: usize = 8 + 8 + 32 + 32 + 2 + 1 + 1 + 1 + 1 + 32;

/// The bump seeds of the addresses that belong to a new pool.
#[derive(Clone, Copy, Debug)]
pub struct InitializeBumps {
    pub config: u8,
    pub mint_lp: u8,
}

/// The accounts that set up a plain pool.
#[derive(Clone, Copy, Debug)]
pub struct Initialize {
    pub admin: Address,
    pub mint_x: Address,
    pub mint_y: Address,
}

impl Initialize {
    /// Sets up an unlocked pool of the two token types.
    pub fn initialize(&self, seed: u64, fee: u16, authority: Option<Address>, bumps: &InitializeBumps) -> (config:
        Config)
        ensures
            config == (Config {
                seed,
                authority,
                mint_x: self.mint_x,
                mint_y: self.mint_y,
                fee,
                locked: false,
                config_bump: bumps.config,
                lp_bump: bumps.mint_lp,
            }),
    {
        Config {
            seed,
            authority,
            mint_x: self.mint_x,
            mint_y: self.mint_y,
            fee,
            locked: false,
            config_bump: bumps.config,
            lp_bump: bumps.mint_lp,
        }
    }
}

/// A transfer between the user's account and the pool's vault of one token.
#[derive(Clone, Copy, Debug, PartialEq, Eq, Structural)]
pub struct TokenTransfer {
    /// Whether token X moves, or token Y.
    pub is_x: bool,
    /// Who authorises the transfer: the user pays into the vault, the pool pays out of it.
    pub authority: TransferAuthority,
    pub amount: u64,
}

/// What a deposit or a withdrawal decides: the two transfers that carry it out, and the
/// shares to mint or to burn.
#[derive(Clone, Copy, Debug, PartialEq, Eq, Structural)]
pub struct LiquidityPlan {
    pub transfer_x: TokenTransfer,
    pub transfer_y: TokenTransfer,
    pub shares: u64,
}

/// The accounts of a deposit into a plain pool.
#[derive(Clone, Copy, Debug)]
pub struct Deposit {
    pub user: Address,
    pub vault_x: TokenAccount,
    pub vault_y: TokenAccount,
    pub config: Config,
    /// The shares in circulation.
    pub lp_supply: u64,
}

impl Deposit {
    /// Whether the pool holds nothing and has issued no share.
    pub open spec fn empty(&self) -> bool {
        spec_pool_empty(self.vault_x.amount as int, self.vault_y.amount as int, self.lp_supply as int)
    }

    /// The amounts that a deposit for `amount` shares takes: both maximums into an empty
    /// pool, else what the curve names, and `None` where the curve names none.
    pub open spec fn spec_due(&self, amount: int, max_x: int, max_y: int) -> Option<(int, int)> {
        if self.empty() {
            Some((max_x, max_y))
        } else {
            match spec_deposit_amounts(
                self.vault_x.amount as int,
                self.vault_y.amount as int,
                self.lp_supply as int,
                amount,
            ) {
                Ok(due) => Some((due.x as int, due.y as int)),
                Err(_) => None,
            }
        }
    }

    /// The outcome of a deposit for `amount` shares.
    pub open spec fn spec_deposit(&self, amount: int, max_x: int, max_y: int) -> Result<
        LiquidityPlan,
        AmmError,
    > {
        if self.config.locked {
            Err(AmmError::PoolLocked)
        } else if amount == 0 {
            Err(AmmError::InvalidAmount)
        } else {
            match self.spec_due(amount, max_x, max_y) {
                None => Err(AmmError::MathOverflow),
                Some((x, y)) => if x > max_x || y > max_y {
                    Err(AmmError::SlippageExceeded)
                } else {
                    Ok(
                        LiquidityPlan {
                            transfer_x: TokenTransfer {
                                is_x: true,
                                authority: TransferAuthority::User,
                                amount: x as u64,
                            },
                            transfer_y: TokenTransfer {
                                is_x: false,
                                authority: TransferAuthority::User,
                                amount: y as u64,
                            },
                            shares: amount as u64,
                        },
                    )
                },
            }
        }
    }

    /// Decides a deposit for `amount` shares by a user who will pay at most `max_x` and
    /// `max_y`. The pool must not be locked (`PoolLocked`) and `amount` must not be zero
    /// (`InvalidAmount`). Into an empty pool the user pays both maximums; else the curve
    /// names the amounts (`MathOverflow` where it cannot), neither of which may exceed
    /// its maximum (`SlippageExceeded`). Nothing is transferred here: the plan names the
    /// transfers to make and the shares to mint.
    pub fn deposit(&self, amount: u64, max_x: u64, max_y: u64) -> (plan: Result<LiquidityPlan, AmmError>)
        ensures
            plan == self.spec_deposit(amount as int, max_x as int, max_y as int),
    {
        if self.config.locked {
            return Err(AmmError::PoolLocked);
        }
        if amount == 0 {
            return Err(AmmError::InvalidAmount);
        }
        let (x, y) = if self.lp_supply == 0 && self.vault_x.amount == 0 && self.vault_y.amount == 0 {
            (max_x, max_y)
        } else {
            match ConstantProduct::xy_deposit_amounts_from_l(
                self.vault_x.amount,
                self.vault_y.amount,
                self.lp_supply,
                amount,
            ) {
                Ok(due) => (due.x, due.y),
                Err(_) => {
                    return Err(AmmError::MathOverflow);
                },
            }
        };
        if !(x <= max_x && y <= max_y) {
            return Err(AmmError::SlippageExceeded);
        }
        Ok(
            LiquidityPlan {
                transfer_x: self.deposit_tokens(true, x),
                transfer_y: self.deposit_tokens(false, y),
                shares: amount,
            },
        )
    }

    /// The transfer that takes `amount` of a token from the user into the vault.
    pub fn deposit_tokens(&self, is_x: bool, amount: u64) -> (transfer: TokenTransfer)
        ensures
            transfer == (TokenTransfer { is_x, authority: TransferAuthority::User, amount }),
    {
        TokenTransfer { is_x, authority: TransferAuthority::User, amount }
    }
}

/// The accounts of a withdrawal from a plain pool.
#[derive(Clone, Copy, Debug)]
pub struct Withdraw {
    pub user: Address,
    pub vault_x: TokenAccount,
    pub vault_y: TokenAccount,
    pub config: Config,
    /// The shares in circulation.
    pub lp_supply: u64,
    /// The shares that the user holds.
    pub user_lp: TokenAccount,
}

impl Withdraw {
    /// The outcome of a withdrawal that burns `amount` shares.
    pub open spec fn spec_withdraw(&self, amount: int, min_x: int, min_y: int) -> Result<
        LiquidityPlan,
        AmmError,
    > {
        if self.config.locked {
            Err(AmmError::PoolLocked)
        } else if amount == 0 {
            Err(AmmError::InvalidAmount)
        } else if self.user_lp.amount < amount {
            Err(AmmError::InsufficientBalance)
        } else {
            match spec_withdraw_amounts(
                self.vault_x.amount as int,
                self.vault_y.amount as int,
                self.lp_supply as int,
                amount,
            ) {
                Err(_) => Err(AmmError::MathOverflow),
                Ok(due) => if due.x < min_x || due.y < min_y {
                    Err(AmmError::SlippageExceeded)
                } else {
                    Ok(
                        LiquidityPlan {
                            transfer_x: TokenTransfer {
                                is_x: true,
                                authority: TransferAuthority::Pool,
                                amount: due.x,
                            },
                            transfer_y: TokenTransfer {
                                is_x: false,
                                authority: TransferAuthority::Pool,
                                amount: due.y,
                            },
                            shares: amount as u64,
                        },
                    )
                },
            }
        }
    }

    /// Decides a withdrawal that burns `amount` shares and must pay the user at least
    /// `min_x` and `min_y`. The pool must not be locked (`PoolLocked`), `amount` must not
    /// be zero (`InvalidAmount`), and the user must hold that many shares
    /// (`InsufficientBalance`). The curve names the amounts (`MathOverflow` where it
    /// cannot: no share exists, or fewer than are to be burned), neither of which may
    /// fall short of its minimum (`SlippageExceeded`). Nothing is
    /// transferred here: the plan names the transfers to make and the shares to burn.
    pub fn withdraw(&self, amount: u64, min_x: u64, min_y: u64) -> (plan: Result<LiquidityPlan, AmmError>)
        ensures
            plan == self.spec_withdraw(amount as int, min_x as int, min_y as int),
            plan matches Ok(p) ==> p.transfer_x.amount <= self.vault_x.amount
                && p.transfer_y.amount <= self.vault_y.amount,
    {
        if self.config.locked {
            return Err(AmmError::PoolLocked);
        }
        if amount == 0 {
            return Err(AmmError::InvalidAmount);
        }
        if self.user_lp.amount < amount {
            return Err(AmmError::InsufficientBalance);
        }
        let due = match ConstantProduct::xy_withdraw_amounts_from_l(
            self.vault_x.amount,
            self.vault_y.amount,
            self.lp_supply,
            amount,
        ) {
            Ok(due) => due,
            Err(_) => {
                return Err(AmmError::MathOverflow);
            },
        };
        if !(due.x >= min_x && due.y >= min_y) {
            return Err(AmmError::SlippageExceeded);
        }
        Ok(
            LiquidityPlan {
                transfer_x: self.withdraw_tokens(true, due.x),
                transfer_y: self.withdraw_tokens(false, due.y),
                shares: amount,
            },
        )
    }

    /// The transfer that sends `amount` of a token from the vault to the user.
    pub fn withdraw_tokens(&self, is_x: bool, amount: u64) -> (transfer: TokenTransfer)
        ensures
            transfer == (TokenTransfer { is_x, authority: TransferAuthority::Pool, amount }),
    {
        TokenTransfer { is_x, authority: TransferAuthority::Pool, amount }
    }
}

} // verus!
