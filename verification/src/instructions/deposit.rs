use crate::accounts::AccountData;
use crate::accounts::Mint;
use crate::accounts::TokenAccount;
use crate::address::Address;
use crate::curve::spec_deposit_amounts;
use crate::curve::ConstantProduct;
use crate::error::outcome_is;
use crate::error::AmmError;
use crate::error::Error;
use crate::instructions::transfer::deposit_transfer_kind;
use crate::instructions::transfer::spec_deposit_transfer_kind;
use crate::instructions::transfer::TransferAuthority;
use crate::instructions::transfer::TransferInstruction;
use crate::state::config::Config;
use crate::token_utils::TokenExtensions;
use vstd::prelude::*;

verus! {

/// The amounts of a deposit: what the user sends of each token, and what reaches the
/// vaults once the token types have taken their transfer fees.
#[derive(Clone, Copy, Debug, PartialEq, Eq, Structural)]
pub struct DepositAmounts {
    pub gross_x: u64,
    pub gross_y: u64,
    pub net_x: u64,
    pub net_y: u64,
}

/// Whether a pool with these vaults and this share supply is empty.
pub open spec fn spec_pool_empty(vault_x: int, vault_y: int, supply: int) -> bool {
    supply == 0 && vault_x == 0 && vault_y == 0
}

/// The amounts of a deposit for `amount` shares by a user who will send at most `max_x`
/// and `max_y`. What would arrive of each maximum must not be nothing (`InvalidAmount`).
/// Into an empty pool the user sends both maximums, and what arrives of them seeds the
/// pool. Else the curve names the amounts that must arrive (`MathOverflow` where it
/// cannot); neither may exceed what would arrive of its maximum (`SlippageExceeded`);
/// the user sends the gross amount for each (`MathOverflow` where none fits), which may
/// not exceed its maximum (`SlippageExceeded`).
pub open spec fn spec_plan_deposit(
    amount: int,
    max_x: int,
    max_y: int,
    x: TokenExtensions,
    y: TokenExtensions,
    vault_x: int,
    vault_y: int,
    supply: int,
) -> Result<DepositAmounts, AmmError> {
    if x.spec_net(max_x) == 0 || y.spec_net(max_y) == 0 {
        Err(AmmError::InvalidAmount)
    } else if spec_pool_empty(vault_x, vault_y, supply) {
        Ok(
            DepositAmounts {
                gross_x: max_x as u64,
                gross_y: max_y as u64,
                net_x: x.spec_net(max_x) as u64,
                net_y: y.spec_net(max_y) as u64,
            },
        )
    } else {
        match spec_deposit_amounts(vault_x, vault_y, supply, amount) {
            Err(_) => Err(AmmError::MathOverflow),
            Ok(due) => if due.x > x.spec_net(max_x) || due.y > y.spec_net(max_y) {
                Err(AmmError::SlippageExceeded)
            } else if !x.spec_gross_for_net_defined(due.x as int) || !y.spec_gross_for_net_defined(
                due.y as int,
            ) {
                Err(AmmError::MathOverflow)
            } else if x.spec_gross_for_net(due.x as int) > max_x || y.spec_gross_for_net(
                due.y as int,
            ) > max_y {
                Err(AmmError::SlippageExceeded)
            } else {
                Ok(
                    DepositAmounts {
                        gross_x: x.spec_gross_for_net(due.x as int) as u64,
                        gross_y: y.spec_gross_for_net(due.y as int) as u64,
                        net_x: due.x,
                        net_y: due.y,
                    },
                )
            },
        }
    }
}

/// Computes the amounts of a deposit.
pub fn plan_deposit(
    amount: u64,
    max_x: u64,
    max_y: u64,
    x: &TokenExtensions,
    y: &TokenExtensions,
    vault_x: u64,
    vault_y: u64,
    supply: u64,
) -> (amounts: Result<DepositAmounts, AmmError>)
    ensures
        amounts == spec_plan_deposit(
            amount as int,
            max_x as int,
            max_y as int,
            *x,
            *y,
            vault_x as int,
            vault_y as int,
            supply as int,
        ),
{
    let net_max_x = x.calculate_net(max_x);
    let net_max_y = y.calculate_net(max_y);
    if !(net_max_x > 0 && net_max_y > 0) {
        return Err(AmmError::InvalidAmount);
    }
    if supply == 0 && vault_x == 0 && vault_y == 0 {
        return Ok(
            DepositAmounts { gross_x: max_x, gross_y: max_y, net_x: net_max_x, net_y: net_max_y },
        );
    }
    let due = match ConstantProduct::xy_deposit_amounts_from_l(vault_x, vault_y, supply, amount) {
        Ok(due) => due,
        Err(_) => {
            return Err(AmmError::MathOverflow);
        },
    };
    if !(due.x <= net_max_x && due.y <= net_max_y) {
        return Err(AmmError::SlippageExceeded);
    }
    let (gross_x, gross_y) = match (x.checked_gross_for_net(due.x), y.checked_gross_for_net(due.y)) {
        (Some(gross_x), Some(gross_y)) => (gross_x, gross_y),
        _ => {
            return Err(AmmError::MathOverflow);
        },
    };
    if !(gross_x <= max_x && gross_y <= max_y) {
        return Err(AmmError::SlippageExceeded);
    }
    Ok(DepositAmounts { gross_x, gross_y, net_x: due.x, net_y: due.y })
}

/// A deposit into an empty pool takes the user's two maximums as they are: the user
/// sends exactly `max_x` and `max_y`, and the pool is seeded with what is left of them
/// after the token types' transfer fees. The curve is not asked.
pub proof fn lemma_empty_pool_seeding(
    amount: u64,
    max_x: u64,
    max_y: u64,
    x: TokenExtensions,
    y: TokenExtensions,
)
    requires
        x.spec_net(max_x as int) > 0,
        y.spec_net(max_y as int) > 0,
    ensures
        spec_plan_deposit(amount as int, max_x as int, max_y as int, x, y, 0, 0, 0) == Ok::<
            DepositAmounts,
            AmmError,
        >(
            DepositAmounts {
                gross_x: max_x,
                gross_y: max_y,
                net_x: (max_x - x.spec_fee(max_x as int)) as u64,
                net_y: (max_y - y.spec_fee(max_y as int)) as u64,
            },
        ),
{
}

/// What a deposit decides: the amounts, the two transfers that carry it out, and the
/// shares to mint to the user.
#[derive(Clone, Copy, Debug, PartialEq, Eq, Structural)]
pub struct DepositPlan {
    pub amounts: DepositAmounts,
    pub transfer_x: TransferInstruction,
    pub transfer_y: TransferInstruction,
    pub shares: u64,
}

/// The accounts of a deposit.
#[derive(Clone, Debug)]
pub struct Deposit {
    pub user: Address,
    pub mint_x: Mint,
    pub mint_y: Mint,
    pub user_x: TokenAccount,
    pub user_y: TokenAccount,
    pub vault_x: TokenAccount,
    pub vault_y: TokenAccount,
    pub config: Config,
    pub mint_lp: Mint,
    pub user_lp: TokenAccount,
}

impl Deposit {
    /// The token type on side X, or on side Y.
    pub open spec fn mint(&self, is_x: bool) -> Mint {
        if is_x {
            self.mint_x
        } else {
            self.mint_y
        }
    }

    /// Whether the profile of the token type on a side can be read.
    pub open spec fn readable(&self, is_x: bool) -> bool {
        TokenExtensions::readable(self.mint(is_x).account.owner@, self.mint(is_x).account.data@)
    }

    /// The profile of the token type on a side.
    pub open spec fn extensions(&self, is_x: bool) -> TokenExtensions {
        TokenExtensions::of(self.mint(is_x).account.owner@, self.mint(is_x).account.data@)
    }

    /// The transfer of `amount` of a token type from the user into the vault.
    pub open spec fn spec_deposit_tokens(&self, is_x: bool, amount: int, has_accounts: bool) -> TransferInstruction {
        TransferInstruction {
            is_x,
            authority: TransferAuthority::User,
            kind: spec_deposit_transfer_kind(self.extensions(is_x), amount, has_accounts),
            amount: amount as u64,
            decimals: self.mint(is_x).decimals,
        }
    }

    /// The outcome of a deposit; `Err(None)` where the account of a token type cannot be
    /// read, `Err(Some(..))` where a rule of the pool refuses.
    pub open spec fn spec_deposit(
        &self,
        amount: int,
        max_x: int,
        max_y: int,
        remaining_accounts: Seq<AccountData>,
    ) -> Result<DepositPlan, Option<AmmError>> {
        if self.config.locked {
            Err(Some(AmmError::PoolLocked))
        } else if amount == 0 {
            Err(Some(AmmError::InvalidAmount))
        } else if self.config.mint_x@ != self.mint_x.account.key@ || self.config.mint_y@
            != self.mint_y.account.key@ {
            Err(Some(AmmError::InvalidToken))
        } else if !self.readable(true) || !self.readable(false) {
            Err(None)
        } else {
            match spec_plan_deposit(
                amount,
                max_x,
                max_y,
                self.extensions(true),
                self.extensions(false),
                self.vault_x.amount as int,
                self.vault_y.amount as int,
                self.mint_lp.supply as int,
            ) {
                Err(e) => Err(Some(e)),
                Ok(amounts) => Ok(
                    DepositPlan {
                        amounts,
                        transfer_x: self.spec_deposit_tokens(
                            true,
                            amounts.gross_x as int,
                            remaining_accounts.len() > 0,
                        ),
                        transfer_y: self.spec_deposit_tokens(
                            false,
                            amounts.gross_y as int,
                            remaining_accounts.len() > 0,
                        ),
                        shares: amount as u64,
                    },
                ),
            }
        }
    }

    /// Decides a deposit for `amount` shares by a user who will send at most `max_x` and
    /// `max_y`. The pool must not be locked (`PoolLocked`), `amount` must not be zero
    /// (`InvalidAmount`), and the token types must be the pool's (`InvalidToken`). The
    /// amounts are those of [`spec_plan_deposit`]. Nothing is transferred here: the plan
    /// names the transfers to make and the shares to mint.
    pub fn deposit(&self, amount: u64, max_x: u64, max_y: u64, remaining_accounts: &[AccountData]) -> (plan:
        Result<DepositPlan, Error>)
        ensures
            outcome_is(
                plan,
                self.spec_deposit(amount as int, max_x as int, max_y as int, remaining_accounts@),
            ),
    {
        if self.config.locked {
            return Err(Error::Amm(AmmError::PoolLocked));
        }
        if amount == 0 {
            return Err(Error::Amm(AmmError::InvalidAmount));
        }
        if !self.config.mint_x.same(&self.mint_x.account.key) || !self.config.mint_y.same(
            &self.mint_y.account.key,
        ) {
            return Err(Error::Amm(AmmError::InvalidToken));
        }
        let x_ext = match TokenExtensions::new(&self.mint_x.account) {
            Ok(extensions) => extensions,
            Err(e) => {
                return Err(e);
            },
        };
        let y_ext = match TokenExtensions::new(&self.mint_y.account) {
            Ok(extensions) => extensions,
            Err(e) => {
                return Err(e);
            },
        };
        let amounts = match plan_deposit(
            amount,
            max_x,
            max_y,
            &*x_ext,
            &*y_ext,
            self.vault_x.amount,
            self.vault_y.amount,
            self.mint_lp.supply,
        ) {
            Ok(amounts) => amounts,
            Err(e) => {
                return Err(Error::Amm(e));
            },
        };
        let transfer_x = match self.deposit_tokens(true, amounts.gross_x, remaining_accounts) {
            Ok(transfer) => transfer,
            Err(e) => {
                return Err(e);
            },
        };
        let transfer_y = match self.deposit_tokens(false, amounts.gross_y, remaining_accounts) {
            Ok(transfer) => transfer,
            Err(e) => {
                return Err(e);
            },
        };
        Ok(DepositPlan { amounts, transfer_x, transfer_y, shares: amount })
    }

    /// The transfer that takes `amount` of a token type from the user into the vault, in
    /// the form that the token type calls for. An error where the token type's account
    /// cannot be read.
    pub fn deposit_tokens(&self, is_x: bool, amount: u64, remaining_accounts: &[AccountData]) -> (transfer:
        Result<TransferInstruction, Error>)
        ensures
            transfer is Ok <==> self.readable(is_x),
            transfer matches Ok(t) ==> t == self.spec_deposit_tokens(
                is_x,
                amount as int,
                remaining_accounts@.len() > 0,
            ),
            transfer matches Err(e) ==> e is Program,
    {
        let mint = if is_x {
            &self.mint_x
        } else {
            &self.mint_y
        };
        let decimals = mint.decimals;
        let extensions = match TokenExtensions::new(&mint.account) {
            Ok(extensions) => extensions,
            Err(e) => {
                return Err(e);
            },
        };
        Ok(
            TransferInstruction {
                is_x,
                authority: TransferAuthority::User,
                kind: deposit_transfer_kind(&*extensions, amount, remaining_accounts.len() > 0),
                amount,
                decimals,
            },
        )
    }
}

} // verus!
