use crate::accounts::Mint;
use crate::accounts::TokenAccount;
use crate::address::Address;
use crate::curve::lemma_deposit_then_withdraw;
use crate::curve::spec_share_of;
use crate::curve::spec_withdraw_amounts;
use crate::curve::ConstantProduct;
use crate::curve::XYAmounts;
use crate::error::outcome_is;
use crate::error::AmmError;
use crate::error::Error;
use crate::instructions::deposit::spec_plan_deposit;
use crate::instructions::deposit::spec_pool_empty;
use crate::instructions::transfer::spec_transfer_kind;
use crate::instructions::transfer::transfer_kind;
use crate::instructions::transfer::TransferAuthority;
use crate::instructions::transfer::TransferInstruction;
use crate::state::config::Config;
use crate::token_utils::TokenExtensions;
use vstd::prelude::*;

verus! {

/// The amounts of a withdrawal: what leaves the vaults of each token, and what the user
/// receives once the token types have taken their transfer fees.
#[derive(Clone, Copy, Debug, PartialEq, Eq, Structural)]
pub struct WithdrawAmounts {
    pub gross_x: u64,
    pub gross_y: u64,
    pub net_x: u64,
    pub net_y: u64,
}

/// What the user receives of the amounts `due` that leave the vaults: each less its
/// token type's transfer fee. Either falling short of its minimum is `SlippageExceeded`;
/// a vault that holds less than leaves it is `InsufficientFunds`.
pub open spec fn spec_settle_withdraw(
    due: XYAmounts,
    min_x: int,
    min_y: int,
    x: TokenExtensions,
    y: TokenExtensions,
    vault_x: int,
    vault_y: int,
) -> Result<WithdrawAmounts, AmmError> {
    if x.spec_net(due.x as int) < min_x || y.spec_net(due.y as int) < min_y {
        Err(AmmError::SlippageExceeded)
    } else if vault_x < due.x || vault_y < due.y {
        Err(AmmError::InsufficientFunds)
    } else {
        Ok(
            WithdrawAmounts {
                gross_x: due.x,
                gross_y: due.y,
                net_x: x.spec_net(due.x as int) as u64,
                net_y: y.spec_net(due.y as int) as u64,
            },
        )
    }
}

/// The amounts of a withdrawal that burns `amount` shares: the curve names what leaves
/// the vaults (`MathOverflow` where it cannot), and [`spec_settle_withdraw`] what the
/// user receives of it.
pub open spec fn spec_plan_withdraw(
    amount: int,
    min_x: int,
    min_y: int,
    x: TokenExtensions,
    y: TokenExtensions,
    vault_x: int,
    vault_y: int,
    supply: int,
) -> Result<WithdrawAmounts, AmmError> {
    match spec_withdraw_amounts(vault_x, vault_y, supply, amount) {
        Err(_) => Err(AmmError::MathOverflow),
        Ok(due) => spec_settle_withdraw(due, min_x, min_y, x, y, vault_x, vault_y),
    }
}

/// Computes what the user receives of the amounts that leave the vaults.
pub fn settle_withdraw(
    due: XYAmounts,
    min_x: u64,
    min_y: u64,
    x: &TokenExtensions,
    y: &TokenExtensions,
    vault_x: u64,
    vault_y: u64,
) -> (amounts: Result<WithdrawAmounts, AmmError>)
    ensures
        amounts == spec_settle_withdraw(
            due,
            min_x as int,
            min_y as int,
            *x,
            *y,
            vault_x as int,
            vault_y as int,
        ),
{
    let net_x = x.calculate_net(due.x);
    let net_y = y.calculate_net(due.y);
    if !(net_x >= min_x && net_y >= min_y) {
        return Err(AmmError::SlippageExceeded);
    }
    if !(vault_x >= due.x && vault_y >= due.y) {
        return Err(AmmError::InsufficientFunds);
    }
    Ok(WithdrawAmounts { gross_x: due.x, gross_y: due.y, net_x, net_y })
}

/// Computes the amounts of a withdrawal that burns `amount` shares.
pub fn plan_withdraw(
    amount: u64,
    min_x: u64,
    min_y: u64,
    x: &TokenExtensions,
    y: &TokenExtensions,
    vault_x: u64,
    vault_y: u64,
    supply: u64,
) -> (amounts: Result<WithdrawAmounts, AmmError>)
    ensures
        amounts == spec_plan_withdraw(
            amount as int,
            min_x as int,
            min_y as int,
            *x,
            *y,
            vault_x as int,
            vault_y as int,
            supply as int,
        ),
{
    match ConstantProduct::xy_withdraw_amounts_from_l(vault_x, vault_y, supply, amount) {
        Err(_) => Err(AmmError::MathOverflow),
        Ok(due) => settle_withdraw(due, min_x, min_y, x, y, vault_x, vault_y),
    }
}

/// Shares that are bought and burned at once, with no other operation in between and
/// with token types that charge no transfer fee, give the user back no more than was
/// paid for them: the withdrawal succeeds and hands out exactly what the deposit took.
pub proof fn lemma_deposit_withdraw_round_trip(
    amount: u64,
    max_x: u64,
    max_y: u64,
    x: TokenExtensions,
    y: TokenExtensions,
    vault_x: u64,
    vault_y: u64,
    supply: u64,
)
    requires
        amount > 0,
        !x.has_transfer_fee,
        !y.has_transfer_fee,
        spec_plan_deposit(
            amount as int,
            max_x as int,
            max_y as int,
            x,
            y,
            vault_x as int,
            vault_y as int,
            supply as int,
        ) is Ok,
    ensures
        ({
            let paid = spec_plan_deposit(
                amount as int,
                max_x as int,
                max_y as int,
                x,
                y,
                vault_x as int,
                vault_y as int,
                supply as int,
            )->Ok_0;
            let back = spec_plan_withdraw(
                amount as int,
                0,
                0,
                x,
                y,
                vault_x + paid.net_x,
                vault_y + paid.net_y,
                supply + amount,
            );
            &&& paid.net_x == paid.gross_x
            &&& paid.net_y == paid.gross_y
            &&& back matches Ok(w)
            &&& w.net_x <= paid.gross_x
            &&& w.net_y <= paid.gross_y
            &&& w.net_x == paid.gross_x
            &&& w.net_y == paid.gross_y
        }),
{
    let paid = spec_plan_deposit(
        amount as int,
        max_x as int,
        max_y as int,
        x,
        y,
        vault_x as int,
        vault_y as int,
        supply as int,
    )->Ok_0;
    if spec_pool_empty(vault_x as int, vault_y as int, supply as int) {
        assert(spec_share_of(amount as int, max_x as int, amount as int) == max_x
            && spec_share_of(amount as int, max_y as int, amount as int) == max_y)
            by (nonlinear_arith)
            requires
                amount > 0,
                max_x >= 0,
                max_y >= 0,
        ;
    } else {
        lemma_deposit_then_withdraw(vault_x as int, supply as int, amount as int);
        lemma_deposit_then_withdraw(vault_y as int, supply as int, amount as int);
    }
}

/// Burning every share empties the pool: where the shares burned are all that exist,
/// each vault pays out all that it holds, so that no reserve is left without a share.
pub proof fn lemma_burning_all_shares_empties_pool(vault_x: u64, vault_y: u64, supply: u64)
    requires
        supply > 0,
    ensures
        spec_withdraw_amounts(vault_x as int, vault_y as int, supply as int, supply as int) == Ok::<
            XYAmounts,
            crate::curve::CurveError,
        >(XYAmounts { x: vault_x, y: vault_y }),
{
    assert(spec_share_of(supply as int, vault_x as int, supply as int) == vault_x && spec_share_of(
        supply as int,
        vault_y as int,
        supply as int,
    ) == vault_y) by (nonlinear_arith)
        requires
            supply > 0,
            vault_x >= 0,
            vault_y >= 0,
    ;
}

/// What a withdrawal decides: the amounts, the two transfers that carry it out, and the
/// shares to burn.
#[derive(Clone, Copy, Debug, PartialEq, Eq, Structural)]
pub struct WithdrawPlan {
    pub amounts: WithdrawAmounts,
    pub transfer_x: TransferInstruction,
    pub transfer_y: TransferInstruction,
    pub shares: u64,
}

/// The accounts of a withdrawal.
#[derive(Clone, Debug)]
pub struct Withdraw {
    pub user: Address,
    pub mint_x: Mint,
    pub mint_y: Mint,
    pub user_x: TokenAccount,
    pub user_y: TokenAccount,
    pub vault_x: TokenAccount,
    pub vault_y: TokenAccount,
    pub config: Config,
    pub mint_lp: Mint,
    pub user_lp: TokenAccount,
}

impl Withdraw {
    /// The token type on side X, or on side Y.
    pub open spec fn mint(&self, is_x: bool) -> Mint {
        if is_x {
            self.mint_x
        } else {
            self.mint_y
        }
    }

    /// Whether the profile of the token type on a side can be read.
    pub open spec fn readable(&self, is_x: bool) -> bool {
        TokenExtensions::readable(self.mint(is_x).account.owner@, self.mint(is_x).account.data@)
    }

    /// The profile of the token type on a side.
    pub open spec fn extensions(&self, is_x: bool) -> TokenExtensions {
        TokenExtensions::of(self.mint(is_x).account.owner@, self.mint(is_x).account.data@)
    }

    /// The transfer of `amount` of a token type from the vault to the user.
    pub open spec fn spec_withdraw_tokens(&self, is_x: bool, amount: int) -> TransferInstruction {
        TransferInstruction {
            is_x,
            authority: TransferAuthority::Pool,
            kind: spec_transfer_kind(self.extensions(is_x), amount),
            amount: amount as u64,
            decimals: self.mint(is_x).decimals,
        }
    }

    /// The outcome of a withdrawal; `Err(None)` where the account of a token type cannot
    /// be read, `Err(Some(..))` where a rule of the pool refuses.
    pub open spec fn spec_withdraw(&self, amount: int, min_x: int, min_y: int) -> Result<
        WithdrawPlan,
        Option<AmmError>,
    > {
        if self.config.locked {
            Err(Some(AmmError::PoolLocked))
        } else if amount == 0 {
            Err(Some(AmmError::InvalidAmount))
        } else if self.user_lp.amount < amount {
            Err(Some(AmmError::InsufficientFunds))
        } else if self.config.mint_x@ != self.mint_x.account.key@ || self.config.mint_y@
            != self.mint_y.account.key@ {
            Err(Some(AmmError::InvalidToken))
        } else {
            match spec_withdraw_amounts(
                self.vault_x.amount as int,
                self.vault_y.amount as int,
                self.mint_lp.supply as int,
                amount,
            ) {
                Err(_) => Err(Some(AmmError::MathOverflow)),
                Ok(due) => if !self.readable(true) || !self.readable(false) {
                    Err(None)
                } else {
                    match spec_settle_withdraw(
                        due,
                        min_x,
                        min_y,
                        self.extensions(true),
                        self.extensions(false),
                        self.vault_x.amount as int,
                        self.vault_y.amount as int,
                    ) {
                        Err(e) => Err(Some(e)),
                        Ok(amounts) => Ok(
                            WithdrawPlan {
                                amounts,
                                transfer_x: self.spec_withdraw_tokens(true, amounts.gross_x as int),
                                transfer_y: self.spec_withdraw_tokens(
                                    false,
                                    amounts.gross_y as int,
                                ),
                                shares: amount as u64,
                            },
                        ),
                    }
                },
            }
        }
    }

    /// Decides a withdrawal that burns `amount` shares and must leave the user with at
    /// least `min_x` and `min_y`. The pool must not be locked (`PoolLocked`), `amount`
    /// must not be zero (`InvalidAmount`), the user must hold that many shares
    /// (`InsufficientFunds`), and the token types must be the pool's (`InvalidToken`).
    /// The amounts are those of [`spec_plan_withdraw`]. Nothing is transferred here: the
    /// plan names the transfers to make and the shares to burn.
    pub fn withdraw(&self, amount: u64, min_x: u64, min_y: u64) -> (plan: Result<WithdrawPlan, Error>)
        ensures
            outcome_is(plan, self.spec_withdraw(amount as int, min_x as int, min_y as int)),
    {
        if self.config.locked {
            return Err(Error::Amm(AmmError::PoolLocked));
        }
        if amount == 0 {
            return Err(Error::Amm(AmmError::InvalidAmount));
        }
        if self.user_lp.amount < amount {
            return Err(Error::Amm(AmmError::InsufficientFunds));
        }
        if !self.config.mint_x.same(&self.mint_x.account.key) || !self.config.mint_y.same(
            &self.mint_y.account.key,
        ) {
            return Err(Error::Amm(AmmError::InvalidToken));
        }
        let due = match ConstantProduct::xy_withdraw_amounts_from_l(
            self.vault_x.amount,
            self.vault_y.amount,
            self.mint_lp.supply,
            amount,
        ) {
            Ok(due) => due,
            Err(_) => {
                return Err(Error::Amm(AmmError::MathOverflow));
            },
        };
        let x_ext = match TokenExtensions::new(&self.mint_x.account) {
            Ok(extensions) => extensions,
            Err(e) => {
                return Err(e);
            },
        };
        let y_ext = match TokenExtensions::new(&self.mint_y.account) {
            Ok(extensions) => extensions,
            Err(e) => {
                return Err(e);
            },
        };
        let amounts = match settle_withdraw(
            due,
            min_x,
            min_y,
            &*x_ext,
            &*y_ext,
            self.vault_x.amount,
            self.vault_y.amount,
        ) {
            Ok(amounts) => amounts,
            Err(e) => {
                return Err(Error::Amm(e));
            },
        };
        let transfer_x = match self.withdraw_tokens(true, amounts.gross_x) {
            Ok(transfer) => transfer,
            Err(e) => {
                return Err(e);
            },
        };
        let transfer_y = match self.withdraw_tokens(false, amounts.gross_y) {
            Ok(transfer) => transfer,
            Err(e) => {
                return Err(e);
            },
        };
        Ok(WithdrawPlan { amounts, transfer_x, transfer_y, shares: amount })
    }

    /// The transfer that sends `amount` of a token type from the vault to the user, in
    /// the form that the token type calls for. An error where the token type's account
    /// cannot be read.
    pub fn withdraw_tokens(&self, is_x: bool, amount: u64) -> (transfer: Result<
        TransferInstruction,
        Error,
    >)
        ensures
            transfer is Ok <==> self.readable(is_x),
            transfer matches Ok(t) ==> t == self.spec_withdraw_tokens(is_x, amount as int),
            transfer matches Err(e) ==> e is Program,
    {
        let mint = if is_x {
            &self.mint_x
        } else {
            &self.mint_y
        };
        let decimals = mint.decimals;
        let extensions = match TokenExtensions::new(&mint.account) {
            Ok(extensions) => extensions,
            Err(e) => {
                return Err(e);
            },
        };
        Ok(
            TransferInstruction {
                is_x,
                authority: TransferAuthority::Pool,
                kind: transfer_kind(&*extensions, amount),
                amount,
                decimals,
            },
        )
    }
}

} // verus!
