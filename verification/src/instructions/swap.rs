use crate::accounts::AccountData;
use crate::accounts::Mint;
use crate::accounts::TokenAccount;
use crate::address::Address;
use crate::curve::ConstantProduct;
use crate::curve::LiquidityPair;
use crate::curve::SwapResult;
use crate::error::outcome_is;
use crate::error::AmmError;
use crate::error::Error;
use crate::instructions::transfer::spec_transfer_kind;
use crate::instructions::transfer::transfer_kind;
use crate::instructions::transfer::TransferAuthority;
use crate::instructions::transfer::TransferInstruction;
use crate::state::config::is_listed;
use crate::state::config::spec_listed;
use crate::state::config::Config;
use crate::token_utils::TokenExtensions;
use vstd::prelude::*;

verus! {

/// Position, among the additional accounts of a swap, of the fee controller's record.
pub const FEE_STATS_ACCOUNT_INDEX: usize = 7;

/// What a swap reads of the fee controller's record.
#[derive(Clone, Copy, Debug)]
pub struct DynamicFeeStatsView {
    pub current_fee_basis_points: u16,
    pub base_fee_basis_points: u16,
    pub recent_transfers: [u64; 6],
}

/// The number that the two bytes of `data` from `at` on hold, lowest byte first.
pub open spec fn spec_u16_le(data: Seq<u8>, at: int) -> int {
    data[at] + data[at + 1] * 0x100
}

/// The number that the eight bytes of `data` from `at` on hold, lowest byte first.
pub open spec fn spec_u64_le(data: Seq<u8>, at: int) -> int {
    data[at] + data[at + 1] * 0x100 + data[at + 2] * 0x1_0000 + data[at + 3] * 0x100_0000 + data[at
        + 4] * 0x1_0000_0000 + data[at + 5] * 0x100_0000_0000 + data[at + 6] * 0x1_0000_0000_0000
        + data[at + 7] * 0x100_0000_0000_0000
}

/// The fee in force that the bytes of a fee controller's record hold, if they are long
/// enough to hold one.
pub open spec fn spec_recorded_fee(data: Seq<u8>) -> Option<u16> {
    if data.len() >= 36 {
        Some(spec_u16_le(data, 32) as u16)
    } else {
        None
    }
}

fn read_u16_le(data: &[u8], at: usize) -> (value: u16)
    requires
        at + 2 <= data@.len(),
    ensures
        value == spec_u16_le(data@, at as int),
{
    data[at] as u16 + (data[at + 1] as u16) * 0x100
}

fn read_u64_le(data: &[u8], at: usize) -> (value: u64)
    requires
        at + 8 <= data@.len(),
    ensures
        value == spec_u64_le(data@, at as int),
{
    data[at] as u64 + (data[at + 1] as u64) * 0x100 + (data[at + 2] as u64) * 0x1_0000 + (data[at
        + 3] as u64) * 0x100_0000 + (data[at + 4] as u64) * 0x1_0000_0000 + (data[at + 5] as u64)
        * 0x100_0000_0000 + (data[at + 6] as u64) * 0x1_0000_0000_0000 + (data[at + 7] as u64)
        * 0x100_0000_0000_0000
}

/// Reads the fields that a swap uses out of the bytes of a fee controller's record: the
/// fee in force at byte 32, the base fee at byte 34, and six transfer counts of eight
/// bytes each from byte 44 on, each taken as zero where the bytes end before it. `None`
/// where the bytes end before byte 36.
pub fn parse_dynamic_fee_stats(data: &[u8]) -> (stats: Option<DynamicFeeStatsView>)
    ensures
        stats is Some <==> data@.len() >= 36,
        stats matches Some(s) ==> {
            &&& Some(s.current_fee_basis_points) == spec_recorded_fee(data@)
            &&& s.base_fee_basis_points == spec_u16_le(data@, 34)
            &&& forall|i: int|
                0 <= i < 6 ==> s.recent_transfers@[i] == (if data@.len() >= 44 + i * 8 + 8 {
                    spec_u64_le(data@, 44 + i * 8)
                } else {
                    0
                })
        },
{
    if data.len() < 36 {
        return None;
    }
    let current_fee_basis_points = read_u16_le(data, 32);
    let base_fee_basis_points = read_u16_le(data, 34);
    let mut recent_transfers: [u64; 6] = [0, 0, 0, 0, 0, 0];
    let mut i: usize = 0;
    while i < 6
        invariant
            i <= 6,
            forall|j: int|
                0 <= j < i ==> recent_transfers@[j] == (if data@.len() >= 44 + j * 8 + 8 {
                    spec_u64_le(data@, 44 + j * 8)
                } else {
                    0
                }),
            forall|j: int| i <= j < 6 ==> recent_transfers@[j] == 0,
        decreases 6 - i,
    {
        let offset: usize = 44 + i * 8;
        if data.len() >= offset + 8 {
            recent_transfers[i] = read_u64_le(data, offset);
        }
        i += 1;
    }
    Some(DynamicFeeStatsView { current_fee_basis_points, base_fee_basis_points, recent_transfers })
}

/// The hook program that governs a pool of two token types: that of X where X runs a
/// hook, else that of Y where Y runs one.
pub open spec fn spec_hook_program(x: TokenExtensions, y: TokenExtensions) -> Option<Address> {
    if x.has_transfer_hook {
        x.transfer_hook_program_id
    } else if y.has_transfer_hook {
        y.transfer_hook_program_id
    } else {
        None
    }
}

/// The trading fee that the fee controller sets for a swap, if one applies: a token type
/// of the pool runs a hook, the hook program is on the pool's list of approved hook
/// programs, and the additional accounts hold a record of the fee controller in eighth
/// place.
pub open spec fn spec_select_dynamic_fee(
    x: TokenExtensions,
    y: TokenExtensions,
    approved_hook_programs: Seq<Address>,
    remaining_accounts: Seq<AccountData>,
) -> Option<u64> {
    match spec_hook_program(x, y) {
        None => None,
        Some(program) => if !spec_listed(approved_hook_programs, program@) {
            None
        } else if remaining_accounts.len() >= 8 {
            match spec_recorded_fee(remaining_accounts[7].data@) {
                Some(fee) => Some(fee as u64),
                None => None,
            }
        } else {
            None
        },
    }
}

/// Chooses the trading fee that the fee controller sets for a swap, if one applies.
pub fn select_dynamic_fee(
    x: &TokenExtensions,
    y: &TokenExtensions,
    approved_hook_programs: &[Address],
    remaining_accounts: &[AccountData],
) -> (fee: Option<u64>)
    ensures
        fee == spec_select_dynamic_fee(*x, *y, approved_hook_programs@, remaining_accounts@),
{
    let hook_program_id = if x.has_transfer_hook {
        match x.transfer_hook_program_id {
            Some(program) => program,
            None => {
                return None;
            },
        }
    } else if y.has_transfer_hook {
        match y.transfer_hook_program_id {
            Some(program) => program,
            None => {
                return None;
            },
        }
    } else {
        return None;
    };
    if !is_listed(approved_hook_programs, &hook_program_id) {
        return None;
    }
    if remaining_accounts.len() >= 8 {
        match parse_dynamic_fee_stats(remaining_accounts[FEE_STATS_ACCOUNT_INDEX].data.as_slice()) {
            Some(stats) => Some(stats.current_fee_basis_points as u64),
            None => None,
        }
    } else {
        None
    }
}

/// What a swap of `amount`, sent by the user, moves along the curve. The token type's
/// transfer fee comes off `amount` first, and what is left must not be nothing
/// (`InvalidAmount`). The pool must hold both tokens and the trading fee cannot exceed
/// 100% (`MathOverflow`). The trading fee comes off what reached the vault, and the rest
/// buys along the curve; the output must be at least `min`, and the vault must be able to
/// hold the input (`SlippageExceeded`).
pub open spec fn spec_quote_swap(
    is_x: bool,
    amount: int,
    min: int,
    input: TokenExtensions,
    vault_x: int,
    vault_y: int,
    supply: int,
    fee: int,
) -> Result<SwapResult, AmmError> {
    let pair = if is_x {
        LiquidityPair::X
    } else {
        LiquidityPair::Y
    };
    let curve = ConstantProduct {
        x: vault_x as u64,
        y: vault_y as u64,
        l: supply as u64,
        fee: fee as u16,
    };
    if input.spec_net(amount) == 0 {
        Err(AmmError::InvalidAmount)
    } else if vault_x == 0 || vault_y == 0 || fee > 10_000 {
        Err(AmmError::MathOverflow)
    } else {
        match curve.spec_swap(pair, input.spec_net(amount), min) {
            Ok(moved) => Ok(moved),
            Err(_) => Err(AmmError::SlippageExceeded),
        }
    }
}

/// Computes what a swap moves along the curve.
pub fn quote_swap(
    is_x: bool,
    amount: u64,
    min: u64,
    input: &TokenExtensions,
    vault_x: u64,
    vault_y: u64,
    supply: u64,
    fee: u16,
) -> (quote: Result<SwapResult, AmmError>)
    ensures
        quote == spec_quote_swap(
            is_x,
            amount as int,
            min as int,
            *input,
            vault_x as int,
            vault_y as int,
            supply as int,
            fee as int,
        ),
{
    let net_amount_in = input.calculate_net(amount);
    if net_amount_in == 0 {
        return Err(AmmError::InvalidAmount);
    }
    let mut curve = match ConstantProduct::init(vault_x, vault_y, supply, fee) {
        Ok(curve) => curve,
        Err(_) => {
            return Err(AmmError::MathOverflow);
        },
    };
    let p = if is_x {
        LiquidityPair::X
    } else {
        LiquidityPair::Y
    };
    match curve.swap(p, net_amount_in, min) {
        Ok(moved) => Ok(moved),
        Err(_) => Err(AmmError::SlippageExceeded),
    }
}

/// The amount that the vault must send so that `amount_out` arrives: `MathOverflow`
/// where no such amount fits in 64 bits, `InsufficientFunds` where the vault holds less.
pub open spec fn spec_gross_output(output: TokenExtensions, amount_out: int, vault_out: int) -> Result<
    u64,
    AmmError,
> {
    if !output.spec_gross_for_net_defined(amount_out) {
        Err(AmmError::MathOverflow)
    } else if output.spec_gross_for_net(amount_out) > vault_out {
        Err(AmmError::InsufficientFunds)
    } else {
        Ok(output.spec_gross_for_net(amount_out) as u64)
    }
}

/// Computes the amount that the vault must send so that `amount_out` arrives.
pub fn gross_output(output: &TokenExtensions, amount_out: u64, vault_out: u64) -> (gross: Result<
    u64,
    AmmError,
>)
    ensures
        gross == spec_gross_output(*output, amount_out as int, vault_out as int),
{
    match output.checked_gross_for_net(amount_out) {
        None => Err(AmmError::MathOverflow),
        Some(gross) => {
            if gross <= vault_out {
                Ok(gross)
            } else {
                Err(AmmError::InsufficientFunds)
            }
        },
    }
}

/// What a swap decides: the amounts, and the two transfers that carry it out.
#[derive(Clone, Copy, Debug, PartialEq, Eq, Structural)]
pub struct SwapPlan {
    /// Trading fee used, in basis points.
    pub fee_basis_points: u16,
    /// What the curve moves: the amount that reaches the vault, the amount the user must
    /// receive, and the trading fee within the former.
    pub moved: SwapResult,
    /// The user pays in the amount given, before the token type's fee.
    pub deposit: TransferInstruction,
    /// The vault pays out the amount that leaves the user with the curve's output.
    pub withdraw: TransferInstruction,
}

/// The accounts of a swap.
#[derive(Clone, Debug)]
pub struct Swap {
    pub user: Address,
    pub mint_x: Mint,
    pub mint_y: Mint,
    pub user_x: TokenAccount,
    pub user_y: TokenAccount,
    pub vault_x: TokenAccount,
    pub vault_y: TokenAccount,
    pub config: Config,
    pub mint_lp: Mint,
    pub user_lp: TokenAccount,
}

impl Swap {
    /// The token type on side X, or on side Y.
    pub open spec fn mint(&self, is_x: bool) -> Mint {
        if is_x {
            self.mint_x
        } else {
            self.mint_y
        }
    }

    /// Whether the profile of the token type on a side can be read.
    pub open spec fn readable(&self, is_x: bool) -> bool {
        TokenExtensions::readable(self.mint(is_x).account.owner@, self.mint(is_x).account.data@)
    }

    /// The profile of the token type on a side.
    pub open spec fn extensions(&self, is_x: bool) -> TokenExtensions {
        TokenExtensions::of(self.mint(is_x).account.owner@, self.mint(is_x).account.data@)
    }

    /// The trading fee that the fee controller sets for this swap, if one applies: both
    /// token types can be read, and [`spec_select_dynamic_fee`] finds one.
    pub open spec fn spec_dynamic_fee(&self, remaining_accounts: Seq<AccountData>) -> Option<u64> {
        if self.readable(true) && self.readable(false) {
            spec_select_dynamic_fee(
                self.extensions(true),
                self.extensions(false),
                self.config.approved_hook_programs@,
                remaining_accounts,
            )
        } else {
            None
        }
    }

    /// The trading fee of this swap: the fee controller's where one applies, else the
    /// pool's own.
    pub open spec fn spec_fee(&self, remaining_accounts: Seq<AccountData>) -> u16 {
        match self.spec_dynamic_fee(remaining_accounts) {
            Some(fee) => fee as u16,
            None => self.config.fee,
        }
    }

    /// The transfer of `amount` of a token type from the user into the vault.
    pub open spec fn spec_deposit_tokens(&self, is_x: bool, amount: int) -> TransferInstruction {
        TransferInstruction {
            is_x,
            authority: TransferAuthority::User,
            kind: spec_transfer_kind(self.extensions(is_x), amount),
            amount: amount as u64,
            decimals: self.mint(is_x).decimals,
        }
    }

    /// The transfer of `amount` of a token type from the vault to the user.
    pub open spec fn spec_withdraw_tokens(&self, is_x: bool, amount: int) -> TransferInstruction {
        TransferInstruction {
            is_x,
            authority: TransferAuthority::Pool,
            kind: spec_transfer_kind(self.extensions(is_x), amount),
            amount: amount as u64,
            decimals: self.mint(is_x).decimals,
        }
    }

    /// The outcome of a swap; `Err(None)` where the account of a token type cannot be
    /// read, `Err(Some(..))` where a rule of the pool refuses.
    pub open spec fn spec_swap(
        &self,
        is_x: bool,
        amount: int,
        min: int,
        remaining_accounts: Seq<AccountData>,
    ) -> Result<SwapPlan, Option<AmmError>> {
        let vault_out = if is_x {
            self.vault_y.amount
        } else {
            self.vault_x.amount
        };
        if self.config.locked {
            Err(Some(AmmError::PoolLocked))
        } else if self.config.mint_x@ != self.mint_x.account.key@ || self.config.mint_y@
            != self.mint_y.account.key@ {
            Err(Some(AmmError::InvalidToken))
        } else if !self.readable(is_x) {
            Err(None)
        } else {
            match spec_quote_swap(
                is_x,
                amount,
                min,
                self.extensions(is_x),
                self.vault_x.amount as int,
                self.vault_y.amount as int,
                self.mint_lp.supply as int,
                self.spec_fee(remaining_accounts) as int,
            ) {
                Err(e) => Err(Some(e)),
                Ok(moved) => if !self.readable(!is_x) {
                    Err(None)
                } else {
                    match spec_gross_output(
                        self.extensions(!is_x),
                        moved.withdraw as int,
                        vault_out as int,
                    ) {
                        Err(e) => Err(Some(e)),
                        Ok(gross) => Ok(
                            SwapPlan {
                                fee_basis_points: self.spec_fee(remaining_accounts),
                                moved,
                                deposit: self.spec_deposit_tokens(is_x, amount),
                                withdraw: self.spec_withdraw_tokens(!is_x, gross as int),
                            },
                        ),
                    }
                },
            }
        }
    }

    /// Decides a swap of `amount` of token X for token Y (`is_x`), or of Y for X, that
    /// must leave the user with at least `min`. The pool must not be locked
    /// (`PoolLocked`) and the token types must be the pool's (`InvalidToken`). The rest
    /// is [`spec_quote_swap`] on what is left of `amount` after the input token's
    /// transfer fee, at the fee controller's trading fee where one applies, and
    /// [`spec_gross_output`] for the output token. Nothing is transferred here: the plan
    /// names the transfers to make.
    pub fn swap(&self, is_x: bool, amount: u64, min: u64, remaining_accounts: &[AccountData]) -> (plan:
        Result<SwapPlan, Error>)
        ensures
            outcome_is(plan, self.spec_swap(is_x, amount as int, min as int, remaining_accounts@)),
    {
        if self.config.locked {
            return Err(Error::Amm(AmmError::PoolLocked));
        }
        if !self.config.mint_x.same(&self.mint_x.account.key) || !self.config.mint_y.same(
            &self.mint_y.account.key,
        ) {
            return Err(Error::Amm(AmmError::InvalidToken));
        }
        let (input_mint, output_mint) = if is_x {
            (&self.mint_x, &self.mint_y)
        } else {
            (&self.mint_y, &self.mint_x)
        };
        let input_ext = match TokenExtensions::new(&input_mint.account) {
            Ok(extensions) => extensions,
            Err(e) => {
                return Err(e);
            },
        };
        let dynamic_fee: u16 = match self.get_dynamic_fee(remaining_accounts) {
            Some(fee) => fee as u16,
            None => self.config.fee,
        };
        let moved = match quote_swap(
            is_x,
            amount,
            min,
            &*input_ext,
            self.vault_x.amount,
            self.vault_y.amount,
            self.mint_lp.supply,
            dynamic_fee,
        ) {
            Ok(moved) => moved,
            Err(e) => {
                return Err(Error::Amm(e));
            },
        };
        let output_ext = match TokenExtensions::new(&output_mint.account) {
            Ok(extensions) => extensions,
            Err(e) => {
                return Err(e);
            },
        };
        let vault_balance = if is_x {
            self.vault_y.amount
        } else {
            self.vault_x.amount
        };
        let gross = match gross_output(&*output_ext, moved.withdraw, vault_balance) {
            Ok(gross) => gross,
            Err(e) => {
                return Err(Error::Amm(e));
            },
        };
        let deposit = match self.deposit_tokens(is_x, amount) {
            Ok(transfer) => transfer,
            Err(e) => {
                return Err(e);
            },
        };
        let withdraw = match self.withdraw_tokens(!is_x, gross) {
            Ok(transfer) => transfer,
            Err(e) => {
                return Err(e);
            },
        };
        Ok(SwapPlan { fee_basis_points: dynamic_fee, moved, deposit, withdraw })
    }

    /// The transfer that takes `amount` of a token type from the user into the vault, in
    /// the form that the token type calls for. An error where the token type's account
    /// cannot be read.
    pub fn deposit_tokens(&self, is_x: bool, amount: u64) -> (transfer: Result<
        TransferInstruction,
        Error,
    >)
        ensures
            transfer is Ok <==> self.readable(is_x),
            transfer matches Ok(t) ==> t == self.spec_deposit_tokens(is_x, amount as int),
            transfer matches Err(e) ==> e is Program,
    {
        let mint = if is_x {
            &self.mint_x
        } else {
            &self.mint_y
        };
        let decimals = mint.decimals;
        let extensions = match TokenExtensions::new(&mint.account) {
            Ok(extensions) => extensions,
            Err(e) => {
                return Err(e);
            },
        };
        Ok(
            TransferInstruction {
                is_x,
                authority: TransferAuthority::User,
                kind: transfer_kind(&*extensions, amount),
                amount,
                decimals,
            },
        )
    }

    /// The transfer that sends `amount` of a token type from the vault to the user, in
    /// the form that the token type calls for. An error where the token type's account
    /// cannot be read.
    pub fn withdraw_tokens(&self, is_x: bool, amount: u64) -> (transfer: Result<
        TransferInstruction,
        Error,
    >)
        ensures
            transfer is Ok <==> self.readable(is_x),
            transfer matches Ok(t) ==> t == self.spec_withdraw_tokens(is_x, amount as int),
            transfer matches Err(e) ==> e is Program,
    {
        let mint = if is_x {
            &self.mint_x
        } else {
            &self.mint_y
        };
        let decimals = mint.decimals;
        let extensions = match TokenExtensions::new(&mint.account) {
            Ok(extensions) => extensions,
            Err(e) => {
                return Err(e);
            },
        };
        Ok(
            TransferInstruction {
                is_x,
                authority: TransferAuthority::Pool,
                kind: transfer_kind(&*extensions, amount),
                amount,
                decimals,
            },
        )
    }

    /// Reads the trading fee that the fee controller sets for this swap, if one applies.
    pub fn get_dynamic_fee(&self, remaining_accounts: &[AccountData]) -> (fee: Option<u64>)
        ensures
            fee == self.spec_dynamic_fee(remaining_accounts@),
            fee matches Some(f) ==> f <= u16::MAX,
    {
        let x_extensions = match TokenExtensions::new(&self.mint_x.account) {
            Ok(extensions) => extensions,
            Err(_) => {
                return None;
            },
        };
        let y_extensions = match TokenExtensions::new(&self.mint_y.account) {
            Ok(extensions) => extensions,
            Err(_) => {
                return None;
            },
        };
        select_dynamic_fee(
            &*x_extensions,
            &*y_extensions,
            self.config.approved_hook_programs.as_slice(),
            remaining_accounts,
        )
    }
}

/// A swap that succeeds never lowers the product of the two vaults, where the token paid
/// out charges no transfer fee: the vault of the token paid in grows by what reaches it,
/// the other shrinks by the curve's output, and the product of the two is at least what
/// it was.
pub proof fn lemma_swap_never_lowers_product(
    is_x: bool,
    amount: u64,
    min: u64,
    input: TokenExtensions,
    output: TokenExtensions,
    vault_x: u64,
    vault_y: u64,
    supply: u64,
    fee: u16,
)
    requires
        !output.has_transfer_fee || output.transfer_fee_basis_points == 0,
        spec_quote_swap(
            is_x,
            amount as int,
            min as int,
            input,
            vault_x as int,
            vault_y as int,
            supply as int,
            fee as int,
        ) is Ok,
        spec_gross_output(
            output,
            spec_quote_swap(
                is_x,
                amount as int,
                min as int,
                input,
                vault_x as int,
                vault_y as int,
                supply as int,
                fee as int,
            )->Ok_0.withdraw as int,
            if is_x {
                vault_y as int
            } else {
                vault_x as int
            },
        ) is Ok,
    ensures
        ({
            let moved = spec_quote_swap(
                is_x,
                amount as int,
                min as int,
                input,
                vault_x as int,
                vault_y as int,
                supply as int,
                fee as int,
            )->Ok_0;
            let vault_in = if is_x {
                vault_x as int
            } else {
                vault_y as int
            };
            let vault_out = if is_x {
                vault_y as int
            } else {
                vault_x as int
            };
            let gross = spec_gross_output(output, moved.withdraw as int, vault_out)->Ok_0;
            &&& moved.deposit == input.spec_net(amount as int)
            &&& gross == moved.withdraw
            &&& gross <= vault_out
            &&& (vault_in + moved.deposit) * (vault_out - gross) >= vault_in * vault_out
        }),
{
    let pair = if is_x {
        LiquidityPair::X
    } else {
        LiquidityPair::Y
    };
    let curve = ConstantProduct { x: vault_x, y: vault_y, l: supply, fee };
    let net = input.spec_net(amount as int);
    crate::curve::lemma_swap_facts(
        curve.reserve_in(pair),
        curve.reserve_out(pair),
        fee as int,
        net,
    );
}

/// The fee controller's fee counts only for an approved hook program: where the hook
/// program that governs the pool is not on the pool's list of approved hook programs,
/// the swap runs at the pool's own trading fee, whatever the additional accounts hold.
pub proof fn lemma_unapproved_hook_program_sets_no_fee(
    swap: Swap,
    remaining_accounts: Seq<AccountData>,
)
    requires
        spec_hook_program(swap.extensions(true), swap.extensions(false)) matches Some(program)
            ==> !swap.config.spec_is_approved(program@),
    ensures
        swap.spec_dynamic_fee(remaining_accounts) is None,
        swap.spec_fee(remaining_accounts) == swap.config.fee,
{
}

} // verus!
