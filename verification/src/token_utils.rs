use crate::accounts::AccountData;
use crate::address::Address;
use crate::error::AmmError;
use crate::error::Error;
use crate::mint_data::check_mint_unpacks;
use crate::mint_data::is_legacy_token_program;
use crate::mint_data::is_token_2022_program;
use crate::mint_data::legacy_token_program;
use crate::mint_data::mint_transfer_fee;
use crate::mint_data::mint_transfer_hook;
use crate::mint_data::mint_unpacks;
use crate::mint_data::token_2022_program;
use crate::mint_data::unpack_transfer_fee;
use crate::mint_data::unpack_transfer_hook;
use vstd::arithmetic::div_mod::lemma_fundamental_div_mod;
use vstd::arithmetic::div_mod::lemma_mod_bound;
use vstd::prelude::*;

verus! {

/// The transfer fee on `amount`: `basis_points` ten-thousandths of it, rounded down, and
/// never more than `maximum`.
pub open spec fn spec_transfer_fee(amount: int, basis_points: int, maximum: int) -> int {
    let raw = amount * basis_points / 10_000;
    if raw < maximum {
        raw
    } else {
        maximum
    }
}

/// What is left of `amount` once `fee` is taken, and nothing if the fee is larger.
pub open spec fn spec_after_fee(amount: int, fee: int) -> int {
    if fee <= amount {
        amount - fee
    } else {
        0
    }
}

/// The least amount to send so that `net` is left after a fee of `basis_points`: `net`
/// divided by the share that is kept, rounded up. Meant for `basis_points` below 10 000.
pub open spec fn spec_gross_amount(net: int, basis_points: int) -> int {
    if basis_points == 0 {
        net
    } else {
        (net * 10_000 + (10_000 - basis_points) - 1) / (10_000 - basis_points)
    }
}

/// Whether the gross amount for `net` exists and fits in 64 bits.
pub open spec fn spec_gross_defined(net: int, basis_points: int) -> bool {
    basis_points < 10_000 && spec_gross_amount(net, basis_points) <= u64::MAX
}

/// The gross amount for a net amount covers the fee on itself: what is left after the fee
/// is at least the net amount, whatever the fee's maximum. Where the maximum does not cut
/// the fee, what is left exceeds the net amount by at most one unit.
pub proof fn lemma_gross_covers_fee(net: int, basis_points: int, maximum: int)
    requires
        0 <= net,
        0 <= basis_points < 10_000,
        0 <= maximum,
    ensures
        net <= spec_gross_amount(net, basis_points),
        spec_transfer_fee(spec_gross_amount(net, basis_points), basis_points, maximum)
            <= spec_gross_amount(net, basis_points) - net,
        spec_gross_amount(net, basis_points) * basis_points / 10_000 <= maximum
            ==> spec_gross_amount(net, basis_points) - spec_transfer_fee(
            spec_gross_amount(net, basis_points),
            basis_points,
            maximum,
        ) <= net + 1,
{
    let gross = spec_gross_amount(net, basis_points);
    if basis_points > 0 {
        let kept = 10_000 - basis_points;
        let top = net * 10_000 + kept - 1;
        lemma_fundamental_div_mod(top, kept);
        lemma_mod_bound(top, kept);
        assert(gross * kept >= net * 10_000 && gross * kept <= net * 10_000 + kept - 1
            && gross >= net) by (nonlinear_arith)
            requires
                top == kept * gross + top % kept,
                0 <= top % kept < kept,
                top == net * 10_000 + kept - 1,
                0 < kept <= 10_000,
                0 <= net,
        ;
        assert(gross * basis_points == gross * 10_000 - gross * kept) by (nonlinear_arith)
            requires
                kept == 10_000 - basis_points,
        ;
    }
}

/// The transfer fee of a token type, as far as the pool uses it.
#[derive(Clone, Copy, Debug)]
pub struct TransferFeeConfig {
    /// Fee in basis points of the amount sent.
    pub transfer_fee_basis_points: u16,
    /// The most that one transfer is charged.
    pub maximum_fee: u64,
}

/// The fee that a transfer of `amount` is charged under `fee_config`.
pub fn calculate_transfer_fee(amount: u64, fee_config: &TransferFeeConfig) -> (fee: u64)
    ensures
        fee == spec_transfer_fee(
            amount as int,
            fee_config.transfer_fee_basis_points as int,
            fee_config.maximum_fee as int,
        ),
{
    fee_of(amount, fee_config.transfer_fee_basis_points, fee_config.maximum_fee)
}

/// The least amount to send so that `net_amount` arrives under `fee_config`, the fee's
/// maximum left aside. The fee must leave something of a transfer, and the amount must
/// fit in 64 bits.
pub fn calculate_gross_amount(net_amount: u64, fee_config: &TransferFeeConfig) -> (gross: u64)
    requires
        spec_gross_defined(net_amount as int, fee_config.transfer_fee_basis_points as int),
    ensures
        gross == spec_gross_amount(net_amount as int, fee_config.transfer_fee_basis_points as int),
{
    match gross_of(net_amount, fee_config.transfer_fee_basis_points) {
        Some(gross) => gross,
        None => vstd::pervasive::unreached(),
    }
}

/// What arrives of a transfer of `gross_amount` under `fee_config`: nothing where the
/// fee is larger than the amount.
pub fn calculate_net_amount(gross_amount: u64, fee_config: &TransferFeeConfig) -> (net: u64)
    ensures
        net == spec_after_fee(
            gross_amount as int,
            spec_transfer_fee(
                gross_amount as int,
                fee_config.transfer_fee_basis_points as int,
                fee_config.maximum_fee as int,
            ),
        ),
{
    let fee = calculate_transfer_fee(gross_amount, fee_config);
    gross_amount.saturating_sub(fee)
}

/// Whether a mint is owned by the Token-2022 program.
pub fn is_token_2022_mint(mint_account: &AccountData) -> (yes: bool)
    ensures
        yes == token_2022_program(mint_account.owner@),
{
    is_token_2022_program(&mint_account.owner)
}

/// Whether a mint is owned by the legacy Token program.
pub fn is_legacy_token_mint(mint_account: &AccountData) -> (yes: bool)
    ensures
        yes == legacy_token_program(mint_account.owner@),
{
    is_legacy_token_program(&mint_account.owner)
}

/// Whether a mint has the transfer fee extension. A mint of another program than
/// Token-2022 has none; one of Token-2022 whose bytes do not unpack is an error.
pub fn has_transfer_fee_extension(mint_account: &AccountData) -> (found: Result<bool, Error>)
    ensures
        !token_2022_program(mint_account.owner@) ==> found == Ok::<bool, Error>(false),
        token_2022_program(mint_account.owner@) && mint_unpacks(mint_account.data@) ==> found
            == Ok::<bool, Error>(mint_transfer_fee(mint_account.data@) is Some),
        token_2022_program(mint_account.owner@) && !mint_unpacks(mint_account.data@)
            ==> found matches Err(Error::Program(_)),
{
    if !is_token_2022_program(&mint_account.owner) {
        return Ok(false);
    }
    match check_mint_unpacks(mint_account.data.as_slice()) {
        Err(e) => Err(Error::Program(e)),
        Ok(_) => Ok(unpack_transfer_fee(mint_account.data.as_slice()).is_some()),
    }
}

/// Whether a mint has the transfer hook extension. A mint of another program than
/// Token-2022 has none; one of Token-2022 whose bytes do not unpack is an error.
pub fn has_transfer_hook_extension(mint_account: &AccountData) -> (found: Result<bool, Error>)
    ensures
        !token_2022_program(mint_account.owner@) ==> found == Ok::<bool, Error>(false),
        token_2022_program(mint_account.owner@) && mint_unpacks(mint_account.data@) ==> found
            == Ok::<bool, Error>(mint_transfer_hook(mint_account.data@) is Some),
        token_2022_program(mint_account.owner@) && !mint_unpacks(mint_account.data@)
            ==> found matches Err(Error::Program(_)),
{
    if !is_token_2022_program(&mint_account.owner) {
        return Ok(false);
    }
    match check_mint_unpacks(mint_account.data.as_slice()) {
        Err(e) => Err(Error::Program(e)),
        Ok(_) => Ok(unpack_transfer_hook(mint_account.data.as_slice()).is_some()),
    }
}

/// The transfer fee configuration of a mint: an error of the unpacking where the bytes do
/// not unpack, `TransferFeeNotFound` where they do and hold no transfer fee.
pub fn get_transfer_fee_config(mint_account: &AccountData) -> (config: Result<
    TransferFeeConfig,
    Error,
>)
    ensures
        !mint_unpacks(mint_account.data@) ==> config matches Err(Error::Program(_)),
        mint_unpacks(mint_account.data@) ==> match mint_transfer_fee(mint_account.data@) {
            Some((basis_points, maximum)) => config matches Ok(c) && c.transfer_fee_basis_points
                == basis_points && c.maximum_fee == maximum,
            None => config == Err::<TransferFeeConfig, Error>(
                Error::Amm(AmmError::TransferFeeNotFound),
            ),
        },
{
    match check_mint_unpacks(mint_account.data.as_slice()) {
        Err(e) => Err(Error::Program(e)),
        Ok(_) => match unpack_transfer_fee(mint_account.data.as_slice()) {
            Some((basis_points, maximum)) => Ok(
                TransferFeeConfig { transfer_fee_basis_points: basis_points, maximum_fee: maximum },
            ),
            None => Err(Error::Amm(AmmError::TransferFeeNotFound)),
        },
    }
}

/// The transfer hook program of a mint: an error of the unpacking where the bytes do not
/// unpack, `TransferHookNotFound` where they do and hold no transfer hook.
pub fn get_transfer_hook_program_id(mint_account: &AccountData) -> (program: Result<
    Address,
    Error,
>)
    ensures
        !mint_unpacks(mint_account.data@) ==> program matches Err(Error::Program(_)),
        mint_unpacks(mint_account.data@) ==> match mint_transfer_hook(mint_account.data@) {
            Some(bytes) => program matches Ok(p) && p@ == bytes,
            None => program == Err::<Address, Error>(Error::Amm(AmmError::TransferHookNotFound)),
        },
{
    match check_mint_unpacks(mint_account.data.as_slice()) {
        Err(e) => Err(Error::Program(e)),
        Ok(_) => match unpack_transfer_hook(mint_account.data.as_slice()) {
            Some(program) => Ok(program),
            None => Err(Error::Amm(AmmError::TransferHookNotFound)),
        },
    }
}

/// What the pool needs to know of a token type: whether transfers are charged a fee, at
/// what rate and up to what amount, and whether a hook program runs on each transfer.
#[derive(Clone, Copy, Debug)]
pub struct TokenExtensions {
    pub has_transfer_fee: bool,
    pub has_transfer_hook: bool,
    pub transfer_hook_program_id: Option<Address>,
    pub transfer_fee_basis_points: u16,
    pub transfer_fee_maximum: u64,
}

impl TokenExtensions {
    /// The profile of a token type without extensions.
    pub open spec fn is_plain(&self) -> bool {
        &&& !self.has_transfer_fee
        &&& !self.has_transfer_hook
        &&& self.transfer_hook_program_id is None
        &&& self.transfer_fee_basis_points == 0
        &&& self.transfer_fee_maximum == 0
    }

    /// Whether the profile of the mint with this owner and these bytes can be read: the
    /// mint belongs to another program than Token-2022, or its bytes unpack.
    pub open spec fn readable(owner: Seq<u8>, data: Seq<u8>) -> bool {
        !token_2022_program(owner) || mint_unpacks(data)
    }

    /// Whether this is the profile of the mint with this owner and these bytes.
    pub open spec fn describes(&self, owner: Seq<u8>, data: Seq<u8>) -> bool {
        if !token_2022_program(owner) {
            self.is_plain()
        } else {
            &&& self.has_transfer_fee == (mint_transfer_fee(data) is Some)
            &&& match mint_transfer_fee(data) {
                Some((basis_points, maximum)) => self.transfer_fee_basis_points == basis_points
                    && self.transfer_fee_maximum == maximum,
                None => self.transfer_fee_basis_points == 0 && self.transfer_fee_maximum == 0,
            }
            &&& self.has_transfer_hook == (mint_transfer_hook(data) is Some)
            &&& match mint_transfer_hook(data) {
                Some(bytes) => self.transfer_hook_program_id matches Some(p) && p@ == bytes,
                None => self.transfer_hook_program_id is None,
            }
        }
    }

    /// The profile of the mint with this owner and these bytes.
    pub open spec fn of(owner: Seq<u8>, data: Seq<u8>) -> TokenExtensions {
        choose|e: TokenExtensions| e.describes(owner, data)
    }

    /// A mint has one profile only.
    pub proof fn lemma_profile_unique(self, owner: Seq<u8>, data: Seq<u8>)
        requires
            self.describes(owner, data),
        ensures
            self == TokenExtensions::of(owner, data),
    {
        let other = TokenExtensions::of(owner, data);
        assert(other.describes(owner, data));
        if self.transfer_hook_program_id is Some {
            let a = self.transfer_hook_program_id->0;
            let b = other.transfer_hook_program_id->0;
            assert(a.bytes@ =~= b.bytes@);
            vstd::array::axiom_array_ext_equal(a.bytes, b.bytes);
            assert(a.bytes == b.bytes);
        }
    }

    /// The fee that a transfer of `amount` of this token type is charged.
    pub open spec fn spec_fee(&self, amount: int) -> int {
        if self.has_transfer_fee {
            spec_transfer_fee(
                amount,
                self.transfer_fee_basis_points as int,
                self.transfer_fee_maximum as int,
            )
        } else {
            0
        }
    }

    /// What arrives of a transfer of `amount` of this token type.
    pub open spec fn spec_net(&self, amount: int) -> int {
        spec_after_fee(amount, self.spec_fee(amount))
    }

    /// The amount to send of this token type so that `net` arrives, the fee's maximum
    /// left aside.
    pub open spec fn spec_gross_for_net(&self, net: int) -> int {
        if self.has_transfer_fee {
            spec_gross_amount(net, self.transfer_fee_basis_points as int)
        } else {
            net
        }
    }

    /// Whether the gross amount for `net` exists and fits in 64 bits.
    pub open spec fn spec_gross_for_net_defined(&self, net: int) -> bool {
        self.has_transfer_fee ==> spec_gross_defined(net, self.transfer_fee_basis_points as int)
    }

    /// Reads the profile of a mint.
    pub fn new(mint_account: &AccountData) -> (extensions: Result<Box<TokenExtensions>, Error>)
        ensures
            extensions is Ok <==> TokenExtensions::readable(
                mint_account.owner@,
                mint_account.data@,
            ),
            extensions matches Ok(e) ==> e.describes(mint_account.owner@, mint_account.data@)
                && *e == TokenExtensions::of(mint_account.owner@, mint_account.data@),
            extensions matches Err(e) ==> e is Program,
    {
        match TokenExtensions::create_extensions(mint_account) {
            Ok(extensions) => Ok(Box::new(extensions)),
            Err(e) => Err(e),
        }
    }

    fn create_extensions(mint_account: &AccountData) -> (extensions: Result<
        TokenExtensions,
        Error,
    >)
        ensures
            extensions is Ok <==> TokenExtensions::readable(
                mint_account.owner@,
                mint_account.data@,
            ),
            extensions matches Ok(e) ==> e.describes(mint_account.owner@, mint_account.data@)
                && e == TokenExtensions::of(mint_account.owner@, mint_account.data@),
            extensions matches Err(e) ==> e is Program,
    {
        if !is_token_2022_mint(mint_account) {
            let plain = TokenExtensions {
                has_transfer_fee: false,
                has_transfer_hook: false,
                transfer_hook_program_id: None,
                transfer_fee_basis_points: 0,
                transfer_fee_maximum: 0,
            };
            proof {
                plain.lemma_profile_unique(mint_account.owner@, mint_account.data@);
            }
            return Ok(plain);
        }
        let has_transfer_fee = match has_transfer_fee_extension(mint_account) {
            Ok(found) => found,
            Err(e) => {
                return Err(e);
            },
        };
        let has_transfer_hook = match has_transfer_hook_extension(mint_account) {
            Ok(found) => found,
            Err(e) => {
                return Err(e);
            },
        };
        let (transfer_fee_basis_points, transfer_fee_maximum) = if has_transfer_fee {
            match get_transfer_fee_config(mint_account) {
                Ok(config) => (config.transfer_fee_basis_points, config.maximum_fee),
                Err(e) => {
                    return Err(e);
                },
            }
        } else {
            (0, 0)
        };
        let transfer_hook_program_id = if has_transfer_hook {
            match get_transfer_hook_program_id(mint_account) {
                Ok(program) => Some(program),
                Err(e) => {
                    return Err(e);
                },
            }
        } else {
            None
        };
        let extensions = TokenExtensions {
            has_transfer_fee,
            has_transfer_hook,
            transfer_hook_program_id,
            transfer_fee_basis_points,
            transfer_fee_maximum,
        };
        proof {
            extensions.lemma_profile_unique(mint_account.owner@, mint_account.data@);
        }
        Ok(extensions)
    }

    /// The fee that a transfer of `amount` of this token type is charged: none where it
    /// has no transfer fee.
    pub fn calculate_fee(&self, amount: u64) -> (fee: u64)
        ensures
            fee == self.spec_fee(amount as int),
    {
        if self.has_transfer_fee {
            fee_of(amount, self.transfer_fee_basis_points, self.transfer_fee_maximum)
        } else {
            0
        }
    }

    /// What arrives of `amount` once this token's fee is taken.
    pub fn calculate_net(&self, amount: u64) -> (net: u64)
        ensures
            net == self.spec_net(amount as int),
    {
        amount.saturating_sub(self.calculate_fee(amount))
    }

    /// The least amount to send of this token type so that `net_amount` arrives, the
    /// fee's maximum left aside. The fee must leave something of a transfer, and the
    /// amount must fit in 64 bits.
    pub fn calculate_gross_for_net(&self, net_amount: u64) -> (gross: u64)
        requires
            self.spec_gross_for_net_defined(net_amount as int),
        ensures
            gross == self.spec_gross_for_net(net_amount as int),
    {
        match self.checked_gross_for_net(net_amount) {
            Some(gross) => gross,
            None => vstd::pervasive::unreached(),
        }
    }

    /// The gross amount for `net_amount`, or `None` where the fee takes everything or the
    /// gross amount does not fit in 64 bits.
    pub fn checked_gross_for_net(&self, net_amount: u64) -> (gross: Option<u64>)
        ensures
            gross is Some <==> self.spec_gross_for_net_defined(net_amount as int),
            gross matches Some(g) ==> g == self.spec_gross_for_net(net_amount as int),
    {
        if self.has_transfer_fee {
            gross_of(net_amount, self.transfer_fee_basis_points)
        } else {
            Some(net_amount)
        }
    }

    /// Whether a mint charges a transfer fee, without reading the rest of its profile.
    pub fn has_fee_only(mint_account: &AccountData) -> (found: Result<bool, Error>)
        ensures
            !token_2022_program(mint_account.owner@) ==> found == Ok::<bool, Error>(false),
            token_2022_program(mint_account.owner@) && mint_unpacks(mint_account.data@)
                ==> found == Ok::<bool, Error>(mint_transfer_fee(mint_account.data@) is Some),
            token_2022_program(mint_account.owner@) && !mint_unpacks(mint_account.data@)
                ==> found matches Err(Error::Program(_)),
    {
        if !is_token_2022_mint(mint_account) {
            return Ok(false);
        }
        has_transfer_fee_extension(mint_account)
    }

    /// Whether a mint runs a transfer hook, without reading the rest of its profile.
    pub fn has_hook_only(mint_account: &AccountData) -> (found: Result<bool, Error>)
        ensures
            !token_2022_program(mint_account.owner@) ==> found == Ok::<bool, Error>(false),
            token_2022_program(mint_account.owner@) && mint_unpacks(mint_account.data@)
                ==> found == Ok::<bool, Error>(mint_transfer_hook(mint_account.data@) is Some),
            token_2022_program(mint_account.owner@) && !mint_unpacks(mint_account.data@)
                ==> found matches Err(Error::Program(_)),
    {
        if !is_token_2022_mint(mint_account) {
            return Ok(false);
        }
        has_transfer_hook_extension(mint_account)
    }
}

/// The fee on `amount` that the mint with this owner and these bytes charges: nothing
/// unless it is a Token-2022 mint with a transfer fee.
pub open spec fn spec_fee_direct(owner: Seq<u8>, data: Seq<u8>, amount: int) -> int {
    if token_2022_program(owner) {
        match mint_transfer_fee(data) {
            Some((basis_points, maximum)) => spec_transfer_fee(
                amount,
                basis_points as int,
                maximum as int,
            ),
            None => 0,
        }
    } else {
        0
    }
}

/// The basis points that the mint with this owner and these bytes charges: none unless it
/// is a Token-2022 mint with a transfer fee.
pub open spec fn spec_fee_rate_direct(owner: Seq<u8>, data: Seq<u8>) -> int {
    if token_2022_program(owner) {
        match mint_transfer_fee(data) {
            Some((basis_points, maximum)) => basis_points as int,
            None => 0,
        }
    } else {
        0
    }
}

/// The transfer fee on `amount` of the token type of `mint_account`, read from the mint's
/// bytes: nothing for a mint without the fee extension.
pub fn calculate_fee_direct(mint_account: &AccountData, amount: u64) -> (fee: Result<u64, Error>)
    ensures
        fee is Ok <==> TokenExtensions::readable(mint_account.owner@, mint_account.data@),
        fee matches Ok(f) ==> f == spec_fee_direct(
            mint_account.owner@,
            mint_account.data@,
            amount as int,
        ),
        fee matches Err(e) ==> e is Program,
{
    if !is_token_2022_mint(mint_account) {
        return Ok(0);
    }
    match has_transfer_fee_extension(mint_account) {
        Err(e) => {
            return Err(e);
        },
        Ok(false) => {
            return Ok(0);
        },
        Ok(true) => {},
    }
    match get_transfer_fee_config(mint_account) {
        Err(e) => Err(e),
        Ok(config) => Ok(fee_of(amount, config.transfer_fee_basis_points, config.maximum_fee)),
    }
}

/// The gross amount to send of the token type of `mint_account` so that `net_amount`
/// arrives, read from the mint's bytes. `MathOverflow` where no such amount fits.
pub fn calculate_gross_for_net_direct(mint_account: &AccountData, net_amount: u64) -> (gross:
    Result<u64, Error>)
    ensures
        !TokenExtensions::readable(mint_account.owner@, mint_account.data@) ==> gross matches Err(
            Error::Program(_),
        ),
        TokenExtensions::readable(mint_account.owner@, mint_account.data@) ==> gross == (
        if spec_fee_rate_direct(mint_account.owner@, mint_account.data@) == 0 {
            Ok::<u64, Error>(net_amount)
        } else if spec_gross_defined(
            net_amount as int,
            spec_fee_rate_direct(mint_account.owner@, mint_account.data@),
        ) {
            Ok::<u64, Error>(
                spec_gross_amount(
                    net_amount as int,
                    spec_fee_rate_direct(mint_account.owner@, mint_account.data@),
                ) as u64,
            )
        } else {
            Err::<u64, Error>(Error::Amm(AmmError::MathOverflow))
        }),
{
    if !is_token_2022_mint(mint_account) {
        return Ok(net_amount);
    }
    match has_transfer_fee_extension(mint_account) {
        Err(e) => {
            return Err(e);
        },
        Ok(false) => {
            return Ok(net_amount);
        },
        Ok(true) => {},
    }
    match get_transfer_fee_config(mint_account) {
        Err(e) => Err(e),
        Ok(config) => match gross_of(net_amount, config.transfer_fee_basis_points) {
            Some(gross) => Ok(gross),
            None => Err(Error::Amm(AmmError::MathOverflow)),
        },
    }
}

/// The fee on `amount` at `basis_points`, capped at `maximum`.
fn fee_of(amount: u64, basis_points: u16, maximum: u64) -> (fee: u64)
    ensures
        fee == spec_transfer_fee(amount as int, basis_points as int, maximum as int),
{
    assert(amount * basis_points <= 0xffff_ffff_ffff_ffff * 0xffff) by (nonlinear_arith)
        requires
            amount <= 0xffff_ffff_ffff_ffff,
            basis_points <= 0xffff,
    ;
    let raw: u128 = (amount as u128) * (basis_points as u128) / 10_000;
    if raw < maximum as u128 {
        raw as u64
    } else {
        maximum
    }
}

/// The gross amount for `net` at `basis_points`, where it exists and fits.
fn gross_of(net: u64, basis_points: u16) -> (gross: Option<u64>)
    ensures
        gross is Some <==> spec_gross_defined(net as int, basis_points as int),
        gross matches Some(g) ==> g == spec_gross_amount(net as int, basis_points as int),
{
    if basis_points == 0 {
        return Some(net);
    }
    if basis_points >= 10_000 {
        return None;
    }
    let kept: u128 = 10_000 - basis_points as u128;
    let top: u128 = (net as u128) * 10_000 + kept - 1;
    let gross: u128 = top / kept;
    if gross > u64::MAX as u128 {
        None
    } else {
        Some(gross as u64)
    }
}

} // verus!
