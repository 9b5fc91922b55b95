use crate::address::Address;
use anchor_lang::prelude::ProgramError;
use anchor_spl::token_2022::spl_token_2022::extension::default_account_state::DefaultAccountState;
use anchor_spl::token_2022::spl_token_2022::extension::transfer_fee::TransferFeeConfig;
use anchor_spl::token_2022::spl_token_2022::extension::transfer_hook::TransferHook;
use anchor_spl::token_2022::spl_token_2022::extension::BaseStateWithExtensions;
use anchor_spl::token_2022::spl_token_2022::extension::StateWithExtensions;
use anchor_spl::token_2022::spl_token_2022::state::Mint;
use vstd::prelude::*;

verus! {

/// The error that a program of the ledger reports; nothing of its contents is used here.
#[verifier::external_type_specification]
#[verifier::external_body]
pub struct ExProgramError(ProgramError);

/// The address of the Token-2022 program.
pub open spec fn spec_token_2022_id() -> Seq<u8> {
    seq![
        6u8, 221u8, 246u8, 225u8, 238u8, 117u8, 143u8, 222u8,
        24u8, 66u8, 93u8, 188u8, 228u8, 108u8, 205u8, 218u8,
        182u8, 26u8, 252u8, 77u8, 131u8, 185u8, 13u8, 39u8,
        254u8, 189u8, 249u8, 40u8, 216u8, 161u8, 139u8, 252u8,
    ]
}

/// The address of the legacy Token program.
pub open spec fn spec_legacy_token_id() -> Seq<u8> {
    seq![
        6u8, 221u8, 246u8, 225u8, 215u8, 101u8, 161u8, 147u8,
        217u8, 203u8, 225u8, 70u8, 206u8, 235u8, 121u8, 172u8,
        28u8, 180u8, 133u8, 237u8, 95u8, 91u8, 55u8, 145u8,
        58u8, 140u8, 245u8, 133u8, 126u8, 255u8, 0u8, 169u8,
    ]
}

/// Whether `key` is the address of the Token-2022 program.
pub open spec fn token_2022_program(key: Seq<u8>) -> bool {
    key == spec_token_2022_id()
}

/// Whether `key` is the address of the legacy Token program.
pub open spec fn legacy_token_program(key: Seq<u8>) -> bool {
    key == spec_legacy_token_id()
}

/// Whether `data` unpacks as an initialised Token-2022 mint with its extension area.
pub uninterp spec fn mint_unpacks(data: Seq<u8>) -> bool;

/// The basis points and the maximum of the newer transfer fee that the mint in `data`
/// carries, if it unpacks and has a transfer fee extension.
pub uninterp spec fn mint_transfer_fee(data: Seq<u8>) -> Option<(u16, u64)>;

/// The hook program recorded in the transfer hook extension of the mint in `data`, if it
/// unpacks and has that extension.
pub uninterp spec fn mint_transfer_hook(data: Seq<u8>) -> Option<Seq<u8>>;

/// The numbers of the extension types found in the mint in `data`, in the order stored, if
/// it unpacks and its extension area can be walked.
pub uninterp spec fn mint_extension_types(data: Seq<u8>) -> Option<Seq<u16>>;

/// The state that new accounts of the mint in `data` start in, if it unpacks and has a
/// default account state extension.
pub uninterp spec fn mint_default_account_state(data: Seq<u8>) -> Option<u8>;

/// Calls `spl_token_2022::id`: the address of the Token-2022 program.
#[verifier::external_body]
pub(crate) fn token_2022_id() -> (id: Address)
    ensures
        id@ == spec_token_2022_id(),
{
    Address { bytes: anchor_spl::token_2022::spl_token_2022::id().to_bytes() }
}

/// Calls `spl_token::id`: the address of the legacy Token program.
#[verifier::external_body]
pub(crate) fn legacy_token_id() -> (id: Address)
    ensures
        id@ == spec_legacy_token_id(),
{
    Address { bytes: anchor_spl::token::spl_token::id().to_bytes() }
}

/// Whether `key` is the address of the Token-2022 program.
pub(crate) fn is_token_2022_program(key: &Address) -> (yes: bool)
    ensures
        yes == token_2022_program(key@),
{
    key.same(&token_2022_id())
}

/// Whether `key` is the address of the legacy Token program.
pub(crate) fn is_legacy_token_program(key: &Address) -> (yes: bool)
    ensures
        yes == legacy_token_program(key@),
{
    key.same(&legacy_token_id())
}

/// Calls `StateWithExtensions::<Mint>::unpack` and hands back its error, if any. The
/// result is `Ok` exactly when the bytes unpack.
#[verifier::external_body]
pub(crate) fn check_mint_unpacks(data: &[u8]) -> (checked: Result<(), ProgramError>)
    ensures
        checked is Ok <==> mint_unpacks(data@),
{
    StateWithExtensions::<Mint>::unpack(data).map(|_| ())
}

/// Calls `StateWithExtensions::<Mint>::unpack` and then `get_extension::<TransferFeeConfig>`,
/// and picks the basis points and the maximum of the newer fee. `None` where either fails.
#[verifier::external_body]
pub(crate) fn unpack_transfer_fee(data: &[u8]) -> (fee: Option<(u16, u64)>)
    ensures
        fee == mint_transfer_fee(data@),
{
    let state = StateWithExtensions::<Mint>::unpack(data).ok()?;
    let config = state.get_extension::<TransferFeeConfig>().ok()?;
    Some(
        (
            u16::from(config.newer_transfer_fee.transfer_fee_basis_points),
            u64::from(config.newer_transfer_fee.maximum_fee),
        ),
    )
}

/// Calls `StateWithExtensions::<Mint>::unpack` and then `get_extension::<TransferHook>`,
/// and picks the bytes stored as the hook program. `None` where either fails.
#[verifier::external_body]
pub(crate) fn unpack_transfer_hook(data: &[u8]) -> (program: Option<Address>)
    ensures
        program is Some <==> mint_transfer_hook(data@) is Some,
        program matches Some(p) ==> mint_transfer_hook(data@) == Some(p@),
{
    let state = StateWithExtensions::<Mint>::unpack(data).ok()?;
    let hook = state.get_extension::<TransferHook>().ok()?;
    Some(Address { bytes: hook.program_id.0.to_bytes() })
}

/// Calls `StateWithExtensions::<Mint>::unpack` and then `get_extension_types`, and gives
/// each type by its number. An error where either fails.
#[verifier::external_body]
pub(crate) fn unpack_extension_types(data: &[u8]) -> (types: Result<Vec<u16>, ProgramError>)
    ensures
        types is Ok <==> mint_extension_types(data@) is Some,
        types matches Ok(t) ==> mint_extension_types(data@) == Some(t@),
{
    let state = StateWithExtensions::<Mint>::unpack(data)?;
    let types = state.get_extension_types()?;
    Ok(types.iter().map(|t| u16::from(*t)).collect())
}

/// Calls `StateWithExtensions::<Mint>::unpack` and then
/// `get_extension::<DefaultAccountState>`, and picks its state byte. `None` where either
/// fails.
#[verifier::external_body]
pub(crate) fn unpack_default_account_state(data: &[u8]) -> (state: Option<u8>)
    ensures
        state == mint_default_account_state(data@),
{
    let mint = StateWithExtensions::<Mint>::unpack(data).ok()?;
    mint.get_extension::<DefaultAccountState>().ok().map(|s| s.state)
}

} // verus!
