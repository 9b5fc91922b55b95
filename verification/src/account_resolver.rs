use crate::accounts::AccountData;
use crate::accounts::AccountMeta;
use crate::address::Address;
use crate::error::AmmError;
use crate::extra_account_meta::ExtraAccountMeta;
use crate::hook_data::extra_account_metas_address;
use crate::hook_data::find_extra_account_metas_address;
use crate::mint_data::check_mint_unpacks;
use crate::mint_data::is_token_2022_program;
use crate::mint_data::mint_extension_types;
use crate::mint_data::mint_transfer_hook;
use crate::mint_data::mint_unpacks;
use crate::mint_data::token_2022_program;
use crate::mint_data::unpack_extension_types;
use crate::mint_data::unpack_transfer_hook;
use vstd::prelude::*;

verus! {

/// Whether every byte of an address is zero.
pub open spec fn spec_is_zero(address: Seq<u8>) -> bool {
    forall|i: int| 0 <= i < address.len() ==> address[i] == 0
}

/// Whether every byte of an address is zero.
pub fn is_zero(address: &Address) -> (yes: bool)
    ensures
        yes == spec_is_zero(address@),
{
    let mut i: usize = 0;
    while i < 32
        invariant
            i <= 32,
            forall|j: int| 0 <= j < i ==> address@[j] == 0,
        decreases 32 - i,
    {
        if address.bytes[i] != 0 {
            assert(address@[i as int] != 0);
            return false;
        }
        i += 1;
    }
    true
}

/// Why the accounts of a hook cannot be resolved for the mint with these bytes, if they
/// cannot: the bytes do not unpack (`InvalidToken`), the mint has no hook program or one
/// of zeros only (`TransferHookNotFound`), or no address is found for the hook program's
/// list of additional accounts (`BumpError`).
pub open spec fn spec_resolve_refusal(mint_key: Seq<u8>, data: Seq<u8>) -> Option<AmmError> {
    if !mint_unpacks(data) {
        Some(AmmError::InvalidToken)
    } else {
        match mint_transfer_hook(data) {
            None => Some(AmmError::TransferHookNotFound),
            Some(program) => if spec_is_zero(program) {
                Some(AmmError::TransferHookNotFound)
            } else if extra_account_metas_address(mint_key, program) is None {
                Some(AmmError::BumpError)
            } else {
                None
            },
        }
    }
}

/// Resolves the accounts that the hook of a token type is called with: the source, the
/// mint, the destination, the authority, the hook program's list of additional accounts
/// and the hook program, none of them writable or signing.
pub fn resolve_transfer_hook_accounts(
    mint_account: &AccountData,
    source_account: &AccountData,
    mint: &AccountData,
    destination_account: &AccountData,
    authority: &AccountData,
    _amount: u64,
) -> (accounts: Result<Vec<AccountMeta>, AmmError>)
    ensures
        match spec_resolve_refusal(mint_account.key@, mint_account.data@) {
            Some(e) => accounts == Err::<Vec<AccountMeta>, AmmError>(e),
            None => accounts matches Ok(metas) && {
                &&& metas@.len() == 6
                &&& forall|i: int| 0 <= i < 6 ==> !metas@[i].is_signer && !metas@[i].is_writable
                &&& metas@[0].pubkey == source_account.key
                &&& metas@[1].pubkey == mint.key
                &&& metas@[2].pubkey == destination_account.key
                &&& metas@[3].pubkey == authority.key
                &&& Some(metas@[4].pubkey@) == extra_account_metas_address(
                    mint_account.key@,
                    mint_transfer_hook(mint_account.data@)->0,
                )
                &&& Some(metas@[5].pubkey@) == mint_transfer_hook(mint_account.data@)
            },
        },
{
    if check_mint_unpacks(mint_account.data.as_slice()).is_err() {
        return Err(AmmError::InvalidToken);
    }
    let hook_program_id = match unpack_transfer_hook(mint_account.data.as_slice()) {
        Some(program) => program,
        None => {
            return Err(AmmError::TransferHookNotFound);
        },
    };
    if is_zero(&hook_program_id) {
        return Err(AmmError::TransferHookNotFound);
    }
    let extra_metas_address = match find_extra_account_metas_address(
        &mint_account.key,
        &hook_program_id,
    ) {
        Some(address) => address,
        None => {
            return Err(AmmError::BumpError);
        },
    };
    let mut hook_accounts: Vec<AccountMeta> = Vec::new();
    hook_accounts.push(AccountMeta::new_readonly(source_account.key, false));
    hook_accounts.push(AccountMeta::new_readonly(mint.key, false));
    hook_accounts.push(AccountMeta::new_readonly(destination_account.key, false));
    hook_accounts.push(AccountMeta::new_readonly(authority.key, false));
    hook_accounts.push(AccountMeta::new_readonly(extra_metas_address, false));
    hook_accounts.push(AccountMeta::new_readonly(hook_program_id, false));
    Ok(hook_accounts)
}

/// The additional accounts that a hook program lists in the account given. None are read
/// out yet: the list is always empty, whatever the account holds.
pub fn parse_extra_account_metas(extra_metas_account: &AccountData) -> (metas: Result<
    Vec<ExtraAccountMeta>,
    AmmError,
>)
    ensures
        metas matches Ok(m) && m@.len() == 0,
{
    Ok(Vec::new())
}

/// The accounts of a transfer as a hook is run with them: the source and the destination
/// writable, the mint read-only, the authority read-only and signing. An account with a
/// list of additional accounts adds nothing yet. Never fails.
pub fn resolve_hook_execution_accounts(
    mint_account: &AccountData,
    source_account: &AccountData,
    destination_account: &AccountData,
    authority: &AccountData,
    extra_metas_account: Option<&AccountData>,
) -> (accounts: Result<Vec<AccountMeta>, AmmError>)
    ensures
        accounts matches Ok(a) && a@ == seq![
            AccountMeta { pubkey: source_account.key, is_signer: false, is_writable: true },
            AccountMeta { pubkey: mint_account.key, is_signer: false, is_writable: false },
            AccountMeta { pubkey: destination_account.key, is_signer: false, is_writable: true },
            AccountMeta { pubkey: authority.key, is_signer: true, is_writable: false },
        ],
{
    let mut accounts: Vec<AccountMeta> = Vec::new();
    accounts.push(AccountMeta::new(source_account.key, false));
    accounts.push(AccountMeta::new_readonly(mint_account.key, false));
    accounts.push(AccountMeta::new(destination_account.key, false));
    accounts.push(AccountMeta::new_readonly(authority.key, true));
    match extra_metas_account {
        Some(extra_account) => {
            match parse_extra_account_metas(extra_account) {
                Ok(_extra_metas) => {},
                Err(e) => {
                    return Err(e);
                },
            }
        },
        None => {},
    }
    assert(accounts@ =~= seq![
        AccountMeta { pubkey: source_account.key, is_signer: false, is_writable: true },
        AccountMeta { pubkey: mint_account.key, is_signer: false, is_writable: false },
        AccountMeta { pubkey: destination_account.key, is_signer: false, is_writable: true },
        AccountMeta { pubkey: authority.key, is_signer: true, is_writable: false },
    ]);
    Ok(accounts)
}

/// Whether an account is owned by the Token-2022 program.
pub fn is_token_2022_account(account: &AccountData) -> (yes: bool)
    ensures
        yes == token_2022_program(account.owner@),
{
    is_token_2022_program(&account.owner)
}

/// The numbers of the extension types of a mint, in the order stored: none for a mint of
/// another program than Token-2022, `InvalidToken` where the bytes of a Token-2022 mint
/// do not unpack or its extensions cannot be listed.
pub fn get_mint_extension_types(mint_account: &AccountData) -> (types: Result<Vec<u16>, AmmError>)
    ensures
        !token_2022_program(mint_account.owner@) ==> (types matches Ok(t) && t@.len() == 0),
        token_2022_program(mint_account.owner@) ==> match mint_extension_types(
            mint_account.data@,
        ) {
            Some(found) => types matches Ok(t) && t@ == found,
            None => types == Err::<Vec<u16>, AmmError>(AmmError::InvalidToken),
        },
{
    if !is_token_2022_account(mint_account) {
        return Ok(Vec::new());
    }
    match unpack_extension_types(mint_account.data.as_slice()) {
        Ok(types) => Ok(types),
        Err(_) => Err(AmmError::InvalidToken),
    }
}

/// Whether one of the accounts has the address `key`.
pub open spec fn spec_has_account(accounts: Seq<AccountData>, key: Seq<u8>) -> bool {
    exists|i: int| 0 <= i < accounts.len() && (#[trigger] accounts[i]).key@ == key
}

/// Checks the accounts provided for running a hook: there must be at least
/// `required_count` of them (`InvalidToken`), and the hook program must be among them
/// (`TransferHookNotFound`).
pub fn validate_hook_accounts(
    hook_program_id: &Address,
    provided_accounts: &[AccountData],
    required_count: usize,
) -> (checked: Result<(), AmmError>)
    ensures
        checked == (if provided_accounts@.len() < required_count {
            Err::<(), AmmError>(AmmError::InvalidToken)
        } else if !spec_has_account(provided_accounts@, hook_program_id@) {
            Err::<(), AmmError>(AmmError::TransferHookNotFound)
        } else {
            Ok::<(), AmmError>(())
        }),
{
    if provided_accounts.len() < required_count {
        return Err(AmmError::InvalidToken);
    }
    let mut i: usize = 0;
    while i < provided_accounts.len()
        invariant
            i <= provided_accounts@.len(),
            provided_accounts@.len() >= required_count,
            forall|j: int| 0 <= j < i ==> (#[trigger] provided_accounts@[j]).key@ != hook_program_id@,
        decreases provided_accounts@.len() - i,
    {
        if provided_accounts[i].key.same(hook_program_id) {
            assert(provided_accounts@[i as int].key@ == hook_program_id@);
            assert(spec_has_account(provided_accounts@, hook_program_id@));
            return Ok(());
        }
        i += 1;
    }
    Err(AmmError::TransferHookNotFound)
}

/// The accounts of a call to a hook program: the source and the destination writable,
/// the mint read-only, the authority read-only and signing, the hook program read-only,
/// and after them the additional accounts as given.
pub fn create_hook_account_metas(
    source: &Address,
    mint: &Address,
    destination: &Address,
    authority: &Address,
    hook_program: &Address,
    extra_accounts: &[AccountMeta],
) -> (accounts: Vec<AccountMeta>)
    ensures
        accounts@ == seq![
            AccountMeta { pubkey: *source, is_signer: false, is_writable: true },
            AccountMeta { pubkey: *mint, is_signer: false, is_writable: false },
            AccountMeta { pubkey: *destination, is_signer: false, is_writable: true },
            AccountMeta { pubkey: *authority, is_signer: true, is_writable: false },
            AccountMeta { pubkey: *hook_program, is_signer: false, is_writable: false },
        ] + extra_accounts@,
{
    let mut accounts: Vec<AccountMeta> = Vec::new();
    accounts.push(AccountMeta::new(*source, false));
    accounts.push(AccountMeta::new_readonly(*mint, false));
    accounts.push(AccountMeta::new(*destination, false));
    accounts.push(AccountMeta::new_readonly(*authority, true));
    accounts.push(AccountMeta::new_readonly(*hook_program, false));
    let ghost head = accounts@;
    let mut i: usize = 0;
    while i < extra_accounts.len()
        invariant
            i <= extra_accounts@.len(),
            accounts@ == head + extra_accounts@.subrange(0, i as int),
        decreases extra_accounts@.len() - i,
    {
        accounts.push(extra_accounts[i]);
        i += 1;
        assert(accounts@ =~= head + extra_accounts@.subrange(0, i as int));
    }
    assert(extra_accounts@.subrange(0, i as int) =~= extra_accounts@);
    assert(head =~= seq![
        AccountMeta { pubkey: *source, is_signer: false, is_writable: true },
        AccountMeta { pubkey: *mint, is_signer: false, is_writable: false },
        AccountMeta { pubkey: *destination, is_signer: false, is_writable: true },
        AccountMeta { pubkey: *authority, is_signer: true, is_writable: false },
        AccountMeta { pubkey: *hook_program, is_signer: false, is_writable: false },
    ]);
    accounts
}

/// Checks that an account holds at least `minimum_size` bytes (`InvalidToken`).
pub fn validate_tlv_account_size(account: &AccountData, minimum_size: usize) -> (checked: Result<
    (),
    AmmError,
>)
    ensures
        checked == (if account.data@.len() >= minimum_size {
            Ok::<(), AmmError>(())
        } else {
            Err::<(), AmmError>(AmmError::InvalidToken)
        }),
{
    if account.data.len() >= minimum_size {
        Ok(())
    } else {
        Err(AmmError::InvalidToken)
    }
}

} // verus!
