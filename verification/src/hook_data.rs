use crate::address::Address;
use crate::instructions::swap::spec_u64_le;
use anchor_lang::prelude::ProgramError;
use anchor_lang::prelude::Pubkey;
use anchor_spl::token_2022::spl_token_2022::extension::transfer_hook::TransferHookAccount;
use anchor_spl::token_2022::spl_token_2022::extension::BaseStateWithExtensionsMut;
use anchor_spl::token_2022::spl_token_2022::extension::PodStateWithExtensionsMut;
use anchor_spl::token_2022::spl_token_2022::pod::PodAccount;
use spl_transfer_hook_interface::collect_extra_account_metas_seeds;
use spl_transfer_hook_interface::instruction::TransferHookInstruction;
use vstd::prelude::*;

verus! {

/// Whether the token account in `data` is marked as being in the middle of a transfer, if
/// it unpacks as an initialised Token-2022 account and carries the transfer hook
/// extension of accounts.
pub uninterp spec fn token_account_transferring(data: Seq<u8>) -> Option<bool>;

/// The eight bytes that mark an execute instruction of the transfer hook interface.
pub open spec fn spec_execute_mark() -> Seq<u8> {
    seq![105u8, 37u8, 101u8, 197u8, 75u8, 251u8, 102u8, 26u8]
}

/// Whether `data` begins with the mark of an execute instruction.
pub open spec fn execute_tagged(data: Seq<u8>) -> bool {
    data.len() >= 8 && data.subrange(0, 8) == spec_execute_mark()
}

/// Calls `PodStateWithExtensionsMut::<PodAccount>::unpack` on a copy of `data` and then
/// `get_extension_mut::<TransferHookAccount>`, and reads the flag `transferring`. An
/// error where either fails.
#[verifier::external_body]
pub(crate) fn unpack_transferring(data: &[u8]) -> (flag: Result<bool, ProgramError>)
    ensures
        flag is Ok <==> token_account_transferring(data@) is Some,
        flag matches Ok(f) ==> token_account_transferring(data@) == Some(f),
{
    let mut copy = data.to_vec();
    let mut account = PodStateWithExtensionsMut::<PodAccount>::unpack(&mut copy)?;
    let extension = account.get_extension_mut::<TransferHookAccount>()?;
    Ok(bool::from(extension.transferring))
}

/// Calls `TransferHookInstruction::pack` on an execute instruction and hands back the
/// eight bytes it begins with: the mark of execute instructions.
#[verifier::external_body]
pub(crate) fn execute_mark() -> (mark: [u8; 8])
    ensures
        mark@ == spec_execute_mark(),
{
    let packed = TransferHookInstruction::Execute { amount: 0 }.pack();
    let mut mark = [0u8; 8];
    mark.copy_from_slice(&packed[..8]);
    mark
}

/// Whether `data` begins with the mark of an execute instruction.
pub(crate) fn is_execute_instruction(data: &[u8]) -> (yes: bool)
    ensures
        yes == execute_tagged(data@),
{
    if data.len() < 8 {
        return false;
    }
    let mark = execute_mark();
    let mut i: usize = 0;
    while i < 8
        invariant
            i <= 8,
            data@.len() >= 8,
            mark@ == spec_execute_mark(),
            forall|j: int| 0 <= j < i ==> data@[j] == mark@[j],
        decreases 8 - i,
    {
        if data[i] != mark[i] {
            assert(data@.subrange(0, 8)[i as int] != spec_execute_mark()[i as int]);
            return false;
        }
        i += 1;
    }
    assert(data@.subrange(0, 8) =~= spec_execute_mark());
    true
}

/// Calls `TransferHookInstruction::unpack` on bytes that begin with the mark of an execute
/// instruction: the amount is the number that the eight bytes after the mark hold, lowest
/// byte first, and an error where fewer than eight bytes follow the mark. Bytes with
/// another mark are left out: the outside function can fail on them without returning.
#[verifier::external_body]
pub(crate) fn unpack_hook_instruction(data: &[u8]) -> (amount: Result<Option<u64>, ProgramError>)
    requires
        execute_tagged(data@),
    ensures
        amount is Ok <==> data@.len() >= 16,
        amount matches Ok(a) ==> a == Some(spec_u64_le(data@, 8) as u64),
{
    match TransferHookInstruction::unpack(data)? {
        TransferHookInstruction::Execute { amount } => Ok(Some(amount)),
        TransferHookInstruction::InitializeExtraAccountMetaList { .. } => Ok(None),
        TransferHookInstruction::UpdateExtraAccountMetaList { .. } => Ok(None),
    }
}

/// The address at which the hook program `program` keeps its list of additional accounts
/// for the token type `mint`, if the search for it finds one.
pub uninterp spec fn extra_account_metas_address(mint: Seq<u8>, program: Seq<u8>) -> Option<
    Seq<u8>,
>;

/// Calls `Pubkey::try_find_program_address` with the seeds that
/// `collect_extra_account_metas_seeds` gives for `mint`, and picks the address found.
#[verifier::external_body]
pub(crate) fn find_extra_account_metas_address(mint: &Address, program: &Address) -> (found: Option<
    Address,
>)
    ensures
        found is Some <==> extra_account_metas_address(mint@, program@) is Some,
        found matches Some(a) ==> extra_account_metas_address(mint@, program@) == Some(a@),
{
    let mint_key = Pubkey::new_from_array(mint.bytes);
    let program_key = Pubkey::new_from_array(program.bytes);
    let seeds = collect_extra_account_metas_seeds(&mint_key);
    let (address, _) = Pubkey::try_find_program_address(&seeds, &program_key)?;
    Some(Address { bytes: address.to_bytes() })
}

} // verus!
