use crate::address::Address;
use anchor_lang::prelude::ProgramError;
use anchor_lang::prelude::Pubkey;
use spl_tlv_account_resolution::account::ExtraAccountMeta as PackedMeta;
use spl_tlv_account_resolution::seeds::Seed as PackedSeed;
use std::str::FromStr;
use vstd::prelude::*;

verus! {

/// A seed of a derived address that a hook program asks for.
#[derive(Clone, Debug, PartialEq, Eq)]
pub enum Seed {
    /// Bytes given as they are.
    Literal { bytes: Vec<u8> },
    /// The address of the account at a position of the instruction's account list.
    AccountKey { index: u8 },
}

/// A [`Seed`] as mathematical values.
pub enum SeedView {
    Literal { bytes: Seq<u8> },
    AccountKey { index: u8 },
}

impl View for Seed {
    type V = SeedView;

    open spec fn view(&self) -> SeedView {
        match self {
            Seed::Literal { bytes } => SeedView::Literal { bytes: bytes@ },
            Seed::AccountKey { index } => SeedView::AccountKey { index: *index },
        }
    }
}

/// The views of a list of seeds.
pub open spec fn spec_seed_views(seeds: Seq<Seed>) -> Seq<SeedView> {
    Seq::new(seeds.len(), |i: int| seeds[i]@)
}

/// Whether every literal among the seeds is short enough for its length to be packed in
/// one byte beside its two bytes of header.
pub open spec fn spec_seeds_packable(seeds: Seq<Seed>) -> bool {
    forall|i: int|
        0 <= i < seeds.len() ==> ((#[trigger] seeds[i]) matches Seed::Literal { bytes }
            ==> bytes@.len() <= 253)
}

/// An additional account that a hook program asks for, as it is stored: what kind of
/// entry it is, the 32 bytes that give or derive its address, and whether it signs and
/// is writable.
#[derive(Clone, Copy, Debug, PartialEq, Eq)]
pub struct ExtraAccountMeta {
    pub discriminator: u8,
    pub address_config: [u8; 32],
    pub is_signer: bool,
    pub is_writable: bool,
}

/// The 32 bytes into which a list of seeds is packed, if it fits.
pub uninterp spec fn packed_seeds(seeds: Seq<SeedView>) -> Option<Seq<u8>>;

/// The address that a text in base 58 stands for, if it stands for one.
pub uninterp spec fn address_of_text(text: Seq<char>) -> Option<Seq<u8>>;

/// The address of the Associated Token Account program.
pub open spec fn spec_associated_token_id() -> Seq<u8> {
    seq![
        140u8, 151u8, 37u8, 143u8, 78u8, 36u8, 137u8, 241u8,
        187u8, 61u8, 16u8, 41u8, 20u8, 142u8, 13u8, 131u8,
        11u8, 90u8, 19u8, 153u8, 218u8, 255u8, 16u8, 132u8,
        4u8, 142u8, 123u8, 216u8, 219u8, 233u8, 248u8, 89u8,
    ]
}

/// Whether `key` is the address of the Associated Token Account program.
pub open spec fn associated_token_program(key: Seq<u8>) -> bool {
    key == spec_associated_token_id()
}

/// Calls `ExtraAccountMeta::new_with_pubkey`, which always succeeds: the entry has
/// discriminator 0, the address as its 32 bytes, and the two flags as given.
#[verifier::external_body]
pub(crate) fn new_with_pubkey(pubkey: &Address, is_signer: bool, is_writable: bool) -> (meta: Result<
    ExtraAccountMeta,
    ProgramError,
>)
    ensures
        meta is Ok,
        meta matches Ok(m) ==> m.discriminator == 0 && m.address_config@ == pubkey@ && m.is_signer
            == is_signer && m.is_writable == is_writable,
{
    let key = Pubkey::new_from_array(pubkey.bytes);
    let made = PackedMeta::new_with_pubkey(&key, is_signer, is_writable)?;
    Ok(ExtraAccountMeta {
        discriminator: made.discriminator,
        address_config: made.address_config,
        is_signer: made.is_signer.into(),
        is_writable: made.is_writable.into(),
    })
}

/// Calls `ExtraAccountMeta::new_with_seeds`: the entry has discriminator 1, the packed
/// seeds as its 32 bytes, and the two flags as given; an error where the seeds do not
/// fit in 32 bytes.
#[verifier::external_body]
pub(crate) fn new_with_seeds(seeds: &Vec<Seed>, is_signer: bool, is_writable: bool) -> (meta: Result<
    ExtraAccountMeta,
    ProgramError,
>)
    requires
        spec_seeds_packable(seeds@),
    ensures
        meta is Ok <==> packed_seeds(spec_seed_views(seeds@)) is Some,
        meta matches Ok(m) ==> m.discriminator == 1 && Some(m.address_config@) == packed_seeds(
            spec_seed_views(seeds@),
        ) && m.is_signer == is_signer && m.is_writable == is_writable,
{
    let outside: Vec<PackedSeed> = seeds.iter().map(|s| match s {
        Seed::Literal { bytes } => PackedSeed::Literal { bytes: bytes.clone() },
        Seed::AccountKey { index } => PackedSeed::AccountKey { index: *index },
    }).collect();
    let made = PackedMeta::new_with_seeds(&outside, is_signer, is_writable)?;
    Ok(ExtraAccountMeta {
        discriminator: made.discriminator,
        address_config: made.address_config,
        is_signer: made.is_signer.into(),
        is_writable: made.is_writable.into(),
    })
}

/// Calls `ExtraAccountMeta::new_external_pda_with_seeds`: the entry has the program's
/// position plus 128 as discriminator, the packed seeds as its 32 bytes, and the two
/// flags as given; an error where the position is 128 or more, or the seeds do not fit
/// in 32 bytes.
#[verifier::external_body]
pub(crate) fn new_external_pda_with_seeds(
    program_index: u8,
    seeds: &Vec<Seed>,
    is_signer: bool,
    is_writable: bool,
) -> (meta: Result<ExtraAccountMeta, ProgramError>)
    requires
        spec_seeds_packable(seeds@),
    ensures
        meta is Ok <==> (program_index < 128 && packed_seeds(spec_seed_views(seeds@)) is Some),
        meta matches Ok(m) ==> m.discriminator == program_index + 128 && Some(m.address_config@)
            == packed_seeds(spec_seed_views(seeds@)) && m.is_signer == is_signer && m.is_writable
            == is_writable,
{
    let outside: Vec<PackedSeed> = seeds.iter().map(|s| match s {
        Seed::Literal { bytes } => PackedSeed::Literal { bytes: bytes.clone() },
        Seed::AccountKey { index } => PackedSeed::AccountKey { index: *index },
    }).collect();
    let made = PackedMeta::new_external_pda_with_seeds(program_index, &outside, is_signer, is_writable)?;
    Ok(ExtraAccountMeta {
        discriminator: made.discriminator,
        address_config: made.address_config,
        is_signer: made.is_signer.into(),
        is_writable: made.is_writable.into(),
    })
}

/// Calls `Pubkey::from_str`: the address that a text in base 58 stands for, and `None`
/// where it stands for none.
#[verifier::external_body]
pub(crate) fn address_from_text(text: &str) -> (address: Option<Address>)
    ensures
        address is Some <==> address_of_text(text@) is Some,
        address matches Some(a) ==> address_of_text(text@) == Some(a@),
{
    Pubkey::from_str(text).ok().map(|key| Address { bytes: key.to_bytes() })
}

/// Calls `spl_associated_token_account::id`: the address of the Associated Token Account
/// program.
#[verifier::external_body]
pub(crate) fn associated_token_program_id() -> (id: Address)
    ensures
        id@ == spec_associated_token_id(),
{
    Address { bytes: anchor_spl::associated_token::spl_associated_token_account::id().to_bytes() }
}

} // verus!
