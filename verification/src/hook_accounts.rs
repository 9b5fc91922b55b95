use crate::address::Address;
use crate::error::Error;
use crate::extra_account_meta::address_from_text;
use crate::extra_account_meta::address_of_text;
use crate::extra_account_meta::associated_token_program;
use crate::extra_account_meta::associated_token_program_id;
use crate::extra_account_meta::new_external_pda_with_seeds;
use crate::extra_account_meta::new_with_pubkey;
use crate::extra_account_meta::new_with_seeds;
use crate::extra_account_meta::packed_seeds;
use crate::extra_account_meta::spec_seed_views;
use crate::extra_account_meta::ExtraAccountMeta;
use crate::extra_account_meta::Seed;
use crate::extra_account_meta::SeedView;
use crate::mint_data::legacy_token_id;
use crate::mint_data::legacy_token_program;
use vstd::prelude::*;

verus! {

/// The mint of wrapped SOL, in base 58.
pub const WSOL_MINT: &'static str = "So11111111111111111111111111111111111111112";

/// Position of the Associated Token Account program among the accounts of the hook.
pub const ASSOCIATED_TOKEN_PROGRAM_INDEX: u8 = 7;

/// The seed of the fee controller's delegate: the text `delegate`.
pub open spec fn spec_delegate_seeds() -> Seq<SeedView> {
    seq![SeedView::Literal { bytes: seq![100u8, 101u8, 108u8, 101u8, 103u8, 97u8, 116u8, 101u8] }]
}

/// The seed of the fee controller's record: the text `fee_stats`.
pub open spec fn spec_fee_stats_seeds() -> Seq<SeedView> {
    seq![
        SeedView::Literal {
            bytes: seq![102u8, 101u8, 101u8, 95u8, 115u8, 116u8, 97u8, 116u8, 115u8],
        },
    ]
}

/// The seeds of a token account: the addresses of its owner, of the token program and of
/// its mint, each given by its position among the accounts of the hook.
pub open spec fn spec_token_account_seeds(owner: u8) -> Seq<SeedView> {
    seq![
        SeedView::AccountKey { index: owner },
        SeedView::AccountKey { index: 6 },
        SeedView::AccountKey { index: 5 },
    ]
}

/// Whether the list of additional accounts can be made: the text of the wrapped SOL mint
/// stands for an address, and each list of seeds fits in 32 bytes.
pub open spec fn spec_extra_accounts_known() -> bool {
    &&& address_of_text(WSOL_MINT@) is Some
    &&& packed_seeds(spec_delegate_seeds()) is Some
    &&& packed_seeds(spec_token_account_seeds(8)) is Some
    &&& packed_seeds(spec_token_account_seeds(3)) is Some
    &&& packed_seeds(spec_fee_stats_seeds()) is Some
}

/// Whether `meta` is an entry for a derived address with these seeds, writable and not
/// signing, of the program at `program`, or of the hook program itself for `None`.
pub open spec fn spec_is_derived(meta: ExtraAccountMeta, program: Option<u8>, seeds: Seq<SeedView>) -> bool {
    &&& meta.discriminator == (match program {
        Some(index) => index + 128,
        None => 1,
    })
    &&& Some(meta.address_config@) == packed_seeds(seeds)
    &&& !meta.is_signer
    &&& meta.is_writable
}

/// Whether `meta` is an entry for an account at a fixed address, read-only and not
/// signing.
pub open spec fn spec_is_fixed(meta: ExtraAccountMeta) -> bool {
    &&& meta.discriminator == 0
    &&& !meta.is_signer
    &&& !meta.is_writable
}

/// Whether `metas` is the list of additional accounts of the fee controller's hook.
pub open spec fn spec_extra_account_metas(metas: Seq<ExtraAccountMeta>) -> bool {
    &&& metas.len() == 7
    &&& spec_is_fixed(metas[0])
    &&& Some(metas[0].address_config@) == address_of_text(WSOL_MINT@)
    &&& spec_is_fixed(metas[1])
    &&& legacy_token_program(metas[1].address_config@)
    &&& spec_is_fixed(metas[2])
    &&& associated_token_program(metas[2].address_config@)
    &&& spec_is_derived(metas[3], None, spec_delegate_seeds())
    &&& spec_is_derived(
        metas[4],
        Some(ASSOCIATED_TOKEN_PROGRAM_INDEX),
        spec_token_account_seeds(8),
    )
    &&& spec_is_derived(
        metas[5],
        Some(ASSOCIATED_TOKEN_PROGRAM_INDEX),
        spec_token_account_seeds(3),
    )
    &&& spec_is_derived(metas[6], None, spec_fee_stats_seeds())
}

/// The accounts that set up the list of additional accounts of the fee controller's hook.
#[derive(Clone, Copy, Debug)]
pub struct InitializeExtraAccountMetaList {
    pub payer: Address,
    pub extra_account_meta_list: Address,
    pub mint: Address,
    pub fee_stats: Address,
}

fn token_account_seeds(owner: u8) -> (seeds: Vec<Seed>)
    ensures
        spec_seed_views(seeds@) == spec_token_account_seeds(owner),
        crate::extra_account_meta::spec_seeds_packable(seeds@),
{
    let seeds = vec![
        Seed::AccountKey { index: owner },
        Seed::AccountKey { index: 6 },
        Seed::AccountKey { index: 5 },
    ];
    assert(spec_seed_views(seeds@) =~= spec_token_account_seeds(owner));
    seeds
}

fn literal_seed(bytes: Vec<u8>) -> (seeds: Vec<Seed>)
    requires
        bytes@.len() <= 253,
    ensures
        spec_seed_views(seeds@) == seq![SeedView::Literal { bytes: bytes@ }],
        crate::extra_account_meta::spec_seeds_packable(seeds@),
{
    let ghost text = bytes@;
    let seeds = vec![Seed::Literal { bytes }];
    assert(spec_seed_views(seeds@) =~= seq![SeedView::Literal { bytes: text }]);
    seeds
}

impl InitializeExtraAccountMetaList {
    /// The additional accounts that the fee controller's hook is run with, in order: the
    /// wrapped SOL mint, the Token program and the Associated Token Account program,
    /// all read-only; then, all writable, the delegate (derived from the text
    /// `delegate`), the delegate's and the sender's wrapped SOL accounts (derived, under
    /// the Associated Token Account program, from the owner at position 8 or 3, the
    /// token program at 6 and the mint at 5), and the fee controller's record (derived
    /// from the text `fee_stats`). None signs.
    pub fn extra_account_metas() -> (metas: Result<Vec<ExtraAccountMeta>, Error>)
        ensures
            metas is Ok <==> spec_extra_accounts_known(),
            metas matches Ok(m) ==> spec_extra_account_metas(m@),
            metas matches Err(e) ==> (if address_of_text(WSOL_MINT@) is None {
                e == Error::InvalidAddress
            } else {
                e is Program
            }),
    {
        let wsol_mint = match address_from_text(WSOL_MINT) {
            Some(address) => address,
            None => {
                return Err(Error::InvalidAddress);
            },
        };
        let wsol = match new_with_pubkey(&wsol_mint, false, false) {
            Ok(meta) => meta,
            Err(e) => {
                return Err(Error::Program(e));
            },
        };
        let token_program = match new_with_pubkey(&legacy_token_id(), false, false) {
            Ok(meta) => meta,
            Err(e) => {
                return Err(Error::Program(e));
            },
        };
        let associated_token_program = match new_with_pubkey(
            &associated_token_program_id(),
            false,
            false,
        ) {
            Ok(meta) => meta,
            Err(e) => {
                return Err(Error::Program(e));
            },
        };
        let delegate_seeds = literal_seed(vec![100u8, 101u8, 108u8, 101u8, 103u8, 97u8, 116u8, 101u8]);
        assert(spec_seed_views(delegate_seeds@) =~= spec_delegate_seeds());
        let delegate = match new_with_seeds(&delegate_seeds, false, true) {
            Ok(meta) => meta,
            Err(e) => {
                return Err(Error::Program(e));
            },
        };
        let delegate_wsol = match new_external_pda_with_seeds(
            ASSOCIATED_TOKEN_PROGRAM_INDEX,
            &token_account_seeds(8),
            false,
            true,
        ) {
            Ok(meta) => meta,
            Err(e) => {
                return Err(Error::Program(e));
            },
        };
        let sender_wsol = match new_external_pda_with_seeds(
            ASSOCIATED_TOKEN_PROGRAM_INDEX,
            &token_account_seeds(3),
            false,
            true,
        ) {
            Ok(meta) => meta,
            Err(e) => {
                return Err(Error::Program(e));
            },
        };
        let fee_stats_seeds = literal_seed(
            vec![102u8, 101u8, 101u8, 95u8, 115u8, 116u8, 97u8, 116u8, 115u8],
        );
        assert(spec_seed_views(fee_stats_seeds@) =~= spec_fee_stats_seeds());
        let fee_stats = match new_with_seeds(&fee_stats_seeds, false, true) {
            Ok(meta) => meta,
            Err(e) => {
                return Err(Error::Program(e));
            },
        };
        Ok(
            vec![
                wsol,
                token_program,
                associated_token_program,
                delegate,
                delegate_wsol,
                sender_wsol,
                fee_stats,
            ],
        )
    }
}

} // verus!
