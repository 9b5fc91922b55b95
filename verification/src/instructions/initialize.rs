use crate::accounts::Mint;
use crate::address::Address;
use crate::error::outcome_is;
use crate::error::AmmError;
use crate::error::Error;
use crate::mint_data::check_mint_unpacks;
use crate::mint_data::is_legacy_token_program;
use crate::mint_data::is_token_2022_program;
use crate::mint_data::legacy_token_program;
use crate::mint_data::mint_default_account_state;
use crate::mint_data::mint_extension_types;
use crate::mint_data::mint_transfer_fee;
use crate::mint_data::mint_transfer_hook;
use crate::mint_data::mint_unpacks;
use crate::mint_data::token_2022_program;
use crate::mint_data::unpack_default_account_state;
use crate::mint_data::unpack_extension_types;
use crate::mint_data::unpack_transfer_fee;
use crate::mint_data::unpack_transfer_hook;
use crate::state::config::Config;
use crate::state::config::MAX_POOL_FEE;
use crate::state::config::MAX_TRANSFER_FEE_BASIS_POINTS;
use vstd::prelude::*;

verus! {

/// Number of the extension that sets the state in which new accounts of a token type
/// start.
pub const EXTENSION_DEFAULT_ACCOUNT_STATE: u16 = 6;

/// Number of the extension that forbids transfers of a token type.
pub const EXTENSION_NON_TRANSFERABLE: u16 = 9;

/// The account state in which nothing can be moved.
pub const ACCOUNT_STATE_FROZEN: u8 = 2;

/// The bump seeds of the addresses that belong to a new pool.
#[derive(Clone, Copy, Debug)]
pub struct InitializeBumps {
    pub config: u8,
    pub mint_lp: u8,
}

/// The accounts that set up a pool.
#[derive(Clone, Debug)]
pub struct Initialize {
    pub admin: Address,
    pub mint_x: Mint,
    pub mint_y: Mint,
    /// The address of the pool's own account.
    pub config: Address,
    pub token_program_x: Address,
    pub token_program_y: Address,
}

/// Whether the extension with number `extension` rules a token type out of a pool: the
/// one that forbids transfers, and the one that sets a default account state where that
/// state is frozen.
pub open spec fn spec_extension_unsupported(extension: u16, default_state: Option<u8>) -> bool {
    ||| extension == EXTENSION_NON_TRANSFERABLE
    ||| extension == EXTENSION_DEFAULT_ACCOUNT_STATE && default_state == Some(ACCOUNT_STATE_FROZEN)
}

/// Whether one of the extensions listed rules a token type out of a pool.
pub open spec fn spec_any_unsupported(types: Seq<u16>, default_state: Option<u8>) -> bool {
    exists|i: int|
        0 <= i < types.len() && spec_extension_unsupported(#[trigger] types[i], default_state)
}

/// Whether the mint with this owner and these bytes can be part of a pool; `Err(None)`
/// where its extensions cannot be listed. A mint of another program than Token-2022, or
/// one whose bytes do not unpack, is not looked into.
pub open spec fn spec_check_extensions(owner: Seq<u8>, data: Seq<u8>) -> Result<
    (),
    Option<AmmError>,
> {
    if !token_2022_program(owner) || !mint_unpacks(data) {
        Ok(())
    } else {
        match mint_extension_types(data) {
            None => Err(None),
            Some(types) => if spec_any_unsupported(types, mint_default_account_state(data)) {
                Err(Some(AmmError::UnsupportedExtension))
            } else {
                Ok(())
            },
        }
    }
}

/// Whether the mint with this owner and these bytes charges a transfer fee, as far as
/// setting up a pool is concerned: bytes that do not unpack count as charging none.
pub open spec fn spec_mint_has_fee(owner: Seq<u8>, data: Seq<u8>) -> bool {
    token_2022_program(owner) && mint_transfer_fee(data) is Some
}

/// Whether the mint with this owner and these bytes runs a transfer hook, as far as
/// setting up a pool is concerned: bytes that do not unpack count as running none.
pub open spec fn spec_mint_has_hook(owner: Seq<u8>, data: Seq<u8>) -> bool {
    token_2022_program(owner) && mint_transfer_hook(data) is Some
}

impl Initialize {
    /// Whether each token program given is the owner of its mint and is the Token or the
    /// Token-2022 program.
    pub open spec fn spec_token_programs_valid(&self) -> bool {
        &&& self.token_program_x@ == self.mint_x.account.owner@
        &&& self.token_program_y@ == self.mint_y.account.owner@
        &&& legacy_token_program(self.token_program_x@) || token_2022_program(
            self.token_program_x@,
        )
        &&& legacy_token_program(self.token_program_y@) || token_2022_program(
            self.token_program_y@,
        )
    }

    /// The pool that [`Initialize::initialize`] sets up.
    pub open spec fn spec_config(
        &self,
        seed: u64,
        fee: u16,
        authority: Option<Address>,
        transfer_fee_basis_points: u16,
        max_transfer_fee: u64,
        hook_program_id: Option<Address>,
        bumps: InitializeBumps,
        config: Config,
    ) -> bool {
        &&& config.seed == seed
        &&& config.authority == authority
        &&& config.mint_x == self.mint_x.account.key
        &&& config.mint_y == self.mint_y.account.key
        &&& config.fee == fee
        &&& !config.locked
        &&& config.config_bump == bumps.config
        &&& config.lp_bump == bumps.mint_lp
        &&& config.fee_destination == (match authority {
            Some(a) => a,
            None => self.admin,
        })
        &&& config.default_transfer_fee_basis_points == transfer_fee_basis_points
        &&& config.default_transfer_fee_max == max_transfer_fee
        &&& config.fee_withdraw_authority == self.config
        &&& config.default_hook_program == hook_program_id
        &&& config.supports_transfer_fees == (spec_mint_has_fee(
            self.mint_x.account.owner@,
            self.mint_x.account.data@,
        ) || spec_mint_has_fee(self.mint_y.account.owner@, self.mint_y.account.data@))
        &&& config.supports_transfer_hooks == (spec_mint_has_hook(
            self.mint_x.account.owner@,
            self.mint_x.account.data@,
        ) || spec_mint_has_hook(self.mint_y.account.owner@, self.mint_y.account.data@))
        &&& !config.supports_metadata
        &&& !config.supports_interest_bearing
        &&& config.approved_hook_programs@ == (match hook_program_id {
            Some(program) => seq![program],
            None => Seq::<Address>::empty(),
        })
    }

    /// Whether a pool can be set up, and why not; `Err(None)` where the extensions of a
    /// mint cannot be listed.
    pub open spec fn spec_check(&self, fee: u16, transfer_fee_basis_points: u16) -> Result<
        (),
        Option<AmmError>,
    > {
        if fee > MAX_POOL_FEE || transfer_fee_basis_points > MAX_TRANSFER_FEE_BASIS_POINTS {
            Err(Some(AmmError::InvalidFee))
        } else if !self.spec_token_programs_valid() {
            Err(Some(AmmError::InvalidTokenProgram))
        } else if self.mint_x.account.key@ == self.mint_y.account.key@ {
            Err(Some(AmmError::IdenticalMints))
        } else {
            match spec_check_extensions(self.mint_x.account.owner@, self.mint_x.account.data@) {
                Err(e) => Err(e),
                Ok(_) => spec_check_extensions(
                    self.mint_y.account.owner@,
                    self.mint_y.account.data@,
                ),
            }
        }
    }

    /// Sets up a pool of the two token types with trading fee `fee`. The trading fee can
    /// be at most 10% and the default transfer fee at most 100% (`InvalidFee`); each
    /// token program must own its mint and be the Token or the Token-2022 program
    /// (`InvalidTokenProgram`); the two token types must differ (`IdenticalMints`);
    /// neither may forbid transfers or freeze new accounts (`UnsupportedExtension`). The
    /// pool starts unlocked, pays collected fees to its administrator, or to `admin`
    /// where it has none, and records whether either token type charges transfer fees or
    /// runs a transfer hook. The hook program given, if any, is the pool's default and
    /// the one program on its list of approved hook programs.
    pub fn initialize(
        &self,
        seed: u64,
        fee: u16,
        authority: Option<Address>,
        transfer_fee_basis_points: u16,
        max_transfer_fee: u64,
        hook_program_id: Option<Address>,
        bumps: &InitializeBumps,
    ) -> (config: Result<Config, Error>)
        ensures
            match self.spec_check(fee, transfer_fee_basis_points) {
                Ok(_) => config matches Ok(c) && c.wf() && self.spec_config(
                    seed,
                    fee,
                    authority,
                    transfer_fee_basis_points,
                    max_transfer_fee,
                    hook_program_id,
                    *bumps,
                    c,
                ),
                Err(Some(e)) => config matches Err(Error::Amm(f)) && f == e,
                Err(None) => config matches Err(Error::Program(_)),
            },
    {
        if fee > MAX_POOL_FEE {
            return Err(Error::Amm(AmmError::InvalidFee));
        }
        if transfer_fee_basis_points > MAX_TRANSFER_FEE_BASIS_POINTS {
            return Err(Error::Amm(AmmError::InvalidFee));
        }
        match self.validate_token_programs() {
            Ok(_) => {},
            Err(e) => {
                return Err(Error::Amm(e));
            },
        }
        if self.mint_x.account.key.same(&self.mint_y.account.key) {
            return Err(Error::Amm(AmmError::IdenticalMints));
        }
        match self.validate_token_extensions() {
            Ok(_) => {},
            Err(e) => {
                return Err(e);
            },
        }
        let x_has_transfer_fee = self.has_transfer_fee(&self.mint_x);
        let y_has_transfer_fee = self.has_transfer_fee(&self.mint_y);
        let x_has_transfer_hook = self.has_transfer_hook(&self.mint_x).is_some();
        let y_has_transfer_hook = self.has_transfer_hook(&self.mint_y).is_some();
        let mut approved_hook_programs: Vec<Address> = Vec::new();
        match hook_program_id {
            Some(program) => {
                approved_hook_programs.push(program);
            },
            None => {},
        }
        assert(hook_program_id matches Some(program) ==> approved_hook_programs@[0] == program);
        Ok(
            Config {
                seed,
                authority,
                mint_x: self.mint_x.account.key,
                mint_y: self.mint_y.account.key,
                fee,
                locked: false,
                config_bump: bumps.config,
                lp_bump: bumps.mint_lp,
                fee_destination: match authority {
                    Some(a) => a,
                    None => self.admin,
                },
                default_transfer_fee_basis_points: transfer_fee_basis_points,
                default_transfer_fee_max: max_transfer_fee,
                fee_withdraw_authority: self.config,
                default_hook_program: hook_program_id,
                supports_transfer_fees: x_has_transfer_fee || y_has_transfer_fee,
                supports_transfer_hooks: x_has_transfer_hook || y_has_transfer_hook,
                supports_metadata: false,
                supports_interest_bearing: false,
                approved_hook_programs,
            },
        )
    }

    /// Checks that each token program given is the owner of its mint and is the Token or
    /// the Token-2022 program.
    pub fn validate_token_programs(&self) -> (checked: Result<(), AmmError>)
        ensures
            checked == (if self.spec_token_programs_valid() {
                Ok::<(), AmmError>(())
            } else {
                Err::<(), AmmError>(AmmError::InvalidTokenProgram)
            }),
    {
        if !self.token_program_x.same(&self.mint_x.account.owner) {
            return Err(AmmError::InvalidTokenProgram);
        }
        if !self.token_program_y.same(&self.mint_y.account.owner) {
            return Err(AmmError::InvalidTokenProgram);
        }
        if !(is_legacy_token_program(&self.token_program_x) || is_token_2022_program(
            &self.token_program_x,
        )) {
            return Err(AmmError::InvalidTokenProgram);
        }
        if !(is_legacy_token_program(&self.token_program_y) || is_token_2022_program(
            &self.token_program_y,
        )) {
            return Err(AmmError::InvalidTokenProgram);
        }
        Ok(())
    }

    /// Checks that neither token type carries an extension that rules it out of a pool.
    pub fn validate_token_extensions(&self) -> (checked: Result<(), Error>)
        ensures
            outcome_is(
                checked,
                match spec_check_extensions(self.mint_x.account.owner@, self.mint_x.account.data@) {
                    Err(e) => Err(e),
                    Ok(_) => spec_check_extensions(
                        self.mint_y.account.owner@,
                        self.mint_y.account.data@,
                    ),
                },
            ),
    {
        match self.check_unsupported_extensions(&self.mint_x) {
            Ok(_) => {},
            Err(e) => {
                return Err(e);
            },
        }
        self.check_unsupported_extensions(&self.mint_y)
    }

    /// Checks that a token type carries no extension that rules it out of a pool.
    pub fn check_unsupported_extensions(&self, mint: &Mint) -> (checked: Result<(), Error>)
        ensures
            outcome_is(checked, spec_check_extensions(mint.account.owner@, mint.account.data@)),
    {
        if !is_token_2022_program(&mint.account.owner) {
            return Ok(());
        }
        if check_mint_unpacks(mint.account.data.as_slice()).is_err() {
            return Ok(());
        }
        let types = match unpack_extension_types(mint.account.data.as_slice()) {
            Ok(types) => types,
            Err(e) => {
                return Err(Error::Program(e));
            },
        };
        let default_state = unpack_default_account_state(mint.account.data.as_slice());
        let mut i: usize = 0;
        while i < types.len()
            invariant
                i <= types.len(),
                token_2022_program(mint.account.owner@),
                mint_unpacks(mint.account.data@),
                mint_extension_types(mint.account.data@) == Some(types@),
                default_state == mint_default_account_state(mint.account.data@),
                forall|j: int|
                    0 <= j < i ==> !spec_extension_unsupported(#[trigger] types@[j], default_state),
            decreases types.len() - i,
        {
            let extension = types[i];
            if extension == EXTENSION_NON_TRANSFERABLE {
                assert(spec_extension_unsupported(types@[i as int], default_state));
                assert(spec_any_unsupported(types@, default_state));
                return Err(Error::Amm(AmmError::UnsupportedExtension));
            }
            if extension == EXTENSION_DEFAULT_ACCOUNT_STATE {
                match default_state {
                    Some(state) => {
                        if state == ACCOUNT_STATE_FROZEN {
                            assert(spec_extension_unsupported(types@[i as int], default_state));
                            assert(spec_any_unsupported(types@, default_state));
                            return Err(Error::Amm(AmmError::UnsupportedExtension));
                        }
                    },
                    None => {},
                }
            }
            i += 1;
        }
        Ok(())
    }

    /// Whether a token type charges a transfer fee; bytes that do not unpack count as
    /// charging none.
    pub fn has_transfer_fee(&self, mint: &Mint) -> (found: bool)
        ensures
            found == spec_mint_has_fee(mint.account.owner@, mint.account.data@),
    {
        if !is_token_2022_program(&mint.account.owner) {
            return false;
        }
        unpack_transfer_fee(mint.account.data.as_slice()).is_some()
    }

    /// The hook program of a token type, if it runs a transfer hook; bytes that do not
    /// unpack count as running none.
    pub fn has_transfer_hook(&self, mint: &Mint) -> (program: Option<Address>)
        ensures
            program is Some == spec_mint_has_hook(mint.account.owner@, mint.account.data@),
            program matches Some(p) ==> mint_transfer_hook(mint.account.data@) == Some(p@),
    {
        if !is_token_2022_program(&mint.account.owner) {
            return None;
        }
        unpack_transfer_hook(mint.account.data.as_slice())
    }
}

} // verus!
