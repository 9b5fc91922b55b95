use crate::accounts::AccountData;
use crate::address::Address;
use crate::error::AmmError;
use crate::state::config::lemma_without;
use crate::state::config::spec_listed;
use crate::state::config::spec_without;
use crate::state::config::without;
use crate::state::config::Config;
use crate::state::config::MAX_APPROVED_HOOK_PROGRAMS;
use crate::state::config::MAX_TRANSFER_FEE_BASIS_POINTS;
use vstd::prelude::*;

verus! {

/// The accounts that lock or unlock a pool.
#[derive(Clone, Debug)]
pub struct Update {
    pub user: Address,
    pub config: Config,
}

/// The accounts that collect withheld transfer fees or change what a pool records of
/// them.
#[derive(Clone, Debug)]
pub struct CollectFees {
    pub authority: Address,
    pub config: Config,
    /// The address of the pool's own account.
    pub config_key: Address,
    /// The token type whose fees are collected.
    pub mint: Address,
    /// The account that receives what is collected.
    pub fee_destination: Address,
}

/// `config` with another value of `locked` and nothing else changed.
pub open spec fn spec_with_locked(config: Config, locked: bool) -> Config {
    Config { locked, ..config }
}

/// A list of approved hook programs once `program` is approved: as it was where
/// `program` is on it, else with `program` at its end.
pub open spec fn spec_with(list: Seq<Address>, program: Address) -> Seq<Address> {
    if spec_listed(list, program@) {
        list
    } else {
        list.push(program)
    }
}

/// Whether two pools differ at most in their default hook program and their list of
/// approved hook programs.
pub open spec fn spec_same_but_hooks(a: Config, b: Config) -> bool {
    &&& a.seed == b.seed
    &&& a.authority == b.authority
    &&& a.mint_x == b.mint_x
    &&& a.mint_y == b.mint_y
    &&& a.fee == b.fee
    &&& a.locked == b.locked
    &&& a.lp_bump == b.lp_bump
    &&& a.config_bump == b.config_bump
    &&& a.fee_destination == b.fee_destination
    &&& a.default_transfer_fee_basis_points == b.default_transfer_fee_basis_points
    &&& a.default_transfer_fee_max == b.default_transfer_fee_max
    &&& a.fee_withdraw_authority == b.fee_withdraw_authority
    &&& a.supports_transfer_fees == b.supports_transfer_fees
    &&& a.supports_transfer_hooks == b.supports_transfer_hooks
    &&& a.supports_metadata == b.supports_metadata
    &&& a.supports_interest_bearing == b.supports_interest_bearing
}

impl Update {
    /// Locks the pool: deposits, withdrawals and swaps are refused from now on. Only the
    /// pool's administrator may do so (`InvalidAuthority`, and nothing changes).
    pub fn lock(&mut self) -> (done: Result<(), AmmError>)
        ensures
            final(self).user == old(self).user,
            old(self).config.spec_is_authority(old(self).user) ==> done is Ok && final(self).config
                == spec_with_locked(old(self).config, true),
            !old(self).config.spec_is_authority(old(self).user) ==> done == Err::<(), AmmError>(
                AmmError::InvalidAuthority,
            ) && final(self).config == old(self).config,
    {
        if !self.config.is_authority(&self.user) {
            return Err(AmmError::InvalidAuthority);
        }
        self.config.locked = true;
        Ok(())
    }

    /// Unlocks the pool. Only the pool's administrator may do so (`InvalidAuthority`, and
    /// nothing changes).
    pub fn unlock(&mut self) -> (done: Result<(), AmmError>)
        ensures
            final(self).user == old(self).user,
            old(self).config.spec_is_authority(old(self).user) ==> done is Ok && final(self).config
                == spec_with_locked(old(self).config, false),
            !old(self).config.spec_is_authority(old(self).user) ==> done == Err::<(), AmmError>(
                AmmError::InvalidAuthority,
            ) && final(self).config == old(self).config,
    {
        if !self.config.is_authority(&self.user) {
            return Err(AmmError::InvalidAuthority);
        }
        self.config.locked = false;
        Ok(())
    }
}

impl CollectFees {
    /// Whether the caller is the pool's administrator.
    pub open spec fn authorized(&self) -> bool {
        self.config.spec_is_authority(self.authority)
    }

    /// Why fees cannot be collected from `sources`, if they cannot: the caller is not
    /// the pool's administrator, there is no source, or the pool does not hold the
    /// authority to withdraw withheld fees.
    pub open spec fn spec_collect_refusal(&self, sources: Seq<AccountData>) -> Option<AmmError> {
        if !self.authorized() {
            Some(AmmError::InvalidAuthority)
        } else if sources.len() == 0 {
            Some(AmmError::InvalidAmount)
        } else if self.config.fee_withdraw_authority@ != self.config_key@ {
            Some(AmmError::InvalidAuthority)
        } else {
            None
        }
    }

    /// Decides a collection of the transfer fees withheld in the accounts given: they are
    /// to be drained, in the order given, into the fee destination. Nothing is moved
    /// here: the result names the accounts to drain.
    pub fn collect_fees(&self, remaining_accounts: &[AccountData]) -> (sources: Result<
        Vec<Address>,
        AmmError,
    >)
        ensures
            match self.spec_collect_refusal(remaining_accounts@) {
                Some(e) => sources == Err::<Vec<Address>, AmmError>(e),
                None => sources matches Ok(s) && s@.len() == remaining_accounts@.len() && forall|
                    i: int,
                |
                    0 <= i < s@.len() ==> s@[i] == remaining_accounts@[i].key,
            },
    {
        if !self.config.is_authority(&self.authority) {
            return Err(AmmError::InvalidAuthority);
        }
        if remaining_accounts.len() == 0 {
            return Err(AmmError::InvalidAmount);
        }
        if !self.config.fee_withdraw_authority.same(&self.config_key) {
            return Err(AmmError::InvalidAuthority);
        }
        let mut sources: Vec<Address> = Vec::new();
        let mut i: usize = 0;
        while i < remaining_accounts.len()
            invariant
                i <= remaining_accounts@.len(),
                sources@.len() == i,
                forall|j: int| 0 <= j < i ==> sources@[j] == remaining_accounts@[j].key,
            decreases remaining_accounts@.len() - i,
        {
            sources.push(remaining_accounts[i].key);
            i += 1;
        }
        Ok(sources)
    }

    /// Sets the default transfer fee that the pool records. Only the pool's
    /// administrator may do so (`InvalidAuthority`), and the fee can be at most 100%
    /// (`InvalidFee`); on either error nothing changes.
    pub fn update_transfer_fee_config(&mut self, new_fee_basis_points: u16, new_max_fee: u64) -> (done:
        Result<(), AmmError>)
        ensures
            done == (if !old(self).authorized() {
                Err::<(), AmmError>(AmmError::InvalidAuthority)
            } else if new_fee_basis_points > MAX_TRANSFER_FEE_BASIS_POINTS {
                Err::<(), AmmError>(AmmError::InvalidFee)
            } else {
                Ok::<(), AmmError>(())
            }),
            done is Err ==> *final(self) == *old(self),
            done is Ok ==> *final(self) == (CollectFees {
                config: Config {
                    default_transfer_fee_basis_points: new_fee_basis_points,
                    default_transfer_fee_max: new_max_fee,
                    ..old(self).config
                },
                ..*old(self)
            }),
    {
        if !self.config.is_authority(&self.authority) {
            return Err(AmmError::InvalidAuthority);
        }
        if new_fee_basis_points > MAX_TRANSFER_FEE_BASIS_POINTS {
            return Err(AmmError::InvalidFee);
        }
        self.config.default_transfer_fee_basis_points = new_fee_basis_points;
        self.config.default_transfer_fee_max = new_max_fee;
        Ok(())
    }

    /// Sets the account that collected fees are paid to. Only the pool's administrator
    /// may do so (`InvalidAuthority`, and nothing changes).
    pub fn update_fee_destination(&mut self, new_destination: Address) -> (done: Result<
        (),
        AmmError,
    >)
        ensures
            done == (if !old(self).authorized() {
                Err::<(), AmmError>(AmmError::InvalidAuthority)
            } else {
                Ok::<(), AmmError>(())
            }),
            done is Err ==> *final(self) == *old(self),
            done is Ok ==> *final(self) == (CollectFees {
                config: Config { fee_destination: new_destination, ..old(self).config },
                ..*old(self)
            }),
    {
        if !self.config.is_authority(&self.authority) {
            return Err(AmmError::InvalidAuthority);
        }
        self.config.fee_destination = new_destination;
        Ok(())
    }

    /// Whether the accounts other than the pool are the same in both.
    pub open spec fn same_accounts(&self, other: &CollectFees) -> bool {
        &&& self.authority == other.authority
        &&& self.config_key == other.config_key
        &&& self.mint == other.mint
        &&& self.fee_destination == other.fee_destination
    }

    /// Why `program` cannot be put on the list of approved hook programs, if it cannot:
    /// the caller is not the pool's administrator (`InvalidAuthority`), or the list is
    /// full and `program` is not on it (`Overflow`).
    pub open spec fn spec_approve_refusal(&self, program: Address) -> Option<AmmError> {
        if !self.authorized() {
            Some(AmmError::InvalidAuthority)
        } else if !self.config.spec_is_approved(program@)
            && self.config.approved_hook_programs@.len() >= MAX_APPROVED_HOOK_PROGRAMS {
            Some(AmmError::Overflow)
        } else {
            None
        }
    }

    /// Sets, or removes, the pool's default hook program. A program that becomes the
    /// default is approved with it: it joins the list of approved hook programs unless it
    /// is on it. Removing the default leaves the list as it is. Only the pool's
    /// administrator may do so (`InvalidAuthority`), and a program that is not on the
    /// list cannot join it once it holds ten (`Overflow`); on either error nothing
    /// changes.
    pub fn update_hook_program(&mut self, new_hook_program: Option<Address>) -> (done: Result<
        (),
        AmmError,
    >)
        ensures
            done == (match new_hook_program {
                Some(program) => match old(self).spec_approve_refusal(program) {
                    Some(e) => Err::<(), AmmError>(e),
                    None => Ok::<(), AmmError>(()),
                },
                None => if old(self).authorized() {
                    Ok::<(), AmmError>(())
                } else {
                    Err::<(), AmmError>(AmmError::InvalidAuthority)
                },
            }),
            done is Err ==> *final(self) == *old(self),
            done is Ok ==> {
                &&& final(self).same_accounts(old(self))
                &&& spec_same_but_hooks(final(self).config, old(self).config)
                &&& final(self).config.default_hook_program == new_hook_program
                &&& final(self).config.approved_hook_programs@ == (match new_hook_program {
                    Some(program) => spec_with(old(self).config.approved_hook_programs@, program),
                    None => old(self).config.approved_hook_programs@,
                })
            },
            old(self).config.wf() ==> final(self).config.wf(),
    {
        if !self.config.is_authority(&self.authority) {
            return Err(AmmError::InvalidAuthority);
        }
        match new_hook_program {
            Some(program) => {
                match self.approve_hook_program(program) {
                    Ok(_) => {},
                    Err(e) => {
                        return Err(e);
                    },
                }
            },
            None => {},
        }
        self.config.default_hook_program = new_hook_program;
        proof {
            if new_hook_program is Some {
                lemma_with_lists(
                    old(self).config.approved_hook_programs@,
                    new_hook_program->0,
                );
            }
        }
        Ok(())
    }

    /// Puts `program` on the pool's list of approved hook programs, at its end, unless it
    /// is on it. Only the pool's administrator may do so (`InvalidAuthority`), and the
    /// list holds at most ten (`Overflow`); on either error nothing changes.
    pub fn approve_hook_program(&mut self, program: Address) -> (done: Result<(), AmmError>)
        ensures
            done == (match old(self).spec_approve_refusal(program) {
                Some(e) => Err::<(), AmmError>(e),
                None => Ok::<(), AmmError>(()),
            }),
            done is Err ==> *final(self) == *old(self),
            done is Ok ==> {
                &&& final(self).same_accounts(old(self))
                &&& spec_same_but_hooks(final(self).config, old(self).config)
                &&& final(self).config.default_hook_program == old(self).config.default_hook_program
                &&& final(self).config.approved_hook_programs@ == spec_with(
                    old(self).config.approved_hook_programs@,
                    program,
                )
            },
            old(self).config.wf() ==> final(self).config.wf(),
    {
        if !self.config.is_authority(&self.authority) {
            return Err(AmmError::InvalidAuthority);
        }
        if self.config.is_approved(&program) {
            return Ok(());
        }
        if self.config.approved_hook_programs.len() >= MAX_APPROVED_HOOK_PROGRAMS {
            return Err(AmmError::Overflow);
        }
        self.config.approved_hook_programs.push(program);
        proof {
            lemma_with_lists(old(self).config.approved_hook_programs@, program);
        }
        Ok(())
    }

    /// Takes `program` off the pool's list of approved hook programs; where it is the
    /// pool's default hook program, the pool has none afterwards. Only the pool's
    /// administrator may do so (`InvalidAuthority`, and nothing changes).
    pub fn revoke_hook_program(&mut self, program: Address) -> (done: Result<(), AmmError>)
        ensures
            done == (if !old(self).authorized() {
                Err::<(), AmmError>(AmmError::InvalidAuthority)
            } else {
                Ok::<(), AmmError>(())
            }),
            done is Err ==> *final(self) == *old(self),
            done is Ok ==> {
                &&& final(self).same_accounts(old(self))
                &&& spec_same_but_hooks(final(self).config, old(self).config)
                &&& final(self).config.default_hook_program == (
                if old(self).config.default_hook_program matches Some(d) && d@ == program@ {
                    None
                } else {
                    old(self).config.default_hook_program
                })
                &&& final(self).config.approved_hook_programs@ == spec_without(
                    old(self).config.approved_hook_programs@,
                    program@,
                )
                &&& !final(self).config.spec_is_approved(program@)
            },
            old(self).config.wf() ==> final(self).config.wf(),
    {
        if !self.config.is_authority(&self.authority) {
            return Err(AmmError::InvalidAuthority);
        }
        let left = without(self.config.approved_hook_programs.as_slice(), &program);
        proof {
            lemma_without(self.config.approved_hook_programs@, program@);
        }
        self.config.approved_hook_programs = left;
        let is_default = match &self.config.default_hook_program {
            Some(default) => default.same(&program),
            None => false,
        };
        if is_default {
            self.config.default_hook_program = None;
        }
        Ok(())
    }
}

/// A list to which `program` is added, unless it is on it, holds `program` and all it
/// held, and lists nothing twice where it did not before.
pub proof fn lemma_with_lists(list: Seq<Address>, program: Address)
    ensures
        spec_listed(spec_with(list, program), program@),
        forall|other: Seq<u8>|
            spec_listed(list, other) ==> #[trigger] spec_listed(spec_with(list, program), other),
        crate::state::config::spec_distinct(list) ==> crate::state::config::spec_distinct(
            spec_with(list, program),
        ),
{
    let with = spec_with(list, program);
    if !spec_listed(list, program@) {
        assert(with[list.len() as int]@ == program@);
    }
    assert forall|other: Seq<u8>| spec_listed(list, other) implies #[trigger] spec_listed(
        with,
        other,
    ) by {
        let i = choose|i: int| 0 <= i < list.len() && (#[trigger] list[i])@ == other;
        assert(with[i]@ == other);
    }
    if crate::state::config::spec_distinct(list) {
        assert forall|i: int, j: int| 0 <= i < j < with.len() implies (#[trigger] with[i])@
            != (#[trigger] with[j])@ by {
            if j < list.len() {
                assert(list[i]@ != list[j]@);
            } else {
                assert(list[i]@ != program@);
            }
        }
    }
}

} // verus!
