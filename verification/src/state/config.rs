use crate::address::Address;
use vstd::prelude::*;

verus! {

/// The highest trading fee a pool can have, in basis points.
pub const MAX_POOL_FEE: u16 = 1_000;

/// The highest default transfer fee a pool can record, in basis points.
pub const MAX_TRANSFER_FEE_BASIS_POINTS: u16 = 10_000;

/// The most hook programs a pool can approve.
pub const MAX_APPROVED_HOOK_PROGRAMS: usize = 10;

/// A pool: its two token types, its trading fee, who administers it, and what it is set
/// up to do with token types that charge transfer fees or run transfer hooks.
#[derive(Clone, Debug)]
pub struct Config {
    pub seed: u64,
    pub authority: Option<Address>,
    pub mint_x: Address,
    pub mint_y: Address,
    pub fee: u16,
    pub locked: bool,
    pub lp_bump: u8,
    pub config_bump: u8,
    pub fee_destination: Address,
    pub default_transfer_fee_basis_points: u16,
    pub default_transfer_fee_max: u64,
    pub fee_withdraw_authority: Address,
    pub default_hook_program: Option<Address>,
    pub supports_transfer_fees: bool,
    pub supports_transfer_hooks: bool,
    pub supports_metadata: bool,
    pub supports_interest_bearing: bool,
    pub approved_hook_programs: Vec<Address>,
}

/// Whether one of the addresses listed is `program`.
pub open spec fn spec_listed(list: Seq<Address>, program: Seq<u8>) -> bool {
    exists|i: int| 0 <= i < list.len() && (#[trigger] list[i])@ == program
}

/// Whether no address is listed twice.
pub open spec fn spec_distinct(list: Seq<Address>) -> bool {
    forall|i: int, j: int|
        0 <= i < j < list.len() ==> (#[trigger] list[i])@ != (#[trigger] list[j])@
}

/// `list` without `program`, the others in their order.
pub open spec fn spec_without(list: Seq<Address>, program: Seq<u8>) -> Seq<Address>
    decreases list.len(),
{
    if list.len() == 0 {
        list
    } else if list.last()@ == program {
        spec_without(list.drop_last(), program)
    } else {
        spec_without(list.drop_last(), program).push(list.last())
    }
}

/// What is left of a list without `program` holds the others and not `program`, is no
/// longer than the list, and lists nothing twice where the list did not.
pub proof fn lemma_without(list: Seq<Address>, program: Seq<u8>)
    ensures
        spec_without(list, program).len() <= list.len(),
        !spec_listed(spec_without(list, program), program),
        forall|other: Seq<u8>|
            other != program ==> (#[trigger] spec_listed(spec_without(list, program), other)
                <==> spec_listed(list, other)),
        forall|i: int|
            0 <= i < spec_without(list, program).len() ==> spec_listed(
                list,
                (#[trigger] spec_without(list, program)[i])@,
            ),
        spec_distinct(list) ==> spec_distinct(spec_without(list, program)),
    decreases list.len(),
{
    let left = spec_without(list, program);
    if list.len() > 0 {
        let rest = list.drop_last();
        let last = list.last();
        let kept = spec_without(rest, program);
        lemma_without(rest, program);
        assert(forall|i: int| 0 <= i < kept.len() ==> left[i] == kept[i]);
        assert(forall|j: int| 0 <= j < rest.len() ==> list[j] == rest[j]);
        assert(last@ != program ==> left.len() == kept.len() + 1 && left[kept.len() as int]
            == last);
        assert(last@ == program ==> left == kept);
        assert forall|other: Seq<u8>| other != program implies (#[trigger] spec_listed(
            left,
            other,
        ) <==> spec_listed(list, other)) by {
            assert(spec_listed(kept, other) <==> spec_listed(rest, other));
            if spec_listed(left, other) {
                let i = choose|i: int| 0 <= i < left.len() && (#[trigger] left[i])@ == other;
                if i < kept.len() {
                    assert(kept[i]@ == other);
                    assert(spec_listed(kept, other));
                    let j = choose|j: int| 0 <= j < rest.len() && (#[trigger] rest[j])@ == other;
                    assert(list[j]@ == other);
                } else {
                    assert(list[list.len() - 1]@ == other);
                }
            }
            if spec_listed(list, other) {
                let j = choose|j: int| 0 <= j < list.len() && (#[trigger] list[j])@ == other;
                if j < rest.len() {
                    assert(rest[j]@ == other);
                    assert(spec_listed(rest, other));
                    let i = choose|i: int| 0 <= i < kept.len() && (#[trigger] kept[i])@ == other;
                    assert(left[i]@ == other);
                } else {
                    assert(left[kept.len() as int]@ == other);
                }
            }
        }
        assert forall|i: int| 0 <= i < left.len() implies spec_listed(
            list,
            (#[trigger] left[i])@,
        ) by {
            if i < kept.len() {
                assert(spec_listed(rest, kept[i]@));
                let j = choose|j: int| 0 <= j < rest.len() && (#[trigger] rest[j])@ == kept[i]@;
                assert(list[j]@ == left[i]@);
            } else {
                assert(list[list.len() - 1]@ == left[i]@);
            }
        }
        if spec_listed(left, program) {
            let i = choose|i: int| 0 <= i < left.len() && (#[trigger] left[i])@ == program;
            if i < kept.len() {
                assert(kept[i]@ == program);
                assert(spec_listed(kept, program));
            }
        }
        if spec_distinct(list) {
            assert forall|i: int, j: int| 0 <= i < j < rest.len() implies (#[trigger] rest[i])@
                != (#[trigger] rest[j])@ by {
                assert(list[i]@ != list[j]@);
            }
            assert forall|i: int, j: int| 0 <= i < j < left.len() implies (#[trigger] left[i])@
                != (#[trigger] left[j])@ by {
                if j < kept.len() {
                    assert(kept[i]@ != kept[j]@);
                } else {
                    assert(spec_listed(rest, kept[i]@));
                    let k = choose|k: int| 0 <= k < rest.len() && (#[trigger] rest[k])@ == kept[i]@;
                    assert(list[k]@ != list[list.len() - 1]@);
                }
            }
        }
    }
}

/// Whether one of the addresses listed is `program`.
pub fn is_listed(list: &[Address], program: &Address) -> (yes: bool)
    ensures
        yes == spec_listed(list@, program@),
{
    let mut i: usize = 0;
    while i < list.len()
        invariant
            i <= list@.len(),
            forall|j: int| 0 <= j < i ==> (#[trigger] list@[j])@ != program@,
        decreases list@.len() - i,
    {
        if list[i].same(program) {
            assert(list@[i as int]@ == program@);
            return true;
        }
        i += 1;
    }
    false
}

/// The addresses listed without `program`, the others in their order.
pub fn without(list: &[Address], program: &Address) -> (left: Vec<Address>)
    ensures
        left@ == spec_without(list@, program@),
{
    let mut left: Vec<Address> = Vec::new();
    let mut i: usize = 0;
    assert(list@.subrange(0, 0).len() == 0);
    while i < list.len()
        invariant
            i <= list@.len(),
            left@ == spec_without(list@.subrange(0, i as int), program@),
        decreases list@.len() - i,
    {
        let ghost before = list@.subrange(0, i as int);
        let ghost after = list@.subrange(0, i as int + 1);
        assert(after.drop_last() =~= before);
        assert(after.last() == list@[i as int]);
        if !list[i].same(program) {
            left.push(list[i]);
        }
        i += 1;
    }
    assert(list@.subrange(0, i as int) =~= list@);
    left
}

impl Config {
    /// The two token types differ, the trading fee is at most 10%, at most ten hook
    /// programs are approved and none twice, and the default hook program, where there is
    /// one, is among them.
    pub open spec fn wf(&self) -> bool {
        &&& self.mint_x@ != self.mint_y@
        &&& self.fee <= MAX_POOL_FEE
        &&& self.approved_hook_programs@.len() <= MAX_APPROVED_HOOK_PROGRAMS
        &&& spec_distinct(self.approved_hook_programs@)
        &&& self.default_hook_program matches Some(program) ==> self.spec_is_approved(program@)
    }

    /// Whether `program` is on the pool's list of approved hook programs.
    pub open spec fn spec_is_approved(&self, program: Seq<u8>) -> bool {
        spec_listed(self.approved_hook_programs@, program)
    }

    /// Whether `program` is on the pool's list of approved hook programs.
    pub fn is_approved(&self, program: &Address) -> (yes: bool)
        ensures
            yes == self.spec_is_approved(program@),
    {
        is_listed(self.approved_hook_programs.as_slice(), program)
    }

    /// Whether `user` is the pool's administrator.
    pub open spec fn spec_is_authority(&self, user: Address) -> bool {
        self.authority matches Some(a) && a@ == user@
    }

    /// Whether `user` is the pool's administrator.
    pub fn is_authority(&self, user: &Address) -> (yes: bool)
        ensures
            yes == self.spec_is_authority(*user),
    {
        match &self.authority {
            Some(authority) => authority.same(user),
            None => false,
        }
    }
}

} // verus!
