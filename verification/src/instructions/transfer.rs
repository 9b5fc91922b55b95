use crate::token_utils::TokenExtensions;
use vstd::prelude::*;

verus! {

/// The form of transfer that the token program is asked for.
#[derive(Clone, Copy, Debug, PartialEq, Eq, Structural)]
pub enum TransferKind {
    /// A plain checked transfer.
    Checked,
    /// A plain checked transfer that carries the caller's additional accounts.
    CheckedWithAccounts,
    /// A checked transfer that declares the fee the token type must charge.
    CheckedWithFee { expected_fee: u64 },
    /// A checked transfer sent with the additional accounts that the token type's hook
    /// needs.
    CheckedWithHooks,
}

/// Who authorises a transfer.
#[derive(Clone, Copy, Debug, PartialEq, Eq, Structural)]
pub enum TransferAuthority {
    /// The user, who signed the operation.
    User,
    /// The pool, which signs for its vaults.
    Pool,
}

/// A transfer between the user's account and the pool's vault of one token type.
#[derive(Clone, Copy, Debug, PartialEq, Eq, Structural)]
pub struct TransferInstruction {
    /// Whether token X moves, or token Y.
    pub is_x: bool,
    /// Who authorises the transfer: the user pays into the vault, the pool pays out of it.
    pub authority: TransferAuthority,
    pub kind: TransferKind,
    /// The amount sent, before the token type's own fee.
    pub amount: u64,
    pub decimals: u8,
}

/// The form of transfer for a token type with the given profile: the fee-aware form for
/// one that charges a fee and runs no hook, the hook-aware form for one that runs a hook,
/// the plain form for any other.
pub open spec fn spec_transfer_kind(extensions: TokenExtensions, amount: int) -> TransferKind {
    if extensions.has_transfer_hook {
        TransferKind::CheckedWithHooks
    } else if extensions.has_transfer_fee {
        TransferKind::CheckedWithFee { expected_fee: extensions.spec_fee(amount) as u64 }
    } else {
        TransferKind::Checked
    }
}

/// The form of transfer for a deposit into the pool: as [`spec_transfer_kind`], but a
/// token type with a hook gets a plain transfer, which carries the caller's additional
/// accounts where there are any.
pub open spec fn spec_deposit_transfer_kind(
    extensions: TokenExtensions,
    amount: int,
    has_accounts: bool,
) -> TransferKind {
    if extensions.has_transfer_hook {
        if has_accounts {
            TransferKind::CheckedWithAccounts
        } else {
            TransferKind::Checked
        }
    } else if extensions.has_transfer_fee {
        TransferKind::CheckedWithFee { expected_fee: extensions.spec_fee(amount) as u64 }
    } else {
        TransferKind::Checked
    }
}

/// Chooses the form of transfer for `amount` of a token type.
pub fn transfer_kind(extensions: &TokenExtensions, amount: u64) -> (kind: TransferKind)
    ensures
        kind == spec_transfer_kind(*extensions, amount as int),
{
    match (extensions.has_transfer_fee, extensions.has_transfer_hook) {
        (true, false) => TransferKind::CheckedWithFee {
            expected_fee: extensions.calculate_fee(amount),
        },
        (true, true) => TransferKind::CheckedWithHooks,
        (false, true) => TransferKind::CheckedWithHooks,
        (false, false) => TransferKind::Checked,
    }
}

/// Chooses the form of transfer for a deposit of `amount` of a token type.
pub fn deposit_transfer_kind(extensions: &TokenExtensions, amount: u64, has_accounts: bool) -> (kind:
    TransferKind)
    ensures
        kind == spec_deposit_transfer_kind(*extensions, amount as int, has_accounts),
{
    match (extensions.has_transfer_fee, extensions.has_transfer_hook) {
        (true, false) => TransferKind::CheckedWithFee {
            expected_fee: extensions.calculate_fee(amount),
        },
        (_, true) => {
            if has_accounts {
                TransferKind::CheckedWithAccounts
            } else {
                TransferKind::Checked
            }
        },
        (false, false) => TransferKind::Checked,
    }
}

} // verus!
