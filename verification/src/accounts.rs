use crate::address::Address;
use vstd::prelude::*;

verus! {

/// What an operation reads of an account on the ledger: its address, the program that owns
/// it and the bytes it stores.
#[derive(Clone, Debug)]
pub struct AccountData {
    pub key: Address,
    pub owner: Address,
    pub data: Vec<u8>,
}

/// A token type: its account, the units in circulation and the number of decimals.
#[derive(Clone, Debug)]
pub struct Mint {
    pub account: AccountData,
    pub supply: u64,
    pub decimals: u8,
}

/// A balance of one token type.
#[derive(Clone, Copy, Debug)]
pub struct TokenAccount {
    pub key: Address,
    pub amount: u64,
}

/// How an account takes part in an instruction sent to another program.
#[derive(Clone, Copy, Debug)]
pub struct AccountMeta {
    pub pubkey: Address,
    pub is_signer: bool,
    pub is_writable: bool,
}

impl AccountMeta {
    /// A writable account.
    pub fn new(pubkey: Address, is_signer: bool) -> (meta: AccountMeta)
        ensures
            meta == (AccountMeta { pubkey, is_signer, is_writable: true }),
    {
        AccountMeta { pubkey, is_signer, is_writable: true }
    }

    /// A read-only account.
    pub fn new_readonly(pubkey: Address, is_signer: bool) -> (meta: AccountMeta)
        ensures
            meta == (AccountMeta { pubkey, is_signer, is_writable: false }),
    {
        AccountMeta { pubkey, is_signer, is_writable: false }
    }
}

} // verus!
