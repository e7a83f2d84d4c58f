//! Accounts: the per-address record of nonce, balance and code
//! commitment.
use vstd::prelude::*;
use crate::bytes::{clone_bytes, zero_bytes};

verus! {

/// An address-keyed record: a replay-protection counter, a balance in
/// the smallest denomination, and two 32-byte commitments.
#[derive(Debug)]
pub struct Account {
    pub nonce: u64,
    pub balance: u64,
    pub code_hash: Vec<u8>,
    pub storage_root: Vec<u8>,
}

/// The mathematical shape of an account.
pub ghost struct AccountView {
    pub nonce: u64,
    pub balance: u64,
    pub code_hash: Seq<u8>,
    pub storage_root: Seq<u8>,
}

impl View for Account {
    type V = AccountView;

    open spec fn view(&self) -> AccountView {
        AccountView {
            nonce: self.nonce,
            balance: self.balance,
            code_hash: self.code_hash@,
            storage_root: self.storage_root@,
        }
    }
}

impl Account {
    /// A fresh account with the given balance and commitments, at nonce
    /// zero.
    pub fn new(balance: u64, code_hash: Vec<u8>, storage_root: Vec<u8>) -> (r: Account)
        ensures
            r.nonce == 0,
            r.balance == balance,
            r.code_hash@ == code_hash@,
            r.storage_root@ == storage_root@,
    {
        Account { nonce: 0, balance, code_hash, storage_root }
    }

    /// A fresh account with the same fields.
    pub fn duplicate(&self) -> (r: Account)
        ensures
            r@ == self@,
    {
        Account {
            nonce: self.nonce,
            balance: self.balance,
            code_hash: clone_bytes(&self.code_hash),
            storage_root: clone_bytes(&self.storage_root),
        }
    }
}

impl Default for Account {
    /// An empty externally-owned account: zero balance and zero-byte
    /// commitments.
    fn default() -> (r: Account)
        ensures
            r.nonce == 0,
            r.balance == 0,
            r.code_hash@ == Seq::new(32, |i: int| 0u8),
            r.storage_root@ == Seq::new(32, |i: int| 0u8),
    {
        Account::new(0, zero_bytes(32), zero_bytes(32))
    }
}

} // verus!
