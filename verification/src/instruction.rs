//! The instruction model: a program address, an ordered account list with
//! signer/writable flags, and an opaque byte payload. The order of the
//! account list is part of the target program's binary contract.

use vstd::prelude::*;
use crate::addr::Address;

verus! {

/// One account referenced by an instruction, with its access flags.
#[derive(Clone, Copy, Debug)]
pub struct AccountRef {
    pub address: Address,
    pub is_signer: bool,
    pub is_writable: bool,
}

impl View for AccountRef {
    type V = (Seq<u8>, bool, bool);

    /// (address bytes, is_signer, is_writable)
    open spec fn view(&self) -> (Seq<u8>, bool, bool) {
        (self.address@, self.is_signer, self.is_writable)
    }
}

impl AccountRef {
    /// A writable account reference.
    pub fn writable(address: Address, is_signer: bool) -> (r: AccountRef)
        ensures
            r.address@ == address@ && r.is_signer == is_signer && r.is_writable,
    {
        AccountRef { address, is_signer, is_writable: true }
    }

    /// A read-only account reference.
    pub fn readonly(address: Address, is_signer: bool) -> (r: AccountRef)
        ensures
            r.address@ == address@ && r.is_signer == is_signer && !r.is_writable,
    {
        AccountRef { address, is_signer, is_writable: false }
    }
}

/// Whether an account reference has exactly the given address and flags.
pub open spec fn acct_is(a: AccountRef, addr: Seq<u8>, signer: bool, writable: bool) -> bool {
    a.address@ == addr && a.is_signer == signer && a.is_writable == writable
}

/// Whether an account list matches a golden table of
/// (address, is_signer, is_writable) rows, position by position.
pub open spec fn accounts_match(accts: Seq<AccountRef>, table: Seq<(Seq<u8>, bool, bool)>) -> bool {
    accts.len() == table.len() && forall|i: int|
        0 <= i < table.len() ==> acct_is(#[trigger] accts[i], table[i].0, table[i].1, table[i].2)
}

/// A single program-addressed operation: the unit of execution the ledger's
/// programs consume. Immutable once built.
#[derive(Clone, Debug)]
pub struct Instruction {
    pub program: Address,
    pub accounts: Vec<AccountRef>,
    pub data: Vec<u8>,
}

} // verus!
