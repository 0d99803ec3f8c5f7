//! The transaction assembler: combines instructions into a single message
//! with one fee-paying account, builds the composite account table — every
//! distinct account exactly once, flags OR-ed across instructions, the fee
//! payer first — and resolves the set of required signers.

use vstd::prelude::*;
use crate::addr::{address_eq, Address};
use crate::errors::ClientError;
use crate::instruction::{AccountRef, Instruction};

verus! {

/// An unsigned transaction message: the fee payer, the ordered instruction
/// list, and the composite account table derived from them. The freshness
/// token is bound later, by the submission pipeline.
#[derive(Clone, Debug)]
pub struct TransactionMessage {
    pub fee_payer: Address,
    pub instructions: Vec<Instruction>,
    pub account_table: Vec<AccountRef>,
}

/// Every account reference of every instruction, in instruction order.
pub open spec fn all_accounts(instrs: Seq<Instruction>) -> Seq<AccountRef>
    decreases instrs.len(),
{
    if instrs.len() == 0 {
        Seq::empty()
    } else {
        all_accounts(instrs.drop_last()) + instrs.last().accounts@
    }
}

/// Whether some instruction references the address at all.
pub open spec fn referenced(instrs: Seq<Instruction>, addr: Seq<u8>) -> bool {
    exists|t: int|
        0 <= t < all_accounts(instrs).len() && (#[trigger] all_accounts(instrs)[t]).address@
            == addr
}

/// Whether some instruction references the address as a signer.
pub open spec fn referenced_signer(instrs: Seq<Instruction>, addr: Seq<u8>) -> bool {
    exists|t: int|
        0 <= t < all_accounts(instrs).len() && (#[trigger] all_accounts(instrs)[t]).address@
            == addr && all_accounts(instrs)[t].is_signer
}

/// Whether some instruction references the address as writable.
pub open spec fn referenced_writable(instrs: Seq<Instruction>, addr: Seq<u8>) -> bool {
    exists|t: int|
        0 <= t < all_accounts(instrs).len() && (#[trigger] all_accounts(instrs)[t]).address@
            == addr && all_accounts(instrs)[t].is_writable
}

/// What the composite account table of a message guarantees:
/// the fee payer stands first, as a writable signer; no address appears
/// twice; every referenced account appears; nothing else appears; and each
/// row's flags are the OR of that account's flags across all instructions,
/// with the fee payer forced writable and signing.
pub open spec fn table_well_formed(msg: TransactionMessage) -> bool {
    let table = msg.account_table@;
    let instrs = msg.instructions@;
    let payer = msg.fee_payer@;
    &&& table.len() >= 1
    &&& table[0].address@ == payer && table[0].is_signer && table[0].is_writable
    &&& (forall|k1: int, k2: int|
        0 <= k1 < k2 < table.len() ==> (#[trigger] table[k1]).address@ != (
        #[trigger] table[k2]).address@)
    &&& (forall|t: int|
        0 <= t < all_accounts(instrs).len() ==> exists|k: int|
            0 <= k < table.len() && (#[trigger] table[k]).address@ == (
            #[trigger] all_accounts(instrs)[t]).address@)
    &&& (forall|k: int|
        1 <= k < table.len() ==> referenced(instrs, (#[trigger] table[k]).address@))
    &&& (forall|k: int|
        0 <= k < table.len() ==> (#[trigger] table[k]).is_signer == (table[k].address@ == payer
            || referenced_signer(instrs, table[k].address@)))
    &&& (forall|k: int|
        0 <= k < table.len() ==> (#[trigger] table[k]).is_writable == (table[k].address@ == payer
            || referenced_writable(instrs, table[k].address@)))
}

/// Collects every account reference of every instruction, in order.
fn flatten_accounts(instructions: &Vec<Instruction>) -> (r: Vec<AccountRef>)
    ensures
        r@ == all_accounts(instructions@),
{
    let mut out: Vec<AccountRef> = Vec::new();
    let mut i: usize = 0;
    while i < instructions.len()
        invariant
            i <= instructions@.len(),
            out@ == all_accounts(instructions@.subrange(0, i as int)),
        decreases instructions@.len() - i,
    {
        let accts = &instructions[i].accounts;
        let mut j: usize = 0;
        while j < accts.len()
            invariant
                j <= accts@.len(),
                accts@ == instructions@[i as int].accounts@,
                i < instructions@.len(),
                out@ == all_accounts(instructions@.subrange(0, i as int)) + accts@.subrange(
                    0,
                    j as int,
                ),
            decreases accts@.len() - j,
        {
            out.push(accts[j]);
            proof {
                assert(accts@.subrange(0, j + 1) =~= accts@.subrange(0, j as int) + seq![
                    accts@[j as int],
                ]);
                assert(all_accounts(instructions@.subrange(0, i as int)) + accts@.subrange(
                    0,
                    j + 1,
                ) =~= (all_accounts(instructions@.subrange(0, i as int)) + accts@.subrange(
                    0,
                    j as int,
                )) + seq![accts@[j as int]]);
            }
            j += 1;
        }
        proof {
            let pre = instructions@.subrange(0, i as int);
            let cur = instructions@.subrange(0, i + 1);
            assert(cur.drop_last() =~= pre);
            assert(cur.last() == instructions@[i as int]);
            assert(accts@.subrange(0, accts@.len() as int) =~= accts@);
        }
        i += 1;
    }
    proof {
        assert(instructions@.subrange(0, instructions@.len() as int) =~= instructions@);
    }
    out
}

/// Finds the row holding an address, if any.
fn find_entry(table: &Vec<AccountRef>, addr: &Address) -> (r: Option<usize>)
    ensures
        r matches Some(k) ==> 0 <= k < table@.len() && table@[k as int].address@ == addr@,
        r is None ==> forall|k: int| 0 <= k < table@.len() ==> (#[trigger] table@[k]).address@
            != addr@,
{
    let mut k: usize = 0;
    while k < table.len()
        invariant
            k <= table@.len(),
            forall|k2: int| 0 <= k2 < k ==> (#[trigger] table@[k2]).address@ != addr@,
        decreases table@.len() - k,
    {
        if address_eq(&table[k].address, addr) {
            return Some(k);
        }
        k += 1;
    }
    None
}

/// Whether an account reference of the flat list before position `t`
/// carries the address with the signer flag set.
spec fn prefix_signer(flat: Seq<AccountRef>, t: int, addr: Seq<u8>) -> bool {
    exists|u: int|
        0 <= u < t && (#[trigger] flat[u]).address@ == addr && flat[u].is_signer
}

/// Whether an account reference of the flat list before position `t`
/// carries the address with the writable flag set.
spec fn prefix_writable(flat: Seq<AccountRef>, t: int, addr: Seq<u8>) -> bool {
    exists|u: int|
        0 <= u < t && (#[trigger] flat[u]).address@ == addr && flat[u].is_writable
}

/// Assembles instructions into one message for the given fee payer: builds
/// the composite account table with the fee payer first as a writable
/// signer, every distinct referenced account exactly once, and each row's
/// flags OR-ed across all its references. Fails if and only if no
/// instruction was given.
#[verifier::rlimit(100)]
pub fn assemble(instructions: Vec<Instruction>, fee_payer: &Address) -> (r: Result<
    TransactionMessage,
    ClientError,
>)
    ensures
        r is Ok <==> instructions@.len() > 0,
        r is Err ==> r == Err::<TransactionMessage, ClientError>(ClientError::EmptyInstructionSet),
        r matches Ok(msg) ==> msg.fee_payer@ == fee_payer@ && msg.instructions@ == instructions@
            && table_well_formed(msg),
{
    if instructions.len() == 0 {
        return Err(ClientError::EmptyInstructionSet);
    }
    let flat = flatten_accounts(&instructions);
    let mut table: Vec<AccountRef> = Vec::new();
    table.push(AccountRef { address: *fee_payer, is_signer: true, is_writable: true });
    let mut t: usize = 0;
    while t < flat.len()
        invariant
            t <= flat@.len(),
            flat@ == all_accounts(instructions@),
            table@.len() >= 1,
            table@[0].address@ == fee_payer@ && table@[0].is_signer && table@[0].is_writable,
            forall|k1: int, k2: int|
                0 <= k1 < k2 < table@.len() ==> (#[trigger] table@[k1]).address@ != (
                #[trigger] table@[k2]).address@,
            forall|k: int|
                1 <= k < table@.len() ==> exists|u: int|
                    0 <= u < t && (#[trigger] flat@[u]).address@ == (
                    #[trigger] table@[k]).address@,
            forall|u: int|
                0 <= u < t ==> exists|k: int|
                    0 <= k < table@.len() && (#[trigger] table@[k]).address@ == (
                    #[trigger] flat@[u]).address@,
            forall|k: int|
                0 <= k < table@.len() ==> (#[trigger] table@[k]).is_signer == (table@[k].address@
                    == fee_payer@ || prefix_signer(flat@, t as int, table@[k].address@)),
            forall|k: int|
                0 <= k < table@.len() ==> (#[trigger] table@[k]).is_writable == (
                table@[k].address@ == fee_payer@ || prefix_writable(
                    flat@,
                    t as int,
                    table@[k].address@,
                )),
        decreases flat@.len() - t,
    {
        let a = flat[t];
        let ghost old_table = table@;
        match find_entry(&table, &a.address) {
            Some(k) => {
                let cur = table[k];
                let merged = AccountRef {
                    address: cur.address,
                    is_signer: cur.is_signer || a.is_signer,
                    is_writable: cur.is_writable || a.is_writable,
                };
                table.set(k, merged);
                proof {
                    assert forall|u: int| 0 <= u < t + 1 implies exists|k2: int|
                        0 <= k2 < table@.len() && (#[trigger] table@[k2]).address@ == (
                        #[trigger] flat@[u]).address@ by {
                        if u == t {
                            assert(table@[k as int].address@ == flat@[u].address@);
                        } else {
                            let k0 = choose|k0: int|
                                0 <= k0 < old_table.len() && (#[trigger] old_table[k0]).address@
                                    == flat@[u].address@;
                            assert(table@[k0].address@ == flat@[u].address@);
                        }
                    }
                    assert forall|k2: int| 0 <= k2 < table@.len() implies (
                    #[trigger] table@[k2]).is_signer == (table@[k2].address@ == fee_payer@
                        || prefix_signer(flat@, t + 1, table@[k2].address@)) by {
                        if k2 == k {
                            assert(prefix_signer(flat@, t + 1, table@[k2].address@) <==> (
                            prefix_signer(flat@, t as int, table@[k2].address@)
                                || flat@[t as int].is_signer));
                        } else {
                            assert(table@[k2].address@ != flat@[t as int].address@);
                            assert(prefix_signer(flat@, t + 1, table@[k2].address@) <==>
                                prefix_signer(flat@, t as int, table@[k2].address@));
                        }
                    }
                    assert forall|k2: int| 0 <= k2 < table@.len() implies (
                    #[trigger] table@[k2]).is_writable == (table@[k2].address@ == fee_payer@
                        || prefix_writable(flat@, t + 1, table@[k2].address@)) by {
                        if k2 == k {
                            assert(prefix_writable(flat@, t + 1, table@[k2].address@) <==> (
                            prefix_writable(flat@, t as int, table@[k2].address@)
                                || flat@[t as int].is_writable));
                        } else {
                            assert(table@[k2].address@ != flat@[t as int].address@);
                            assert(prefix_writable(flat@, t + 1, table@[k2].address@) <==>
                                prefix_writable(flat@, t as int, table@[k2].address@));
                        }
                    }
                }
            },
            None => {
                table.push(
                    AccountRef {
                        address: a.address,
                        is_signer: a.is_signer,
                        is_writable: a.is_writable,
                    },
                );
                proof {
                    let n = table@.len() - 1;
                    assert forall|u: int| 0 <= u < t implies (#[trigger] flat@[u]).address@
                        != a.address@ by {
                        let k0 = choose|k0: int|
                            0 <= k0 < old_table.len() && (#[trigger] old_table[k0]).address@
                                == flat@[u].address@;
                        assert(old_table[k0].address@ != a.address@);
                    }
                    assert forall|u: int| 0 <= u < t + 1 implies exists|k2: int|
                        0 <= k2 < table@.len() && (#[trigger] table@[k2]).address@ == (
                        #[trigger] flat@[u]).address@ by {
                        if u == t {
                            assert(table@[n].address@ == flat@[u].address@);
                        } else {
                            let k0 = choose|k0: int|
                                0 <= k0 < old_table.len() && (#[trigger] old_table[k0]).address@
                                    == flat@[u].address@;
                            assert(table@[k0].address@ == flat@[u].address@);
                        }
                    }
                    assert forall|k2: int| 0 <= k2 < table@.len() implies (
                    #[trigger] table@[k2]).is_signer == (table@[k2].address@ == fee_payer@
                        || prefix_signer(flat@, t + 1, table@[k2].address@)) by {
                        if k2 == n {
                            assert(!prefix_signer(flat@, t as int, a.address@));
                            assert(prefix_signer(flat@, t + 1, a.address@) <==> flat@[t as int].is_signer);
                        } else {
                            assert(table@[k2].address@ != flat@[t as int].address@);
                            assert(prefix_signer(flat@, t + 1, table@[k2].address@) <==>
                                prefix_signer(flat@, t as int, table@[k2].address@));
                        }
                    }
                    assert forall|k2: int| 0 <= k2 < table@.len() implies (
                    #[trigger] table@[k2]).is_writable == (table@[k2].address@ == fee_payer@
                        || prefix_writable(flat@, t + 1, table@[k2].address@)) by {
                        if k2 == n {
                            assert(!prefix_writable(flat@, t as int, a.address@));
                            assert(prefix_writable(flat@, t + 1, a.address@) <==> flat@[t as int].is_writable);
                        } else {
                            assert(table@[k2].address@ != flat@[t as int].address@);
                            assert(prefix_writable(flat@, t + 1, table@[k2].address@) <==>
                                prefix_writable(flat@, t as int, table@[k2].address@));
                        }
                    }
                }
            },
        }
        t += 1;
    }
    let msg = TransactionMessage { fee_payer: *fee_payer, instructions, account_table: table };
    proof {
        assert(table_well_formed(msg));
    }
    Ok(msg)
}

/// The addresses of the signer-flagged rows of an account table, in table
/// order.
pub open spec fn signer_addrs(table: Seq<AccountRef>) -> Seq<Seq<u8>>
    decreases table.len(),
{
    if table.len() == 0 {
        Seq::empty()
    } else {
        signer_addrs(table.drop_last()) + (if table.last().is_signer {
            seq![table.last().address@]
        } else {
            Seq::empty()
        })
    }
}

/// The address views of a list of addresses.
pub open spec fn addrs_view(s: Seq<Address>) -> Seq<Seq<u8>> {
    s.map_values(|a: Address| a@)
}

/// Lists the accounts that must sign the message: the signer-flagged rows
/// of its composite account table, in order — the fee payer first whenever
/// the table is well formed.
pub fn required_signers(msg: &TransactionMessage) -> (r: Vec<Address>)
    ensures
        addrs_view(r@) == signer_addrs(msg.account_table@),
{
    let mut out: Vec<Address> = Vec::new();
    let table = &msg.account_table;
    let mut k: usize = 0;
    while k < table.len()
        invariant
            k <= table@.len(),
            addrs_view(out@) == signer_addrs(table@.subrange(0, k as int)),
        decreases table@.len() - k,
    {
        let ghost pre = table@.subrange(0, k as int);
        let ghost cur = table@.subrange(0, k + 1);
        if table[k].is_signer {
            out.push(table[k].address);
        }
        proof {
            assert(cur.drop_last() =~= pre);
            assert(cur.last() == table@[k as int]);
            if table@[k as int].is_signer {
                assert(addrs_view(out@) =~= signer_addrs(pre) + seq![table@[k as int].address@]);
            }
        }
        k += 1;
    }
    proof {
        assert(table@.subrange(0, table@.len() as int) =~= table@);
    }
    out
}

/// Whether some supplied capability carries the address.
pub open spec fn covered(available: Seq<Address>, addr: Seq<u8>) -> bool {
    exists|i: int| 0 <= i < available.len() && (#[trigger] available[i])@ == addr
}

/// Whether a capability list covers every signer the message requires.
pub open spec fn signers_complete(msg: TransactionMessage, available: Seq<Address>) -> bool {
    forall|k: int|
        0 <= k < msg.account_table@.len() ==> ((#[trigger] msg.account_table@[k]).is_signer
            ==> covered(available, msg.account_table@[k].address@))
}

/// Whether the list holds an address.
fn contains_address(list: &Vec<Address>, addr: &Address) -> (r: bool)
    ensures
        r == covered(list@, addr@),
{
    let mut i: usize = 0;
    while i < list.len()
        invariant
            i <= list@.len(),
            forall|i2: int| 0 <= i2 < i ==> (#[trigger] list@[i2])@ != addr@,
        decreases list@.len() - i,
    {
        if address_eq(&list[i], addr) {
            return true;
        }
        i += 1;
    }
    false
}

/// Checks signer completeness: succeeds if and only if every account
/// flagged as signer in the message's account table has a signing
/// capability supplied; otherwise nothing may be signed or submitted.
pub fn check_signers(msg: &TransactionMessage, available: &Vec<Address>) -> (r: Result<
    (),
    ClientError,
>)
    ensures
        r is Ok <==> signers_complete(*msg, available@),
        r is Err ==> r == Err::<(), ClientError>(ClientError::MissingSignerError),
{
    let table = &msg.account_table;
    let mut k: usize = 0;
    while k < table.len()
        invariant
            k <= table@.len(),
            table@ == msg.account_table@,
            forall|k2: int|
                0 <= k2 < k ==> ((#[trigger] table@[k2]).is_signer ==> covered(
                    available@,
                    table@[k2].address@,
                )),
        decreases table@.len() - k,
    {
        if table[k].is_signer {
            if !contains_address(available, &table[k].address) {
                return Err(ClientError::MissingSignerError);
            }
        }
        k += 1;
    }
    Ok(())
}

} // verus!
