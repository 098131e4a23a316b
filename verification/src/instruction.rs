//! Instructions: what a group asks another program to do, and the accounts
//! that the request names.

use vstd::prelude::*;
use crate::pubkey::Pubkey;

verus! {

/// One account named by an instruction, with the role it plays there.
#[derive(Clone, Copy, Debug, PartialEq, Eq)]
pub struct TransactionAccount {
    pub pubkey: Pubkey,
    pub is_signer: bool,
    pub is_writable: bool,
}

impl TransactionAccount {
    /// This account as `caller` forwards it: a signer if it is the caller's
    /// own account, and otherwise as it was.
    pub open spec fn signed_by(self, caller: Pubkey) -> TransactionAccount {
        if self.pubkey == caller {
            TransactionAccount {
                pubkey: self.pubkey,
                is_signer: true,
                is_writable: self.is_writable,
            }
        } else {
            self
        }
    }
}

/// The accounts of an instruction as `caller` forwards them.
pub open spec fn accounts_signed_by(accounts: Seq<TransactionAccount>, caller: Pubkey) -> Seq<
    TransactionAccount,
> {
    Seq::new(accounts.len(), |i: int| accounts[i].signed_by(caller))
}

/// Marks the caller's own account as a signer wherever it occurs among
/// `accounts`. Every other account keeps its role, and the order stays.
pub fn mark_signer(accounts: &Vec<TransactionAccount>, caller: &Pubkey) -> (marked: Vec<
    TransactionAccount,
>)
    ensures
        marked@ == accounts_signed_by(accounts@, *caller),
{
    let mut marked: Vec<TransactionAccount> = Vec::new();
    let mut i: usize = 0;
    while i < accounts.len()
        invariant
            i <= accounts@.len(),
            marked@.len() == i,
            forall|j: int| 0 <= j < i ==> marked@[j] == accounts@[j].signed_by(*caller),
        decreases accounts@.len() - i,
    {
        let account = &accounts[i];
        let is_signer = account.is_signer || account.pubkey == *caller;
        marked.push(
            TransactionAccount {
                pubkey: account.pubkey,
                is_signer,
                is_writable: account.is_writable,
            },
        );
        i += 1;
    }
    assert(marked@ =~= accounts_signed_by(accounts@, *caller));
    marked
}

/// Forwarding keeps the number and the order of the accounts, their addresses
/// and whether each is writable. An account with the caller's address comes
/// out as a signer; every other account comes out as it went in.
pub proof fn lemma_forwarding_marks_the_caller(
    accounts: Seq<TransactionAccount>,
    caller: Pubkey,
    i: int,
)
    requires
        0 <= i < accounts.len(),
    ensures
        accounts_signed_by(accounts, caller).len() == accounts.len(),
        accounts_signed_by(accounts, caller)[i].pubkey == accounts[i].pubkey,
        accounts_signed_by(accounts, caller)[i].is_writable == accounts[i].is_writable,
        accounts[i].pubkey == caller ==> accounts_signed_by(accounts, caller)[i].is_signer,
        accounts[i].pubkey != caller ==> accounts_signed_by(accounts, caller)[i] == accounts[i],
{
}

/// Forwarding a second time for the same caller changes nothing.
pub proof fn lemma_forwarding_twice(accounts: Seq<TransactionAccount>, caller: Pubkey)
    ensures
        accounts_signed_by(accounts_signed_by(accounts, caller), caller) == accounts_signed_by(
            accounts,
            caller,
        ),
{
    assert(accounts_signed_by(accounts_signed_by(accounts, caller), caller) =~= accounts_signed_by(
        accounts,
        caller,
    ));
}

/// What an instruction says: the program to call, the accounts to hand it, and
/// the bytes that tell it what to do.
pub struct InstructionView {
    pub program_id: Pubkey,
    pub accounts: Seq<TransactionAccount>,
    pub data: Seq<u8>,
}

/// A request to another program. The bytes in `data` are that program's own
/// business and are passed on as they are.
#[derive(Clone, Debug, PartialEq, Eq)]
pub struct Instruction {
    pub program_id: Pubkey,
    pub accounts: Vec<TransactionAccount>,
    pub data: Vec<u8>,
}

impl View for Instruction {
    type V = InstructionView;

    open spec fn view(&self) -> InstructionView {
        InstructionView { program_id: self.program_id, accounts: self.accounts@, data: self.data@ }
    }
}

} // verus!
