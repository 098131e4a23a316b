//! Proposals: instructions that wait for the allies' approval.
//!
//! A proposal remembers the group's sequence number at the time it was made.
//! Once the membership has changed, approvals given before the change count
//! for nothing, and the proposal is stale.

use vstd::prelude::*;
use crate::instruction::{Instruction, InstructionView, TransactionAccount};
use crate::pubkey::Pubkey;
use crate::state::{GroupState, SocialRecovery};

verus! {

/// A proposed instruction, kept until the group's allies have approved it.
#[derive(Clone, Debug, PartialEq, Eq)]
pub struct Transaction {
    /// The group that the proposal belongs to.
    pub social_recovery: Pubkey,
    /// The program to call.
    pub program_id: Pubkey,
    /// The accounts to hand to that program.
    pub accounts: Vec<TransactionAccount>,
    /// The bytes to hand to that program.
    pub data: Vec<u8>,
    /// Whether the proposal has been carried out. It is carried out once.
    pub did_execute: bool,
    /// The group's sequence number when the proposal was made.
    pub alliance_seqno: u32,
}

impl Transaction {
    /// The instruction that this proposal asks for.
    pub open spec fn spec_instruction(&self) -> InstructionView {
        InstructionView { program_id: self.program_id, accounts: self.accounts@, data: self.data@ }
    }

    /// The group's membership has changed since the proposal was made.
    pub open spec fn spec_is_stale(&self, group: GroupState) -> bool {
        self.alliance_seqno as nat != group.alliance_seqno
    }

    /// Builds the instruction that this proposal asks for: its program, its
    /// accounts in their order and with their roles, and its bytes.
    pub fn instruction(&self) -> (instruction: Instruction)
        ensures
            instruction@ == self.spec_instruction(),
    {
        let mut accounts: Vec<TransactionAccount> = Vec::new();
        let mut i: usize = 0;
        while i < self.accounts.len()
            invariant
                i <= self.accounts@.len(),
                accounts@ == self.accounts@.take(i as int),
            decreases self.accounts@.len() - i,
        {
            accounts.push(self.accounts[i]);
            assert(self.accounts@.take(i as int).push(self.accounts@[i as int])
                =~= self.accounts@.take(i + 1));
            i += 1;
        }
        assert(self.accounts@.take(i as int) =~= self.accounts@);
        Instruction { program_id: self.program_id, accounts, data: self.data.clone() }
    }

    /// Says whether the group's membership has changed since the proposal was
    /// made. A stale proposal must not be carried out, however many allies
    /// have approved it.
    pub fn is_stale(&self, group: &SocialRecovery) -> (stale: bool)
        ensures
            stale == self.spec_is_stale(group@),
    {
        self.alliance_seqno != group.alliance_seqno
    }
}

/// Once the allies are replaced, every proposal made up to then is stale,
/// whoever the new allies are: the ones that were current, and the ones that
/// were stale before and stay so.
pub proof fn lemma_new_allies_make_proposals_stale(
    proposal: Transaction,
    before: GroupState,
    allies: Seq<Pubkey>,
)
    requires
        proposal.alliance_seqno <= before.alliance_seqno,
    ensures
        proposal.spec_is_stale(before.with_allies(allies)),
{
}

/// Setting the threshold makes no proposal stale and no stale proposal
/// current.
pub proof fn lemma_threshold_keeps_proposals(
    proposal: Transaction,
    before: GroupState,
    threshold: nat,
)
    ensures
        proposal.spec_is_stale(before.with_threshold(threshold)) == proposal.spec_is_stale(before),
{
}

} // verus!
