//! The accounts that each call is given, and the guard that each call passes.
//!
//! A change to a group is let through only where the group's own authority
//! has signed the call. The program that owns the group is the only one that
//! can sign with that authority, and it does so only when it carries out an
//! instruction for the group: so a group is changed through its own decisions
//! and in no other way.

use vstd::prelude::*;
use crate::authority::{
    address_bytes, authority_seeds, derive_authority, derived_authority, signer_seeds,
};
use crate::error::ErrorCode;
use crate::instruction::{
    accounts_signed_by, mark_signer, Instruction, InstructionView, TransactionAccount,
};
use crate::pubkey::Pubkey;
use crate::state::{GroupState, SocialRecovery};

verus! {

/// What a call is given: the program that runs, and the accounts of the call.
#[derive(Clone, Debug, PartialEq, Eq)]
pub struct Context<T> {
    pub program_id: Pubkey,
    pub accounts: T,
}

/// The account that stores a group: its address and the group in it.
#[derive(Clone, Debug, PartialEq, Eq)]
pub struct GroupAccount {
    pub key: Pubkey,
    pub data: SocialRecovery,
}

impl GroupAccount {
    /// The authority of this group under the program `program_id`, as bytes;
    /// `None` where the group's nonce gives it none.
    pub open spec fn spec_authority(&self, program_id: Pubkey) -> Option<Seq<u8>> {
        derived_authority(program_id@, self.key@, self.data.nonce)
    }

    /// The seeds with which the program signs for this group.
    pub open spec fn spec_seeds(&self) -> Seq<Seq<u8>> {
        authority_seeds(self.key@, self.data.nonce)
    }

    /// Derives the authority of this group under the program `program_id`.
    pub fn authority(&self, program_id: &Pubkey) -> (authority: Option<Pubkey>)
        ensures
            address_bytes(authority) == self.spec_authority(*program_id),
    {
        derive_authority(program_id, &self.key, self.data.nonce)
    }
}

/// An account that comes with a call: its address, and whether it has signed.
#[derive(Clone, Copy, Debug, PartialEq, Eq)]
pub struct SignerAccount {
    pub key: Pubkey,
    pub is_signer: bool,
}

impl SignerAccount {
    /// This account has signed and is the given authority.
    pub open spec fn spec_signs_as(&self, authority: Option<Pubkey>) -> bool {
        self.is_signer && authority == Some(self.key)
    }

    /// Says whether this account has signed and is the given authority.
    pub fn signs_as(&self, authority: &Option<Pubkey>) -> (signs: bool)
        ensures
            signs == self.spec_signs_as(*authority),
    {
        match authority {
            Some(address) => self.is_signer && *address == self.key,
            None => false,
        }
    }

    /// An account signs as a derived authority exactly where it has signed and
    /// its address has the authority's bytes.
    pub proof fn lemma_signs_as_bytes(&self, authority: Option<Pubkey>)
        ensures
            self.spec_signs_as(authority) <==> self.is_signer && address_bytes(authority) == Some(
                self.key@,
            ),
    {
        if let Some(address) = authority {
            Pubkey::lemma_view_injective(address, self.key);
        }
    }
}

/// The accounts of the call that creates a group.
#[derive(Clone, Debug, PartialEq, Eq)]
pub struct CreateSocialRecovery {
    pub social_recovery: GroupAccount,
}

impl Context<CreateSocialRecovery> {
    /// The value of the group in the account that the call speaks of.
    pub open spec fn group(&self) -> GroupState {
        self.accounts.social_recovery.data@
    }

    /// This is the call `before` with the group now worth `group`: the same
    /// program, the same address of the group.
    pub open spec fn follows(
        &self,
        before: Context<CreateSocialRecovery>,
        group: GroupState,
    ) -> bool {
        &&& self.program_id == before.program_id
        &&& self.accounts.social_recovery.key == before.accounts.social_recovery.key
        &&& self.group() == group
    }
}

/// The accounts of a call that changes a group.
#[derive(Clone, Debug, PartialEq, Eq)]
pub struct Auth {
    pub social_recovery: GroupAccount,
    pub social_recovery_signer: SignerAccount,
}

impl Auth {
    /// The value of the group in these accounts.
    pub open spec fn group(&self) -> GroupState {
        self.social_recovery.data@
    }

    /// The signer account has signed and is `authority`.
    pub open spec fn signed_by(&self, authority: Option<Pubkey>) -> bool {
        self.social_recovery_signer.spec_signs_as(authority)
    }

    /// The call is signed by the group's authority under `program_id`.
    pub open spec fn authorized(&self, program_id: Pubkey) -> bool {
        self.social_recovery_signer.is_signer && self.social_recovery.spec_authority(program_id)
            == Some(self.social_recovery_signer.key@)
    }

    /// These are the accounts `before` with the group now worth `group`: the
    /// same address, the same signer account.
    pub open spec fn follows(&self, before: Auth, group: GroupState) -> bool {
        &&& self.social_recovery.key == before.social_recovery.key
        &&& self.social_recovery_signer == before.social_recovery_signer
        &&& self.group() == group
    }

    /// Lets the call through where its signer account has signed and is
    /// `authority`, the authority derived for the group; refuses it with
    /// `InvalidOwner` everywhere else.
    pub fn check(&self, authority: &Option<Pubkey>) -> (result: Result<(), ErrorCode>)
        ensures
            result is Ok <==> self.signed_by(*authority),
            result is Err <==> result == Err::<(), ErrorCode>(ErrorCode::InvalidOwner),
    {
        if self.social_recovery_signer.signs_as(authority) {
            Ok(())
        } else {
            Err(ErrorCode::InvalidOwner)
        }
    }

    /// Replaces the group's allies, given the authority derived for the
    /// group. Without that authority's signature the call is refused with
    /// `InvalidOwner`; where the sequence number can go no higher, with
    /// `Overflow`. A refused call changes nothing.
    pub fn set_allies(&mut self, authority: &Option<Pubkey>, allies: Vec<Pubkey>) -> (result:
        Result<(), ErrorCode>)
        ensures
            result is Ok <==> old(self).signed_by(*authority) && old(self).group().alliance_seqno
                < u32::MAX,
            result == Err::<(), ErrorCode>(ErrorCode::InvalidOwner) <==> !old(self).signed_by(
                *authority,
            ),
            result == Err::<(), ErrorCode>(ErrorCode::Overflow) <==> old(self).signed_by(*authority)
                && old(self).group().alliance_seqno == u32::MAX,
            result is Ok ==> final(self).follows(
                *old(self),
                old(self).group().with_allies(allies@),
            ),
            result is Ok ==> final(self).social_recovery.data.wf(),
            result is Err ==> *final(self) == *old(self),
    {
        if !self.social_recovery_signer.signs_as(authority) {
            return Err(ErrorCode::InvalidOwner);
        }
        self.social_recovery.data.set_allies(allies)
    }

    /// Sets the group's threshold, given the authority derived for the group.
    /// Without that authority's signature the call is refused with
    /// `InvalidOwner`; where the threshold asks for more allies than there
    /// are, with `InvalidThreshold`. A refused call changes nothing.
    pub fn change_threshold(&mut self, authority: &Option<Pubkey>, threshold: u64) -> (result:
        Result<(), ErrorCode>)
        ensures
            result is Ok <==> old(self).signed_by(*authority) && threshold <= old(
                self,
            ).group().allies.len(),
            result == Err::<(), ErrorCode>(ErrorCode::InvalidOwner) <==> !old(self).signed_by(
                *authority,
            ),
            result == Err::<(), ErrorCode>(ErrorCode::InvalidThreshold) <==> old(self).signed_by(
                *authority,
            ) && threshold > old(self).group().allies.len(),
            result is Ok ==> final(self).follows(
                *old(self),
                old(self).group().with_threshold(threshold as nat),
            ),
            result is Ok ==> final(self).social_recovery.data.wf(),
            result is Err ==> *final(self) == *old(self),
    {
        if !self.social_recovery_signer.signs_as(authority) {
            return Err(ErrorCode::InvalidOwner);
        }
        self.social_recovery.data.change_threshold(threshold)
    }

    /// Replaces the group's allies and then sets its threshold, as one change
    /// and given the authority derived for the group. The threshold is held
    /// against the new allies. Without the authority's signature the call is
    /// refused with `InvalidOwner`; where the sequence number can go no
    /// higher, with `Overflow`; where the threshold asks for more allies than
    /// the new ones, with `InvalidThreshold`. A refused call changes nothing.
    pub fn set_allies_and_change_threshold(
        &mut self,
        authority: &Option<Pubkey>,
        allies: Vec<Pubkey>,
        threshold: u64,
    ) -> (result: Result<(), ErrorCode>)
        ensures
            result is Ok <==> old(self).signed_by(*authority) && old(self).group().alliance_seqno
                < u32::MAX && threshold <= allies@.len(),
            result == Err::<(), ErrorCode>(ErrorCode::InvalidOwner) <==> !old(self).signed_by(
                *authority,
            ),
            result == Err::<(), ErrorCode>(ErrorCode::Overflow) <==> old(self).signed_by(*authority)
                && old(self).group().alliance_seqno == u32::MAX,
            result == Err::<(), ErrorCode>(ErrorCode::InvalidThreshold) <==> old(self).signed_by(
                *authority,
            ) && old(self).group().alliance_seqno < u32::MAX && threshold > allies@.len(),
            result is Ok ==> final(self).follows(
                *old(self),
                old(self).group().with_allies(allies@).with_threshold(threshold as nat),
            ),
            result is Ok ==> final(self).social_recovery.data.wf(),
            result is Err ==> *final(self) == *old(self),
    {
        if !self.social_recovery_signer.signs_as(authority) {
            return Err(ErrorCode::InvalidOwner);
        }
        self.social_recovery.data.set_allies_and_change_threshold(allies, threshold)
    }
}

impl Context<Auth> {
    /// The value of the group that the call speaks of.
    pub open spec fn group(&self) -> GroupState {
        self.accounts.group()
    }

    /// The call is signed by the group's authority under the program that
    /// runs.
    pub open spec fn authorized(&self) -> bool {
        self.accounts.authorized(self.program_id)
    }

    /// This is the call `before` with the group now worth `group`: the same
    /// program, the same address of the group, the same signer account.
    pub open spec fn follows(&self, before: Context<Auth>, group: GroupState) -> bool {
        self.program_id == before.program_id && self.accounts.follows(before.accounts, group)
    }
}

/// An instruction together with the seeds of the authority that signs it.
#[derive(Clone, Debug, PartialEq, Eq)]
pub struct SignedInstruction {
    pub instruction: Instruction,
    pub signer_seeds: Vec<Vec<u8>>,
}

/// The accounts of the call that has the group's authority act.
#[derive(Clone, Debug, PartialEq, Eq)]
pub struct ExecuteTransaction {
    pub social_recovery: GroupAccount,
    pub signer: SignerAccount,
}

impl ExecuteTransaction {
    /// The caller is the identity recorded in the group as its signer, has
    /// signed, and is `authority`.
    pub open spec fn admits(&self, authority: Option<Pubkey>) -> bool {
        self.social_recovery.data.signer == self.signer.key && self.signer.spec_signs_as(authority)
    }

    /// The caller is the identity recorded in the group as its signer, has
    /// signed, and is the group's authority under `program_id`.
    pub open spec fn authorized(&self, program_id: Pubkey) -> bool {
        &&& self.social_recovery.data.signer == self.signer.key
        &&& self.signer.is_signer
        &&& self.social_recovery.spec_authority(program_id) == Some(self.signer.key@)
    }

    /// The instruction that the group forwards: the target program, the
    /// accounts with the caller's own account marked as a signer, and the
    /// bytes as they were given.
    pub open spec fn forwarded(
        &self,
        program_id: Pubkey,
        accs: Seq<TransactionAccount>,
        data: Seq<u8>,
    ) -> InstructionView {
        InstructionView {
            program_id,
            accounts: accounts_signed_by(accs, self.signer.key),
            data,
        }
    }

    /// Lets the call through where the caller is the group's recorded signer,
    /// has signed and is `authority`, the authority derived for the group;
    /// refuses it with `InvalidOwner` everywhere else.
    pub fn check(&self, authority: &Option<Pubkey>) -> (result: Result<(), ErrorCode>)
        ensures
            result is Ok <==> self.admits(*authority),
            result is Err <==> result == Err::<(), ErrorCode>(ErrorCode::InvalidOwner),
    {
        if self.social_recovery.data.signer == self.signer.key && self.signer.signs_as(authority) {
            Ok(())
        } else {
            Err(ErrorCode::InvalidOwner)
        }
    }

    /// Builds the instruction that the group's authority signs, given the
    /// authority derived for the group. The instruction goes to `program_id`
    /// with `data` unchanged; among `accs`, exactly the caller's own account
    /// becomes a signer. With it come the seeds of the group's authority.
    /// Where the guard refuses the caller, so does this, with `InvalidOwner`.
    pub fn forward(
        &self,
        authority: &Option<Pubkey>,
        program_id: Pubkey,
        accs: Vec<TransactionAccount>,
        data: Vec<u8>,
    ) -> (result: Result<SignedInstruction, ErrorCode>)
        ensures
            result is Ok <==> self.admits(*authority),
            result matches Ok(signed) ==> signed.instruction@ == self.forwarded(
                program_id,
                accs@,
                data@,
            ) && signed.signer_seeds.deep_view() == self.social_recovery.spec_seeds(),
            result matches Err(error) ==> error == ErrorCode::InvalidOwner,
    {
        if !(self.social_recovery.data.signer == self.signer.key && self.signer.signs_as(
            authority,
        )) {
            return Err(ErrorCode::InvalidOwner);
        }
        let accounts = mark_signer(&accs, &self.signer.key);
        let instruction = Instruction { program_id, accounts, data };
        let seeds = signer_seeds(&self.social_recovery.key, self.social_recovery.data.nonce);
        Ok(SignedInstruction { instruction, signer_seeds: seeds })
    }
}

impl Context<ExecuteTransaction> {
    /// The caller is the identity recorded in the group as its signer, has
    /// signed, and is the group's authority under the program that runs.
    pub open spec fn authorized(&self) -> bool {
        self.accounts.authorized(self.program_id)
    }
}

} // verus!
