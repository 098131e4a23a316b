//! The state of a group and the rules that change it.
//!
//! A group holds its allies, the number of them that must agree (the
//! threshold), the nonce that fixes its authority, and a sequence number that
//! counts the changes of membership. The rules are stated on `GroupState`, the
//! mathematical value of a group; the methods of `SocialRecovery` carry them
//! out.

use vstd::prelude::*;
use crate::error::ErrorCode;
use crate::pubkey::Pubkey;

verus! {

/// The value of a group.
pub struct GroupState {
    /// The identity that may ask the group's authority to act.
    pub signer: Pubkey,
    /// The allies, in the order in which they were given.
    pub allies: Seq<Pubkey>,
    /// How many allies must agree.
    pub threshold: nat,
    /// The nonce of the group's authority.
    pub nonce: u8,
    /// How often the membership has changed.
    pub alliance_seqno: nat,
}

impl GroupState {
    /// The threshold can be reached: it asks for no more allies than there are.
    pub open spec fn feasible(self) -> bool {
        self.threshold <= self.allies.len()
    }

    /// A group can be created with these allies and this threshold: at least
    /// one ally must agree, and no more than there are.
    pub open spec fn can_create(allies: Seq<Pubkey>, threshold: nat) -> bool {
        1 <= threshold <= allies.len()
    }

    /// The group as creation leaves it. Creation does not say who the signer
    /// is: that field stays as the account held it.
    pub open spec fn created(self, allies: Seq<Pubkey>, threshold: nat, nonce: u8) -> GroupState {
        GroupState { signer: self.signer, allies, threshold, nonce, alliance_seqno: 0 }
    }

    /// The group after its allies are replaced. A threshold that the new
    /// allies could not reach comes down to their number; one that they can
    /// reach stays. The sequence number goes up by one.
    pub open spec fn with_allies(self, allies: Seq<Pubkey>) -> GroupState {
        GroupState {
            signer: self.signer,
            allies,
            threshold: if allies.len() < self.threshold {
                allies.len()
            } else {
                self.threshold
            },
            nonce: self.nonce,
            alliance_seqno: self.alliance_seqno + 1,
        }
    }

    /// The group after its threshold is set. Nothing else changes, the
    /// sequence number included.
    pub open spec fn with_threshold(self, threshold: nat) -> GroupState {
        GroupState {
            signer: self.signer,
            allies: self.allies,
            threshold,
            nonce: self.nonce,
            alliance_seqno: self.alliance_seqno,
        }
    }
}

/// A group as it is stored.
#[derive(Clone, Debug, PartialEq, Eq)]
pub struct SocialRecovery {
    pub signer: Pubkey,
    pub allies: Vec<Pubkey>,
    pub threshold: u64,
    pub nonce: u8,
    pub alliance_seqno: u32,
}

impl View for SocialRecovery {
    type V = GroupState;

    open spec fn view(&self) -> GroupState {
        GroupState {
            signer: self.signer,
            allies: self.allies@,
            threshold: self.threshold as nat,
            nonce: self.nonce,
            alliance_seqno: self.alliance_seqno as nat,
        }
    }
}

impl SocialRecovery {
    /// The stored group is one whose threshold can be reached.
    pub open spec fn wf(&self) -> bool {
        self@.feasible()
    }

    /// Makes this the state of a new group. The threshold must ask for at
    /// least one ally and for no more than there are; otherwise the call is
    /// refused with `InvalidThreshold` and nothing changes.
    pub(crate) fn initialize(&mut self, allies: Vec<Pubkey>, threshold: u64, nonce: u8) -> (result:
        Result<(), ErrorCode>)
        ensures
            result is Ok <==> GroupState::can_create(allies@, threshold as nat),
            result is Ok ==> final(self)@ == old(self)@.created(allies@, threshold as nat, nonce),
            result is Ok ==> final(self).wf() && 1 <= final(self).threshold,
            result is Err ==> result == Err::<(), ErrorCode>(ErrorCode::InvalidThreshold),
            result is Err ==> *final(self) == *old(self),
    {
        if threshold < 1 || threshold > allies.len() as u64 {
            return Err(ErrorCode::InvalidThreshold);
        }
        self.allies = allies;
        self.threshold = threshold;
        self.nonce = nonce;
        self.alliance_seqno = 0;
        Ok(())
    }

    /// Replaces the allies. Any list is taken, the empty one too: a group
    /// without allies has threshold 0 and keeps its authority. The call is
    /// refused with `Overflow`, and nothing changes, only where the sequence
    /// number can go no higher.
    pub(crate) fn set_allies(&mut self, allies: Vec<Pubkey>) -> (result: Result<(), ErrorCode>)
        ensures
            result is Ok <==> old(self).alliance_seqno < u32::MAX,
            result is Ok ==> final(self)@ == old(self)@.with_allies(allies@),
            result is Ok ==> final(self).wf(),
            result is Err ==> result == Err::<(), ErrorCode>(ErrorCode::Overflow),
            result is Err ==> *final(self) == *old(self),
    {
        if self.alliance_seqno == u32::MAX {
            return Err(ErrorCode::Overflow);
        }
        if (allies.len() as u64) < self.threshold {
            self.threshold = allies.len() as u64;
        }
        self.allies = allies;
        self.alliance_seqno = self.alliance_seqno + 1;
        Ok(())
    }

    /// Sets the threshold. It is refused with `InvalidThreshold`, and nothing
    /// changes, exactly where it asks for more allies than there are.
    pub(crate) fn change_threshold(&mut self, threshold: u64) -> (result: Result<(), ErrorCode>)
        ensures
            result is Err <==> threshold > old(self).allies@.len(),
            result is Ok ==> final(self)@ == old(self)@.with_threshold(threshold as nat),
            result is Ok ==> final(self).wf(),
            result is Err ==> result == Err::<(), ErrorCode>(ErrorCode::InvalidThreshold),
            result is Err ==> *final(self) == *old(self),
    {
        if threshold > self.allies.len() as u64 {
            return Err(ErrorCode::InvalidThreshold);
        }
        self.threshold = threshold;
        Ok(())
    }

    /// Replaces the allies and then sets the threshold, as one change: the
    /// threshold is held against the new allies, and where either step is
    /// refused nothing changes.
    pub(crate) fn set_allies_and_change_threshold(
        &mut self,
        allies: Vec<Pubkey>,
        threshold: u64,
    ) -> (result: Result<(), ErrorCode>)
        ensures
            result is Ok <==> old(self).alliance_seqno < u32::MAX && threshold <= allies@.len(),
            result is Ok ==> final(self)@ == old(self)@.with_allies(allies@).with_threshold(
                threshold as nat,
            ),
            result is Ok ==> final(self).wf(),
            result == Err::<(), ErrorCode>(ErrorCode::Overflow) <==> old(self).alliance_seqno
                == u32::MAX,
            result == Err::<(), ErrorCode>(ErrorCode::InvalidThreshold) <==> old(
                self,
            ).alliance_seqno < u32::MAX && threshold > allies@.len(),
            result is Err ==> *final(self) == *old(self),
    {
        if self.alliance_seqno == u32::MAX {
            return Err(ErrorCode::Overflow);
        }
        if threshold > allies.len() as u64 {
            return Err(ErrorCode::InvalidThreshold);
        }
        match self.set_allies(allies) {
            Ok(()) => self.change_threshold(threshold),
            Err(error) => Err(error),
        }
    }
}

/// A created group has a threshold of at least one ally and of no more allies
/// than it has.
pub proof fn lemma_created_threshold_in_range(
    before: GroupState,
    allies: Seq<Pubkey>,
    threshold: nat,
    nonce: u8,
)
    requires
        GroupState::can_create(allies, threshold),
    ensures
        1 <= before.created(allies, threshold, nonce).threshold <= before.created(
            allies,
            threshold,
            nonce,
        ).allies.len(),
        before.created(allies, threshold, nonce).alliance_seqno == 0,
{
}

/// Replacing the allies by fewer than the threshold brings the threshold down
/// to their number; in every case the sequence number goes up by exactly one.
pub proof fn lemma_fewer_allies_clamp_threshold(before: GroupState, allies: Seq<Pubkey>)
    ensures
        allies.len() < before.threshold ==> before.with_allies(allies).threshold == allies.len(),
        before.with_allies(allies).alliance_seqno == before.alliance_seqno + 1,
{
}

/// Replacing the allies never raises the threshold: where the new allies can
/// reach it, it stays as it was.
pub proof fn lemma_more_allies_keep_threshold(before: GroupState, allies: Seq<Pubkey>)
    ensures
        allies.len() >= before.threshold ==> before.with_allies(allies).threshold
            == before.threshold,
        before.with_allies(allies).threshold <= before.threshold,
{
}

/// After every change the threshold can be reached, whatever the group was
/// before.
pub proof fn lemma_changes_keep_threshold_feasible(
    before: GroupState,
    allies: Seq<Pubkey>,
    threshold: nat,
)
    ensures
        before.with_allies(allies).feasible(),
        threshold <= before.allies.len() ==> before.with_threshold(threshold).feasible(),
        threshold <= allies.len() ==> before.with_allies(allies).with_threshold(
            threshold,
        ).feasible(),
{
}

/// No change touches the nonce or the signer, and setting the threshold leaves
/// the sequence number alone.
pub proof fn lemma_changes_keep_nonce(before: GroupState, allies: Seq<Pubkey>, threshold: nat)
    ensures
        before.with_allies(allies).nonce == before.nonce,
        before.with_threshold(threshold).nonce == before.nonce,
        before.with_allies(allies).signer == before.signer,
        before.with_threshold(threshold).signer == before.signer,
        before.with_threshold(threshold).alliance_seqno == before.alliance_seqno,
        before.with_threshold(threshold).allies == before.allies,
{
}

} // verus!
