//! The calls that the program answers.
//!
//! Each call derives the group's authority from the group's address and
//! nonce, holds the accounts it was given against it, and then does its work.
//! A refused call leaves its accounts as they were.

use vstd::prelude::*;
use crate::accounts::{Auth, Context, CreateSocialRecovery, ExecuteTransaction, SignedInstruction};
use crate::authority::program_address;
use crate::error::ErrorCode;
use crate::instruction::TransactionAccount;
use crate::pubkey::Pubkey;

verus! {

/// Creates a group with the given allies, threshold and nonce, and with
/// sequence number 0. The threshold must ask for at least one ally and for no
/// more than there are: every other threshold is refused with
/// `InvalidThreshold`. The group's signer is not set here and stays as the
/// account held it.
pub fn create_social_recovery(
    ctx: &mut Context<CreateSocialRecovery>,
    allies: Vec<Pubkey>,
    threshold: u64,
    nonce: u8,
) -> (result: Result<(), ErrorCode>)
    ensures
        result is Ok <==> 1 <= threshold <= allies@.len(),
        result is Err <==> result == Err::<(), ErrorCode>(ErrorCode::InvalidThreshold),
        result is Ok ==> final(ctx).follows(
            *old(ctx),
            old(ctx).group().created(allies@, threshold as nat, nonce),
        ),
        result is Ok ==> 1 <= final(ctx).group().threshold <= final(ctx).group().allies.len(),
        result is Err ==> *final(ctx) == *old(ctx),
{
    ctx.accounts.social_recovery.data.initialize(allies, threshold, nonce)
}

/// Replaces the allies and then sets the threshold, as one change. The
/// threshold is held against the new allies.
///
/// The call is refused with `InvalidOwner` unless the group's authority has
/// signed it, with `Overflow` where the sequence number can go no higher, and
/// with `InvalidThreshold` where the threshold asks for more allies than the
/// new ones.
pub fn set_allies_and_change_threshold(
    ctx: &mut Context<Auth>,
    allies: Vec<Pubkey>,
    threshold: u64,
) -> (result: Result<(), ErrorCode>)
    ensures
        result is Ok <==> old(ctx).authorized() && old(ctx).group().alliance_seqno < u32::MAX
            && threshold <= allies@.len(),
        result == Err::<(), ErrorCode>(ErrorCode::InvalidOwner) <==> !old(ctx).authorized(),
        result == Err::<(), ErrorCode>(ErrorCode::Overflow) <==> old(ctx).authorized() && old(
            ctx,
        ).group().alliance_seqno == u32::MAX,
        result == Err::<(), ErrorCode>(ErrorCode::InvalidThreshold) <==> old(ctx).authorized()
            && old(ctx).group().alliance_seqno < u32::MAX && threshold > allies@.len(),
        result is Ok ==> final(ctx).follows(
            *old(ctx),
            old(ctx).group().with_allies(allies@).with_threshold(threshold as nat),
        ),
        result is Ok ==> final(ctx).group().feasible(),
        result is Err ==> *final(ctx) == *old(ctx),
{
    let authority = ctx.accounts.social_recovery.authority(&ctx.program_id);
    proof {
        ctx.accounts.social_recovery_signer.lemma_signs_as_bytes(authority);
    }
    ctx.accounts.set_allies_and_change_threshold(&authority, allies, threshold)
}

/// Replaces the allies. A threshold that the new allies could not reach comes
/// down to their number, and the sequence number goes up by one.
///
/// The call is refused with `InvalidOwner` unless the group's authority has
/// signed it, and with `Overflow` where the sequence number can go no higher.
pub fn set_allies(ctx: &mut Context<Auth>, allies: Vec<Pubkey>) -> (result: Result<
    (),
    ErrorCode,
>)
    ensures
        result is Ok <==> old(ctx).authorized() && old(ctx).group().alliance_seqno < u32::MAX,
        result == Err::<(), ErrorCode>(ErrorCode::InvalidOwner) <==> !old(ctx).authorized(),
        result == Err::<(), ErrorCode>(ErrorCode::Overflow) <==> old(ctx).authorized() && old(
            ctx,
        ).group().alliance_seqno == u32::MAX,
        result is Ok ==> final(ctx).follows(*old(ctx), old(ctx).group().with_allies(allies@)),
        result is Ok ==> final(ctx).group().feasible(),
        result is Err ==> *final(ctx) == *old(ctx),
{
    let authority = ctx.accounts.social_recovery.authority(&ctx.program_id);
    proof {
        ctx.accounts.social_recovery_signer.lemma_signs_as_bytes(authority);
    }
    ctx.accounts.set_allies(&authority, allies)
}

/// Sets the threshold. The allies, the nonce and the sequence number stay.
///
/// The call is refused with `InvalidOwner` unless the group's authority has
/// signed it. A signed call is refused with `InvalidThreshold` exactly where
/// the threshold asks for more allies than there are.
pub fn change_threshold(ctx: &mut Context<Auth>, threshold: u64) -> (result: Result<
    (),
    ErrorCode,
>)
    ensures
        result is Ok <==> old(ctx).authorized() && threshold <= old(ctx).group().allies.len(),
        result == Err::<(), ErrorCode>(ErrorCode::InvalidOwner) <==> !old(ctx).authorized(),
        result == Err::<(), ErrorCode>(ErrorCode::InvalidThreshold) <==> old(ctx).authorized()
            && threshold > old(ctx).group().allies.len(),
        result is Ok ==> final(ctx).follows(
            *old(ctx),
            old(ctx).group().with_threshold(threshold as nat),
        ),
        result is Ok ==> final(ctx).group().feasible(),
        result is Err ==> *final(ctx) == *old(ctx),
{
    let authority = ctx.accounts.social_recovery.authority(&ctx.program_id);
    proof {
        ctx.accounts.social_recovery_signer.lemma_signs_as_bytes(authority);
    }
    ctx.accounts.change_threshold(&authority, threshold)
}

/// Has the group's authority act: builds the instruction for `program_id`
/// from `accs` and `data`, with the seeds that sign it for the authority.
/// Among `accs`, exactly the accounts with the caller's address become
/// signers; every other account, the order and the bytes stay as given. The
/// seeds are those from which the running program derives the caller's own
/// address, so the instruction goes out signed by the group's authority. The
/// group itself is not changed.
///
/// The call is refused with `InvalidOwner` unless the caller is the identity
/// recorded in the group as its signer, has signed, and is the group's
/// authority.
pub fn execute_transaction(
    ctx: &Context<ExecuteTransaction>,
    program_id: Pubkey,
    accs: Vec<TransactionAccount>,
    data: Vec<u8>,
) -> (result: Result<SignedInstruction, ErrorCode>)
    ensures
        result is Ok <==> ctx.authorized(),
        result matches Ok(signed) ==> signed.instruction@ == ctx.accounts.forwarded(
            program_id,
            accs@,
            data@,
        ) && signed.signer_seeds.deep_view() == ctx.accounts.social_recovery.spec_seeds(),
        result matches Ok(signed) ==> program_address(
            signed.signer_seeds.deep_view(),
            ctx.program_id@,
        ) == Some(ctx.accounts.signer.key@),
        result matches Err(error) ==> error == ErrorCode::InvalidOwner,
{
    let authority = ctx.accounts.social_recovery.authority(&ctx.program_id);
    proof {
        ctx.accounts.signer.lemma_signs_as_bytes(authority);
    }
    ctx.accounts.forward(&authority, program_id, accs, data)
}

} // verus!
