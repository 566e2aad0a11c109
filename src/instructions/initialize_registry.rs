use vstd::prelude::*;
use crate::errors::Error;
use crate::pubkey::{zero_key, Pubkey};
use crate::state::SkillRegistry;

verus! {

/// The accounts that creating the registry reads and writes.
#[derive(Clone, Copy, Debug)]
pub struct InitializeRegistry {
    /// The singleton registry; `None` until created.
    pub registry: Option<SkillRegistry>,
    /// The signer, who becomes the registry's authority.
    pub authority: Pubkey,
    /// The bump of the registry's derived address.
    pub registry_bump: u8,
}

/// `post` is `pre` with the registry created: the signer as authority and
/// treasury, all counters at zero, no token mint yet.
pub open spec fn registry_created(pre: InitializeRegistry, post: InitializeRegistry) -> bool {
    &&& post.registry is Some
    &&& post.authority == pre.authority
    &&& post.registry_bump == pre.registry_bump
    &&& post.registry->Some_0.authority == pre.authority
    &&& post.registry->Some_0.total_validators == 0
    &&& post.registry->Some_0.total_certificates == 0
    &&& post.registry->Some_0.total_users == 0
    &&& post.registry->Some_0.skill_token_mint@ == zero_key()
    &&& post.registry->Some_0.treasury == pre.authority
    &&& post.registry->Some_0.bump == pre.registry_bump
}

/// Creates the registry with the signer as authority and treasury, all
/// counters at zero and no token mint yet.
pub fn handler(ctx: &mut InitializeRegistry) -> (r: Result<(), Error>)
    ensures
        old(ctx).registry is Some <==> r == Err::<(), Error>(Error::AccountAlreadyInUse),
        r is Ok || r == Err::<(), Error>(Error::AccountAlreadyInUse),
        r is Err ==> *final(ctx) == *old(ctx),
        r is Ok ==> registry_created(*old(ctx), *final(ctx)),
{
    if ctx.registry.is_some() {
        return Err(Error::AccountAlreadyInUse);
    }
    ctx.registry = Some(
        SkillRegistry {
            authority: ctx.authority,
            total_validators: 0,
            total_certificates: 0,
            total_users: 0,
            skill_token_mint: Pubkey::default(),
            treasury: ctx.authority,
            bump: ctx.registry_bump,
        },
    );
    Ok(())
}

} // verus!
