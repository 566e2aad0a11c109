use vstd::prelude::*;
use crate::errors::{Error, SkillChainError};
use crate::pubkey::Pubkey;
use crate::state::{SkillRegistry, UserProfile};

verus! {

/// The accounts that creating a profile reads and writes.
#[derive(Clone, Debug)]
pub struct CreateUserProfile {
    /// The profile derived from `user`; `None` until created.
    pub user_profile: Option<UserProfile>,
    /// The signer, who owns the new profile.
    pub user: Pubkey,
    pub registry: SkillRegistry,
    /// The bump of the address derived for the new profile.
    pub user_profile_bump: u8,
}

/// The outcome of creating a profile on `ctx`.
pub open spec fn create_user_profile_result(ctx: CreateUserProfile) -> Result<(), Error> {
    if ctx.user_profile is Some {
        Err(Error::AccountAlreadyInUse)
    } else if ctx.registry.total_users + 1 > u64::MAX {
        Err(Error::SkillChain(SkillChainError::ArithmeticOverflow))
    } else {
        Ok(())
    }
}

/// `p` is a fresh profile of `owner`: no score, no certificates.
pub open spec fn is_fresh_profile(p: UserProfile, owner: Pubkey, created_at: i64, bump: u8) -> bool {
    &&& p.owner == owner
    &&& p.skill_score == 0
    &&& p.total_tests == 0
    &&& p.total_certificates == 0
    &&& p.total_sol_earned == 0
    &&& p.success_rate == 0
    &&& p.skills@.len() == 0
    &&& p.created_at == created_at
    &&& p.bump == bump
}

/// `post` is `pre` with a fresh profile of the signer created and counted.
pub open spec fn profile_created(pre: CreateUserProfile, post: CreateUserProfile, now: i64) -> bool {
    &&& post.user_profile is Some
    &&& is_fresh_profile(post.user_profile->Some_0, pre.user, now, pre.user_profile_bump)
    &&& post.user_profile->Some_0.wf()
    &&& post.registry == (SkillRegistry { total_users: (pre.registry.total_users + 1) as u64, ..pre.registry })
    &&& post.user == pre.user
    &&& post.user_profile_bump == pre.user_profile_bump
}

/// Creates an empty profile for the signer and counts it in the registry.
pub fn handler(ctx: &mut CreateUserProfile, now: i64) -> (r: Result<(), Error>)
    ensures
        r == create_user_profile_result(*old(ctx)),
        r is Err ==> *final(ctx) == *old(ctx),
        r is Ok ==> profile_created(*old(ctx), *final(ctx), now),
        old(ctx).user_profile is Some ==> r is Err,
{
    if ctx.user_profile.is_some() {
        return Err(Error::AccountAlreadyInUse);
    }
    let total_users = match ctx.registry.total_users.checked_add(1) {
        Some(v) => v,
        None => return Err(Error::SkillChain(SkillChainError::ArithmeticOverflow)),
    };
    ctx.user_profile = Some(
        UserProfile {
            owner: ctx.user,
            skill_score: 0,
            total_tests: 0,
            total_certificates: 0,
            total_sol_earned: 0,
            success_rate: 0,
            skills: Vec::new(),
            created_at: now,
            bump: ctx.user_profile_bump,
        },
    );
    ctx.registry.total_users = total_users;
    Ok(())
}

} // verus!
