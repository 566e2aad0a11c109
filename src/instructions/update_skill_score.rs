use vstd::prelude::*;
use crate::errors::{Error, SkillChainError};
use crate::pubkey::Pubkey;
use crate::state::{UserProfile, Validator};

verus! {

/// The accounts that adjusting a skill score reads and writes.
#[derive(Clone, Debug)]
pub struct UpdateSkillScore {
    /// The profile derived from `user`, whose score changes.
    pub user_profile: UserProfile,
    pub user: Pubkey,
    /// The validator that vouches for the change.
    pub validator: Validator,
}

/// The score after adding `delta` to `score`: a negative delta floors at zero.
pub open spec fn adjusted_score(score: int, delta: int) -> int {
    if score + delta < 0 {
        0
    } else {
        score + delta
    }
}

/// The outcome of adding `delta` to the score of the profile in `ctx`.
pub open spec fn update_skill_score_result(ctx: UpdateSkillScore, delta: int) -> Result<(), Error> {
    if ctx.user_profile.owner@ != ctx.user@ {
        Err(Error::ConstraintSeeds)
    } else if !ctx.validator.is_active {
        Err(Error::SkillChain(SkillChainError::ValidatorNotActive))
    } else if delta >= 0 && ctx.user_profile.skill_score + delta > u32::MAX {
        Err(Error::SkillChain(SkillChainError::ArithmeticOverflow))
    } else {
        Ok(())
    }
}

/// `post` is `pre` with the profile's skill score adjusted by `delta`.
pub open spec fn score_adjusted(pre: UpdateSkillScore, post: UpdateSkillScore, delta: int) -> bool {
    &&& post.user_profile == (UserProfile {
        skill_score: adjusted_score(pre.user_profile.skill_score as int, delta) as u32,
        ..pre.user_profile
    })
    &&& post.user == pre.user
    &&& post.validator == pre.validator
}

/// Adds `score_delta` to the profile's skill score. A raise that does not
/// fit is refused; a cut below zero leaves the score at zero.
pub fn handler(ctx: &mut UpdateSkillScore, score_delta: i16) -> (r: Result<(), Error>)
    ensures
        r == update_skill_score_result(*old(ctx), score_delta as int),
        r is Err ==> *final(ctx) == *old(ctx),
        r is Ok ==> score_adjusted(*old(ctx), *final(ctx), score_delta as int),
        old(ctx).user_profile.wf() ==> final(ctx).user_profile.wf(),
        r is Ok && score_delta >= 0 ==> final(ctx).user_profile.skill_score
            == old(ctx).user_profile.skill_score + score_delta,
        score_delta < 0 && old(ctx).user_profile.owner@ == old(ctx).user@ && old(ctx).validator.is_active
            ==> r is Ok && final(ctx).user_profile.skill_score == (if old(ctx).user_profile.skill_score
            + score_delta < 0 {
            0
        } else {
            old(ctx).user_profile.skill_score + score_delta
        }),
{
    if !(ctx.user_profile.owner == ctx.user) {
        return Err(Error::ConstraintSeeds);
    }
    if !ctx.validator.is_active {
        return Err(Error::SkillChain(SkillChainError::ValidatorNotActive));
    }
    let new_score: u32 = if score_delta >= 0 {
        match ctx.user_profile.skill_score.checked_add(score_delta as u32) {
            Some(v) => v,
            None => return Err(Error::SkillChain(SkillChainError::ArithmeticOverflow)),
        }
    } else {
        let magnitude: u32 = (-(score_delta as i32)) as u32;
        ctx.user_profile.skill_score.saturating_sub(magnitude)
    };
    ctx.user_profile.skill_score = new_score;
    Ok(())
}

} // verus!
