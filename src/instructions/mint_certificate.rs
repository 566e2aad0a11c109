use vstd::prelude::*;
use crate::errors::{Error, SkillChainError};
use crate::pubkey::Pubkey;
use crate::state::{level_of, skill_level, SkillRecord, SkillRegistry, UserProfile, Validator, MAX_SCORE};

verus! {

/// The accounts that issuing a certificate reads and writes.
#[derive(Clone, Debug)]
pub struct MintCertificate {
    /// The profile derived from `user`, which receives the certificate.
    pub user_profile: UserProfile,
    pub user: Pubkey,
    /// The validator that vouches for the certificate.
    pub validator: Validator,
    pub registry: SkillRegistry,
    /// The address that stands for the certificate itself.
    pub nft_mint: Pubkey,
}

/// The points that a certificate of `score` adds to a profile's skill score.
pub open spec fn score_increase(score: int) -> int {
    score * 10
}

/// The outcome of issuing a certificate of `score` on `ctx`, checks in order.
pub open spec fn mint_certificate_result(ctx: MintCertificate, score: int) -> Result<(), Error> {
    if ctx.user_profile.owner@ != ctx.user@ {
        Err(Error::ConstraintSeeds)
    } else if !ctx.validator.is_active {
        Err(Error::SkillChain(SkillChainError::ValidatorNotActive))
    } else if score > MAX_SCORE {
        Err(Error::SkillChain(SkillChainError::InvalidSkillScore))
    } else if ctx.user_profile.skills@.len() >= UserProfile::MAX_SKILLS {
        Err(Error::SkillChain(SkillChainError::MaxSkillsReached))
    } else if ctx.user_profile.total_certificates + 1 > u32::MAX
        || ctx.user_profile.skill_score + score_increase(score) > u32::MAX
        || ctx.registry.total_certificates + 1 > u64::MAX {
        Err(Error::SkillChain(SkillChainError::ArithmeticOverflow))
    } else {
        Ok(())
    }
}

/// `post` is `pre` with a certificate for `skill_id` of `score` appended to
/// the profile, the profile's score raised, and both certificate counters
/// counted up.
pub open spec fn certificate_issued(
    pre: MintCertificate,
    post: MintCertificate,
    skill_id: String,
    score: u8,
    now: i64,
) -> bool {
    &&& post.user_profile.skills@ == pre.user_profile.skills@.push(
        (SkillRecord {
            skill_id: skill_id,
            level: level_of(score as int),
            score: score,
            nft_mint: pre.nft_mint,
            earned_at: now,
            validator: pre.validator.address,
        }),
    )
    &&& post.user_profile == (UserProfile {
        skill_score: (pre.user_profile.skill_score + score_increase(score as int)) as u32,
        total_certificates: (pre.user_profile.total_certificates + 1) as u32,
        skills: post.user_profile.skills,
        ..pre.user_profile
    })
    &&& post.registry == (SkillRegistry {
        total_certificates: (pre.registry.total_certificates + 1) as u64,
        ..pre.registry
    })
    &&& post.user == pre.user
    &&& post.validator == pre.validator
    &&& post.nft_mint == pre.nft_mint
}

/// Issues a certificate for `skill_id` with `score` to the profile of
/// `ctx.user`. The signature is carried as the validator's token of
/// assertion; it is not checked here.
pub fn handler(
    ctx: &mut MintCertificate,
    skill_id: String,
    score: u8,
    _validator_signature: [u8; 64],
    now: i64,
) -> (r: Result<(), Error>)
    ensures
        r == mint_certificate_result(*old(ctx), score as int),
        r is Err ==> *final(ctx) == *old(ctx),
        score > MAX_SCORE ==> r is Err,
        old(ctx).user_profile.skills@.len() == UserProfile::MAX_SKILLS ==> r is Err,
        old(ctx).user_profile.wf() ==> final(ctx).user_profile.wf(),
        r is Ok ==> certificate_issued(*old(ctx), *final(ctx), skill_id, score, now),
{
    if !(ctx.user_profile.owner == ctx.user) {
        return Err(Error::ConstraintSeeds);
    }
    if !ctx.validator.is_active {
        return Err(Error::SkillChain(SkillChainError::ValidatorNotActive));
    }
    if score > MAX_SCORE {
        return Err(Error::SkillChain(SkillChainError::InvalidSkillScore));
    }
    if ctx.user_profile.skills.len() >= UserProfile::MAX_SKILLS {
        return Err(Error::SkillChain(SkillChainError::MaxSkillsReached));
    }
    let level = skill_level(score);
    let increase: u32 = score as u32 * 10;
    let total_certificates = match ctx.user_profile.total_certificates.checked_add(1) {
        Some(v) => v,
        None => return Err(Error::SkillChain(SkillChainError::ArithmeticOverflow)),
    };
    let skill_score = match ctx.user_profile.skill_score.checked_add(increase) {
        Some(v) => v,
        None => return Err(Error::SkillChain(SkillChainError::ArithmeticOverflow)),
    };
    let registry_certificates = match ctx.registry.total_certificates.checked_add(1) {
        Some(v) => v,
        None => return Err(Error::SkillChain(SkillChainError::ArithmeticOverflow)),
    };
    let record = SkillRecord {
        skill_id,
        level,
        score,
        nft_mint: ctx.nft_mint,
        earned_at: now,
        validator: ctx.validator.address,
    };
    ctx.user_profile.skills.push(record);
    ctx.user_profile.total_certificates = total_certificates;
    ctx.user_profile.skill_score = skill_score;
    ctx.registry.total_certificates = registry_certificates;
    assert(ctx.user_profile.skills@.last().wf());
    Ok(())
}

} // verus!
