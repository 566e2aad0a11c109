//! An on-chain registry of validated professional skills: user profiles
//! accumulate a skill score and certificates issued by approved validators,
//! and escrowed payments are split between a DAO treasury, a project
//! treasury and a reward pool.
//!
//! Each instruction takes the accounts it reads and writes as one value,
//! checks them, and either applies its whole change or returns an error and
//! leaves every account as it was.
use vstd::prelude::*;

pub mod address;
pub mod errors;
pub mod instructions;
pub mod pubkey;
pub mod state;

use crate::errors::Error;
use crate::instructions::add_validator::{add_validator_result, validator_added};
use crate::instructions::create_user_profile::{create_user_profile_result, profile_created};
use crate::instructions::distribute_rewards::{distribute_rewards_result, paid_out};
use crate::instructions::initialize_registry::registry_created;
use crate::instructions::initialize_skill_token::{initialize_skill_token_result, skill_token_created};
use crate::instructions::mint_certificate::{certificate_issued, mint_certificate_result};
use crate::instructions::update_skill_score::{score_adjusted, update_skill_score_result};
use crate::instructions::{
    AddValidator, CreateUserProfile, DistributeRewards, InitializeRegistry, InitializeSkillToken,
    MintCertificate, UpdateSkillScore,
};
use crate::pubkey::Pubkey;

verus! {

/// Creates the singleton registry; see `instructions::initialize_registry`.
pub fn initialize_registry(ctx: &mut InitializeRegistry) -> (r: Result<(), Error>)
    ensures
        old(ctx).registry is Some <==> r == Err::<(), Error>(Error::AccountAlreadyInUse),
        r is Ok || r == Err::<(), Error>(Error::AccountAlreadyInUse),
        r is Err ==> *final(ctx) == *old(ctx),
        r is Ok ==> registry_created(*old(ctx), *final(ctx)),
{
    instructions::initialize_registry::handler(ctx)
}

/// Creates the signer's profile; see `instructions::create_user_profile`.
pub fn create_user_profile(ctx: &mut CreateUserProfile, now: i64) -> (r: Result<(), Error>)
    ensures
        r == create_user_profile_result(*old(ctx)),
        r is Err ==> *final(ctx) == *old(ctx),
        r is Ok ==> profile_created(*old(ctx), *final(ctx), now),
{
    instructions::create_user_profile::handler(ctx, now)
}

/// Onboards a validator; see `instructions::add_validator`.
pub fn add_validator(ctx: &mut AddValidator, validator: Pubkey, now: i64) -> (r: Result<(), Error>)
    ensures
        r == add_validator_result(*old(ctx)),
        r is Err ==> *final(ctx) == *old(ctx),
        r is Ok ==> validator_added(*old(ctx), *final(ctx), validator, now),
{
    instructions::add_validator::handler(ctx, validator, now)
}

/// Issues a certificate; see `instructions::mint_certificate`.
pub fn mint_certificate(
    ctx: &mut MintCertificate,
    skill_id: String,
    score: u8,
    validator_signature: [u8; 64],
    now: i64,
) -> (r: Result<(), Error>)
    ensures
        r == mint_certificate_result(*old(ctx), score as int),
        r is Err ==> *final(ctx) == *old(ctx),
        old(ctx).user_profile.wf() ==> final(ctx).user_profile.wf(),
        r is Ok ==> certificate_issued(*old(ctx), *final(ctx), skill_id, score, now),
{
    instructions::mint_certificate::handler(ctx, skill_id, score, validator_signature, now)
}

/// Adjusts a profile's skill score; see `instructions::update_skill_score`.
pub fn update_skill_score(ctx: &mut UpdateSkillScore, score_delta: i16) -> (r: Result<(), Error>)
    ensures
        r == update_skill_score_result(*old(ctx), score_delta as int),
        r is Err ==> *final(ctx) == *old(ctx),
        old(ctx).user_profile.wf() ==> final(ctx).user_profile.wf(),
        r is Ok ==> score_adjusted(*old(ctx), *final(ctx), score_delta as int),
{
    instructions::update_skill_score::handler(ctx, score_delta)
}

/// Pays out an escrow; see `instructions::distribute_rewards`.
pub fn distribute_rewards(ctx: &mut DistributeRewards, amount: u64) -> (r: Result<(), Error>)
    ensures
        r == distribute_rewards_result(*old(ctx)),
        r is Err ==> *final(ctx) == *old(ctx),
        r is Ok ==> paid_out(*old(ctx), *final(ctx)),
{
    instructions::distribute_rewards::handler(ctx, amount)
}

/// Creates the reward token; see `instructions::initialize_skill_token`.
pub fn initialize_skill_token(ctx: &mut InitializeSkillToken) -> (r: Result<(), Error>)
    ensures
        r == initialize_skill_token_result(*old(ctx)),
        r is Err ==> *final(ctx) == *old(ctx),
        r is Ok ==> skill_token_created(*old(ctx), *final(ctx)),
{
    instructions::initialize_skill_token::handler(ctx)
}

} // verus!
