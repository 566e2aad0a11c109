use vstd::prelude::*;
use crate::errors::{Error, SkillChainError};
use crate::pubkey::Pubkey;
use crate::state::{SkillRegistry, Validator};

verus! {

/// The accounts that onboarding a validator reads and writes.
#[derive(Clone, Copy, Debug)]
pub struct AddValidator {
    /// The record derived from `validator_address`; `None` until created.
    pub validator: Option<Validator>,
    pub validator_address: Pubkey,
    /// The signer, who must be the registry's authority.
    pub authority: Pubkey,
    pub registry: SkillRegistry,
    /// The bump of the address derived for the new record.
    pub validator_bump: u8,
}

/// The outcome of onboarding a validator on `ctx`.
pub open spec fn add_validator_result(ctx: AddValidator) -> Result<(), Error> {
    if ctx.registry.authority@ != ctx.authority@ {
        Err(Error::SkillChain(SkillChainError::Unauthorized))
    } else if ctx.validator is Some {
        Err(Error::AccountAlreadyInUse)
    } else if ctx.registry.total_validators + 1 > u32::MAX {
        Err(Error::SkillChain(SkillChainError::ArithmeticOverflow))
    } else {
        Ok(())
    }
}

/// `post` is `pre` with an active validator at `address` created and counted.
pub open spec fn validator_added(pre: AddValidator, post: AddValidator, address: Pubkey, now: i64) -> bool {
    &&& post.validator == Some(
        Validator {
            address: address,
            total_validations: 0,
            reputation: Validator::INITIAL_REPUTATION,
            is_active: true,
            joined_at: now,
            bump: pre.validator_bump,
        },
    )
    &&& post.registry == (SkillRegistry {
        total_validators: (pre.registry.total_validators + 1) as u32,
        ..pre.registry
    })
    &&& post.validator_address == pre.validator_address
    &&& post.authority == pre.authority
    &&& post.validator_bump == pre.validator_bump
}

/// Creates the record of an active validator at `validator_pubkey` and
/// counts it in the registry. Only the registry's authority may do so.
pub fn handler(ctx: &mut AddValidator, validator_pubkey: Pubkey, now: i64) -> (r: Result<(), Error>)
    ensures
        r == add_validator_result(*old(ctx)),
        r is Err ==> *final(ctx) == *old(ctx),
        r is Ok ==> validator_added(*old(ctx), *final(ctx), validator_pubkey, now),
        old(ctx).validator is Some ==> r is Err,
{
    if !(ctx.registry.authority == ctx.authority) {
        return Err(Error::SkillChain(SkillChainError::Unauthorized));
    }
    if ctx.validator.is_some() {
        return Err(Error::AccountAlreadyInUse);
    }
    let total_validators = match ctx.registry.total_validators.checked_add(1) {
        Some(v) => v,
        None => return Err(Error::SkillChain(SkillChainError::ArithmeticOverflow)),
    };
    ctx.validator = Some(
        Validator {
            address: validator_pubkey,
            total_validations: 0,
            reputation: Validator::INITIAL_REPUTATION,
            is_active: true,
            joined_at: now,
            bump: ctx.validator_bump,
        },
    );
    ctx.registry.total_validators = total_validators;
    Ok(())
}

} // verus!
