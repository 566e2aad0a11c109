use vstd::prelude::*;
use crate::errors::{Error, SkillChainError};
use crate::pubkey::Pubkey;
use crate::state::{Mint, SkillRegistry, SKILL_TOKEN_DECIMALS};

verus! {

/// The accounts that creating the reward token reads and writes.
#[derive(Clone, Copy, Debug)]
pub struct InitializeSkillToken {
    /// The reward token's mint; `None` until created.
    pub skill_token_mint: Option<Mint>,
    /// The derived address of the mint.
    pub skill_token_mint_key: Pubkey,
    pub registry: SkillRegistry,
    /// The address of the registry, which becomes the mint's authority.
    pub registry_key: Pubkey,
    /// The signer, who must be the registry's authority.
    pub authority: Pubkey,
}

/// The outcome of creating the reward token on `ctx`.
pub open spec fn initialize_skill_token_result(ctx: InitializeSkillToken) -> Result<(), Error> {
    if ctx.registry.authority@ != ctx.authority@ {
        Err(Error::SkillChain(SkillChainError::Unauthorized))
    } else if ctx.skill_token_mint is Some {
        Err(Error::AccountAlreadyInUse)
    } else {
        Ok(())
    }
}

/// `post` is `pre` with the reward token's mint created under the
/// registry's authority and its address recorded in the registry.
pub open spec fn skill_token_created(pre: InitializeSkillToken, post: InitializeSkillToken) -> bool {
    &&& post.skill_token_mint == Some(
        Mint {
            mint_authority: Some(pre.registry_key),
            supply: 0,
            decimals: SKILL_TOKEN_DECIMALS,
            is_initialized: true,
            freeze_authority: None,
        },
    )
    &&& post.registry == (SkillRegistry { skill_token_mint: pre.skill_token_mint_key, ..pre.registry })
    &&& post.skill_token_mint_key == pre.skill_token_mint_key
    &&& post.registry_key == pre.registry_key
    &&& post.authority == pre.authority
}

/// Creates the reward token's mint under the registry's authority and
/// records its address in the registry.
pub fn handler(ctx: &mut InitializeSkillToken) -> (r: Result<(), Error>)
    ensures
        r == initialize_skill_token_result(*old(ctx)),
        r is Err ==> *final(ctx) == *old(ctx),
        r is Ok ==> skill_token_created(*old(ctx), *final(ctx)),
{
    if !(ctx.registry.authority == ctx.authority) {
        return Err(Error::SkillChain(SkillChainError::Unauthorized));
    }
    if ctx.skill_token_mint.is_some() {
        return Err(Error::AccountAlreadyInUse);
    }
    ctx.skill_token_mint = Some(
        Mint {
            mint_authority: Some(ctx.registry_key),
            supply: 0,
            decimals: SKILL_TOKEN_DECIMALS,
            is_initialized: true,
            freeze_authority: None,
        },
    );
    ctx.registry.skill_token_mint = ctx.skill_token_mint_key;
    Ok(())
}

} // verus!
