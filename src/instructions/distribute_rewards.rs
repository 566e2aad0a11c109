use vstd::prelude::*;
use crate::errors::{Error, SkillChainError};
use crate::pubkey::Pubkey;
use crate::state::{EscrowAccount, SkillRegistry, SystemAccount};

verus! {

/// The accounts that paying out an escrow reads and writes.
#[derive(Clone, Debug)]
pub struct DistributeRewards {
    pub escrow: EscrowAccount,
    /// The lamports that the escrow account holds.
    pub escrow_lamports: u64,
    pub dao_treasury: SystemAccount,
    pub project_treasury: SystemAccount,
    pub reward_pool: SystemAccount,
    pub authority: Pubkey,
    pub registry: SkillRegistry,
}

/// The outcome of paying out the escrow of `ctx`.
pub open spec fn distribute_rewards_result(ctx: DistributeRewards) -> Result<(), Error> {
    if ctx.escrow.is_distributed {
        Err(Error::SkillChain(SkillChainError::EscrowAlreadyDistributed))
    } else if ctx.escrow.total_shares() > ctx.escrow.amount
        || ctx.escrow.total_shares() > ctx.escrow_lamports {
        Err(Error::SkillChain(SkillChainError::InsufficientEscrowFunds))
    } else if ctx.dao_treasury.lamports + ctx.escrow.dao_share > u64::MAX
        || ctx.project_treasury.lamports + ctx.escrow.project_share > u64::MAX
        || ctx.reward_pool.lamports + ctx.escrow.reward_pool_share > u64::MAX {
        Err(Error::SkillChain(SkillChainError::ArithmeticOverflow))
    } else {
        Ok(())
    }
}

/// `post` is `pre` after a payout: each recipient credited with its share,
/// the escrow debited by their sum and marked as distributed.
pub open spec fn paid_out(pre: DistributeRewards, post: DistributeRewards) -> bool {
    &&& post.escrow == (EscrowAccount { is_distributed: true, ..pre.escrow })
    &&& post.escrow_lamports == pre.escrow_lamports - pre.escrow.total_shares()
    &&& post.dao_treasury == (SystemAccount {
        lamports: (pre.dao_treasury.lamports + pre.escrow.dao_share) as u64,
        ..pre.dao_treasury
    })
    &&& post.project_treasury == (SystemAccount {
        lamports: (pre.project_treasury.lamports + pre.escrow.project_share) as u64,
        ..pre.project_treasury
    })
    &&& post.reward_pool == (SystemAccount {
        lamports: (pre.reward_pool.lamports + pre.escrow.reward_pool_share) as u64,
        ..pre.reward_pool
    })
    &&& post.authority == pre.authority
    &&& post.registry == pre.registry
}

/// Moves the three recorded shares out of the escrow to their recipients,
/// all together or not at all. The escrow pays out once.
pub fn handler(ctx: &mut DistributeRewards, _amount: u64) -> (r: Result<(), Error>)
    ensures
        r == distribute_rewards_result(*old(ctx)),
        r is Err ==> *final(ctx) == *old(ctx),
        r is Ok ==> paid_out(*old(ctx), *final(ctx)),
        old(ctx).escrow.total_shares() > old(ctx).escrow.amount ==> r is Err,
{
    if ctx.escrow.is_distributed {
        return Err(Error::SkillChain(SkillChainError::EscrowAlreadyDistributed));
    }
    let insufficient = Err(Error::SkillChain(SkillChainError::InsufficientEscrowFunds));
    let partial = match ctx.escrow.dao_share.checked_add(ctx.escrow.project_share) {
        Some(v) => v,
        None => return insufficient,
    };
    let total = match partial.checked_add(ctx.escrow.reward_pool_share) {
        Some(v) => v,
        None => return insufficient,
    };
    if total > ctx.escrow.amount || total > ctx.escrow_lamports {
        return insufficient;
    }
    let overflow = Err(Error::SkillChain(SkillChainError::ArithmeticOverflow));
    let dao = match ctx.dao_treasury.lamports.checked_add(ctx.escrow.dao_share) {
        Some(v) => v,
        None => return overflow,
    };
    let project = match ctx.project_treasury.lamports.checked_add(ctx.escrow.project_share) {
        Some(v) => v,
        None => return overflow,
    };
    let pool = match ctx.reward_pool.lamports.checked_add(ctx.escrow.reward_pool_share) {
        Some(v) => v,
        None => return overflow,
    };
    ctx.dao_treasury.lamports = dao;
    ctx.project_treasury.lamports = project;
    ctx.reward_pool.lamports = pool;
    ctx.escrow_lamports = ctx.escrow_lamports - total;
    ctx.escrow.is_distributed = true;
    Ok(())
}

/// After a payout that succeeded, paying out the same escrow again fails
/// with `EscrowAlreadyDistributed`.
pub proof fn lemma_pays_out_once(pre: DistributeRewards, post: DistributeRewards)
    requires
        distribute_rewards_result(pre) is Ok,
        paid_out(pre, post),
    ensures
        post.escrow.is_distributed,
        distribute_rewards_result(post) == Err::<(), Error>(
            Error::SkillChain(SkillChainError::EscrowAlreadyDistributed),
        ),
{
}

} // verus!
