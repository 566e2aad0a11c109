use vstd::prelude::*;
use crate::pubkey::Pubkey;

verus! {

/// The singleton record of the registry: its authority and its counters.
#[derive(Clone, Copy, Debug)]
pub struct SkillRegistry {
    pub authority: Pubkey,
    pub total_validators: u32,
    pub total_certificates: u64,
    pub total_users: u64,
    pub skill_token_mint: Pubkey,
    pub treasury: Pubkey,
    pub bump: u8,
}

impl SkillRegistry {
    /// Bytes of storage that the record takes, discriminator included.
    pub const LEN: usize = 8 + 32 + 4 + 8 + 8 + 32 + 32 + 1;
}

/// A user's profile: the cumulative score and the certificates earned.
#[derive(Clone, Debug)]
pub struct UserProfile {
    pub owner: Pubkey,
    pub skill_score: u32,
    pub total_tests: u32,
    pub total_certificates: u32,
    pub total_sol_earned: u64,
    pub success_rate: u8,
    pub skills: Vec<SkillRecord>,
    pub created_at: i64,
    pub bump: u8,
}

impl UserProfile {
    /// The most certificates a profile can hold.
    pub const MAX_SKILLS: usize = 50;

    /// Bytes of storage that the record takes, discriminator included.
    pub const LEN: usize = 8 + 32 + 4 + 4 + 4 + 8 + 1 + 4 + (SkillRecord::LEN * UserProfile::MAX_SKILLS) + 8 + 1;

    /// The skill list is within capacity and each record is consistent.
    pub open spec fn wf(&self) -> bool {
        &&& self.skills@.len() <= UserProfile::MAX_SKILLS
        &&& forall|i: int| 0 <= i < self.skills@.len() ==> #[trigger] self.skills@[i].wf()
    }
}

/// One certificate entry of a profile.
#[derive(Clone, Debug)]
pub struct SkillRecord {
    pub skill_id: String,
    pub level: SkillLevel,
    pub score: u8,
    pub nft_mint: Pubkey,
    pub earned_at: i64,
    pub validator: Pubkey,
}

impl SkillRecord {
    /// Bytes of storage that the record takes inside a profile.
    pub const LEN: usize = 4 + 64 + 1 + 1 + 32 + 8 + 32;

    /// The score is in range and the level is the one it determines.
    pub open spec fn wf(&self) -> bool {
        &&& self.score <= MAX_SCORE
        &&& self.level == level_of(self.score as int)
    }
}

#[derive(Clone, Copy, Debug, PartialEq, Eq, Structural)]
pub enum SkillLevel {
    Junior,
    Middle,
    Senior,
}

/// The highest score a certificate can carry.
pub const MAX_SCORE: u8 = 100;

/// The lowest score that earns the level `Senior`.
pub const SENIOR_THRESHOLD: u8 = 90;

/// The lowest score that earns the level `Middle`.
pub const MIDDLE_THRESHOLD: u8 = 80;

/// The level that a score earns.
pub open spec fn level_of(score: int) -> SkillLevel {
    if score >= SENIOR_THRESHOLD {
        SkillLevel::Senior
    } else if score >= MIDDLE_THRESHOLD {
        SkillLevel::Middle
    } else {
        SkillLevel::Junior
    }
}

/// Derives the level of a score.
pub fn skill_level(score: u8) -> (r: SkillLevel)
    ensures
        r == level_of(score as int),
        r == SkillLevel::Senior <==> score >= 90,
        r == SkillLevel::Middle <==> 80 <= score < 90,
        r == SkillLevel::Junior <==> score < 80,
{
    if score >= SENIOR_THRESHOLD {
        SkillLevel::Senior
    } else if score >= MIDDLE_THRESHOLD {
        SkillLevel::Middle
    } else {
        SkillLevel::Junior
    }
}

/// An approved party whose assertions about skills are accepted while active.
#[derive(Clone, Copy, Debug)]
pub struct Validator {
    pub address: Pubkey,
    pub total_validations: u64,
    pub reputation: u32,
    pub is_active: bool,
    pub joined_at: i64,
    pub bump: u8,
}

impl Validator {
    /// Bytes of storage that the record takes, discriminator included.
    pub const LEN: usize = 8 + 32 + 8 + 4 + 1 + 8 + 1;

    /// The reputation a validator starts with.
    pub const INITIAL_REPUTATION: u32 = 100;
}

/// A payment held for one test, and how it is to be split.
#[derive(Clone, Debug)]
pub struct EscrowAccount {
    pub test_id: String,
    pub user: Pubkey,
    pub amount: u64,
    pub dao_share: u64,
    pub project_share: u64,
    pub reward_pool_share: u64,
    pub is_distributed: bool,
    pub created_at: i64,
    pub bump: u8,
}

impl EscrowAccount {
    /// Bytes of storage that the record takes, discriminator included.
    pub const LEN: usize = 8 + 4 + 64 + 32 + 8 + 8 + 8 + 8 + 1 + 8 + 1;

    /// The sum of the three shares.
    pub open spec fn total_shares(&self) -> int {
        self.dao_share + self.project_share + self.reward_pool_share
    }
}

/// A plain account that holds only lamports.
#[derive(Clone, Copy, Debug)]
pub struct SystemAccount {
    pub key: Pubkey,
    pub lamports: u64,
}

/// The number of decimals of the reward token.
pub const SKILL_TOKEN_DECIMALS: u8 = 9;

/// A fungible token mint.
#[derive(Clone, Copy, Debug)]
pub struct Mint {
    pub mint_authority: Option<Pubkey>,
    pub supply: u64,
    pub decimals: u8,
    pub is_initialized: bool,
    pub freeze_authority: Option<Pubkey>,
}

} // verus!
