use vstd::prelude::*;

pub mod add_validator;
pub mod create_user_profile;
pub mod distribute_rewards;
pub mod initialize_registry;
pub mod initialize_skill_token;
pub mod mint_certificate;
pub mod update_skill_score;

pub use add_validator::AddValidator;
pub use create_user_profile::CreateUserProfile;
pub use distribute_rewards::DistributeRewards;
pub use initialize_registry::InitializeRegistry;
pub use initialize_skill_token::InitializeSkillToken;
pub use mint_certificate::MintCertificate;
pub use update_skill_score::UpdateSkillScore;

verus! {

} // verus!
