use skillchain::errors::{Error, SkillChainError};
use skillchain::instructions::{
    AddValidator, CreateUserProfile, InitializeRegistry, InitializeSkillToken,
};
use skillchain::pubkey::Pubkey;
use skillchain::state::{SkillRegistry, UserProfile, Validator, SKILL_TOKEN_DECIMALS};
use skillchain::{add_validator, create_user_profile, initialize_registry, initialize_skill_token};

fn key(b: u8) -> Pubkey {
    Pubkey::new_from_array([b; 32])
}

fn new_registry(authority: Pubkey) -> SkillRegistry {
    let mut ctx = InitializeRegistry { registry: None, authority, registry_bump: 254 };
    initialize_registry(&mut ctx).unwrap();
    ctx.registry.unwrap()
}

fn onboarding(registry: SkillRegistry, signer: Pubkey, validator: Pubkey) -> AddValidator {
    AddValidator {
        validator: None,
        validator_address: validator,
        authority: signer,
        registry,
        validator_bump: 253,
    }
}

#[test]
fn initialize_registry_sets_authority_and_zero_counters() {
    let a = key(1);
    let mut ctx = InitializeRegistry { registry: None, authority: a, registry_bump: 7 };
    assert_eq!(initialize_registry(&mut ctx), Ok(()));
    let reg = ctx.registry.unwrap();
    assert!(reg.authority == a);
    assert!(reg.treasury == a);
    assert_eq!(reg.total_validators, 0);
    assert_eq!(reg.total_certificates, 0);
    assert_eq!(reg.total_users, 0);
    assert!(reg.skill_token_mint == Pubkey::default());
    assert_eq!(reg.skill_token_mint.bytes, [0u8; 32]);
    assert_eq!(reg.bump, 7);
}

#[test]
fn initialize_registry_twice_fails() {
    let mut ctx = InitializeRegistry { registry: None, authority: key(1), registry_bump: 7 };
    initialize_registry(&mut ctx).unwrap();
    ctx.authority = key(2);
    assert_eq!(initialize_registry(&mut ctx), Err(Error::AccountAlreadyInUse));
    assert!(ctx.registry.unwrap().authority == key(1));
}

#[test]
fn add_validator_by_authority_then_by_stranger() {
    let a = key(1);
    let v = key(2);
    let b = key(3);
    let mut ctx = onboarding(new_registry(a), a, v);
    assert_eq!(add_validator(&mut ctx, v, 1_700_000_000), Ok(()));
    assert_eq!(ctx.registry.total_validators, 1);
    let val = ctx.validator.unwrap();
    assert!(val.address == v);
    assert_eq!(val.reputation, 100);
    assert!(val.is_active);
    assert_eq!(val.total_validations, 0);
    assert_eq!(val.joined_at, 1_700_000_000);
    assert_eq!(val.bump, 253);

    ctx.authority = b;
    assert_eq!(
        add_validator(&mut ctx, v, 1_700_000_001),
        Err(Error::SkillChain(SkillChainError::Unauthorized))
    );
    assert_eq!(ctx.registry.total_validators, 1);
}

#[test]
fn add_validator_unauthorized_on_fresh_record() {
    let mut ctx = onboarding(new_registry(key(1)), key(3), key(2));
    assert_eq!(
        add_validator(&mut ctx, key(2), 0),
        Err(Error::SkillChain(SkillChainError::Unauthorized))
    );
    assert!(ctx.validator.is_none());
    assert_eq!(ctx.registry.total_validators, 0);
}

#[test]
fn add_validator_existing_record_changes_no_counter() {
    let a = key(1);
    let mut ctx = onboarding(new_registry(a), a, key(2));
    add_validator(&mut ctx, key(2), 5).unwrap();
    assert_eq!(add_validator(&mut ctx, key(2), 6), Err(Error::AccountAlreadyInUse));
    assert_eq!(ctx.registry.total_validators, 1);
    assert_eq!(ctx.registry.total_users, 0);
    assert_eq!(ctx.registry.total_certificates, 0);
    assert_eq!(ctx.validator.unwrap().joined_at, 5);
}

#[test]
fn add_validator_counter_overflow() {
    let a = key(1);
    let mut reg = new_registry(a);
    reg.total_validators = u32::MAX;
    let mut ctx = onboarding(reg, a, key(2));
    assert_eq!(
        add_validator(&mut ctx, key(2), 0),
        Err(Error::SkillChain(SkillChainError::ArithmeticOverflow))
    );
    assert!(ctx.validator.is_none());
    assert_eq!(ctx.registry.total_validators, u32::MAX);
}

#[test]
fn create_user_profile_counts_one_user() {
    let u = key(9);
    let mut ctx = CreateUserProfile {
        user_profile: None,
        user: u,
        registry: new_registry(key(1)),
        user_profile_bump: 250,
    };
    assert_eq!(create_user_profile(&mut ctx, 42), Ok(()));
    assert_eq!(ctx.registry.total_users, 1);
    assert_eq!(ctx.registry.total_validators, 0);
    assert_eq!(ctx.registry.total_certificates, 0);
    let p: UserProfile = ctx.user_profile.clone().unwrap();
    assert!(p.owner == u);
    assert_eq!(p.skill_score, 0);
    assert_eq!(p.total_certificates, 0);
    assert_eq!(p.total_tests, 0);
    assert_eq!(p.total_sol_earned, 0);
    assert_eq!(p.success_rate, 0);
    assert!(p.skills.is_empty());
    assert_eq!(p.created_at, 42);
    assert_eq!(p.bump, 250);

    assert_eq!(create_user_profile(&mut ctx, 43), Err(Error::AccountAlreadyInUse));
    assert_eq!(ctx.registry.total_users, 1);
    assert_eq!(ctx.user_profile.unwrap().created_at, 42);
}

#[test]
fn create_user_profile_counter_overflow() {
    let mut reg = new_registry(key(1));
    reg.total_users = u64::MAX;
    let mut ctx = CreateUserProfile { user_profile: None, user: key(9), registry: reg, user_profile_bump: 1 };
    assert_eq!(
        create_user_profile(&mut ctx, 0),
        Err(Error::SkillChain(SkillChainError::ArithmeticOverflow))
    );
    assert!(ctx.user_profile.is_none());
}

#[test]
fn initialize_skill_token_records_mint() {
    let a = key(1);
    let mint_key = key(5);
    let reg_key = key(6);
    let mut ctx = InitializeSkillToken {
        skill_token_mint: None,
        skill_token_mint_key: mint_key,
        registry: new_registry(a),
        registry_key: reg_key,
        authority: a,
    };
    assert_eq!(initialize_skill_token(&mut ctx), Ok(()));
    assert!(ctx.registry.skill_token_mint == mint_key);
    let m = ctx.skill_token_mint.unwrap();
    assert_eq!(m.decimals, SKILL_TOKEN_DECIMALS);
    assert_eq!(m.decimals, 9);
    assert!(m.mint_authority == Some(reg_key));
    assert_eq!(m.supply, 0);
    assert!(m.is_initialized);
    assert!(m.freeze_authority.is_none());
    assert_eq!(initialize_skill_token(&mut ctx), Err(Error::AccountAlreadyInUse));
}

#[test]
fn initialize_skill_token_by_stranger_fails() {
    let mut ctx = InitializeSkillToken {
        skill_token_mint: None,
        skill_token_mint_key: key(5),
        registry: new_registry(key(1)),
        registry_key: key(6),
        authority: key(2),
    };
    assert_eq!(
        initialize_skill_token(&mut ctx),
        Err(Error::SkillChain(SkillChainError::Unauthorized))
    );
    assert!(ctx.skill_token_mint.is_none());
    assert!(ctx.registry.skill_token_mint == Pubkey::default());
}

#[test]
fn pubkey_equality_looks_at_every_byte() {
    let mut b = [3u8; 32];
    let x = Pubkey::new_from_array(b);
    b[31] = 4;
    let y = Pubkey::new_from_array(b);
    assert!(x != y);
    assert!(x == Pubkey::new_from_array([3u8; 32]));
}

#[test]
fn error_codes_and_messages() {
    assert_eq!(SkillChainError::Unauthorized.code(), 6000);
    assert_eq!(SkillChainError::ValidatorNotActive.code(), 6002);
    assert_eq!(SkillChainError::ArithmeticOverflow.code(), 6008);
    assert_eq!(SkillChainError::InsufficientEscrowFunds.message(), "Insufficient escrow funds");
    assert_eq!(SkillChainError::InvalidSkillScore.message(), "Skill score out of range (0-100)");
}

#[test]
fn record_sizes() {
    assert_eq!(SkillRegistry::LEN, 125);
    assert_eq!(Validator::LEN, 62);
    assert_eq!(skillchain::state::SkillRecord::LEN, 142);
    assert_eq!(UserProfile::LEN, 8 + 32 + 4 + 4 + 4 + 8 + 1 + 4 + 142 * 50 + 8 + 1);
    assert_eq!(skillchain::state::EscrowAccount::LEN, 150);
}
