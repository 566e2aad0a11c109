use anchor_lang::prelude::Pubkey as SolanaPubkey;
use skillchain::address::{derive_address, seeds, Record};
use skillchain::pubkey::Pubkey;

fn program_id() -> Pubkey {
    Pubkey::new_from_array([42u8; 32])
}

fn expected(seeds: &[&[u8]]) -> (Pubkey, u8) {
    let (k, bump) = SolanaPubkey::find_program_address(seeds, &SolanaPubkey::new_from_array([42u8; 32]));
    (Pubkey::new_from_array(k.to_bytes()), bump)
}

#[test]
fn seeds_are_tag_then_key() {
    let k = Pubkey::new_from_array([7u8; 32]);
    assert_eq!(seeds(&Record::Registry), vec![b"skill_registry".to_vec()]);
    assert_eq!(seeds(&Record::Validator(k)), vec![b"validator".to_vec(), vec![7u8; 32]]);
    assert_eq!(seeds(&Record::UserProfile(k)), vec![b"user_profile".to_vec(), vec![7u8; 32]]);
    assert_eq!(seeds(&Record::Escrow(b"test-1".to_vec())), vec![b"escrow".to_vec(), b"test-1".to_vec()]);
    assert_eq!(seeds(&Record::SkillTokenMint), vec![b"skill_token_mint".to_vec()]);
}

#[test]
fn registry_address_matches_host_derivation() {
    let (k, bump) = derive_address(&Record::Registry, &program_id()).unwrap();
    let (ek, ebump) = expected(&[b"skill_registry"]);
    assert!(k == ek);
    assert_eq!(bump, ebump);
    assert!(k != program_id());
}

#[test]
fn profile_addresses_differ_by_owner() {
    let a = Pubkey::new_from_array([1u8; 32]);
    let b = Pubkey::new_from_array([2u8; 32]);
    let (ka, _) = derive_address(&Record::UserProfile(a), &program_id()).unwrap();
    let (kb, _) = derive_address(&Record::UserProfile(b), &program_id()).unwrap();
    assert!(ka != kb);
    let (ea, _) = expected(&[b"user_profile", &[1u8; 32]]);
    assert!(ka == ea);
    let (kv, _) = derive_address(&Record::Validator(a), &program_id()).unwrap();
    assert!(kv != ka);
}

#[test]
fn escrow_id_too_long_has_no_address() {
    assert!(derive_address(&Record::Escrow(vec![b'x'; 33]), &program_id()).is_none());
    let (k, _) = derive_address(&Record::Escrow(vec![b'x'; 32]), &program_id()).unwrap();
    let (e, _) = expected(&[b"escrow", &[b'x'; 32]]);
    assert!(k == e);
}
