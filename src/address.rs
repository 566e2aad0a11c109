use vstd::prelude::*;
use vstd::slice::slice_to_vec;
use vstd::string::StringSliceAdditionalSpecFns;
use crate::pubkey::Pubkey;

verus! {

/// A record whose storage address is derived from a fixed tag and its key.
#[derive(Clone, Debug)]
pub enum Record {
    /// The singleton registry.
    Registry,
    /// The record of the validator at this address.
    Validator(Pubkey),
    /// The profile of this owner.
    UserProfile(Pubkey),
    /// The escrow of the test with this identifier, as bytes.
    Escrow(Vec<u8>),
    /// The reward token's mint.
    SkillTokenMint,
}

/// The seeds of each record: its tag, then its key if it has one.
pub open spec fn seeds_of(rec: Record) -> Seq<Seq<u8>> {
    match rec {
        Record::Registry => seq!["skill_registry".spec_bytes()],
        Record::Validator(k) => seq!["validator".spec_bytes(), k@],
        Record::UserProfile(k) => seq!["user_profile".spec_bytes(), k@],
        Record::Escrow(id) => seq!["escrow".spec_bytes(), id@],
        Record::SkillTokenMint => seq!["skill_token_mint".spec_bytes()],
    }
}

pub open spec fn seeds_view(seeds: Seq<Vec<u8>>) -> Seq<Seq<u8>> {
    seeds.map_values(|v: Vec<u8>| v@)
}

/// The address, and its bump, that a program derives from `seeds`; none
/// where no such address can be found.
pub uninterp spec fn program_address(seeds: Seq<Seq<u8>>, program_id: Seq<u8>) -> Option<(Seq<u8>, u8)>;

/// Relies on solana_program's `Pubkey::try_find_program_address`: the result
/// is determined by the seeds and the program id, and is `None` where there
/// are 16 seeds or more or a seed is longer than 32 bytes.
#[verifier::external_body]
fn find_program_address(seeds: &Vec<Vec<u8>>, program_id: &Pubkey) -> (r: Option<(Pubkey, u8)>)
    ensures
        r is Some <==> program_address(seeds_view(seeds@), program_id@) is Some,
        r is Some ==> r->Some_0.0@ == program_address(seeds_view(seeds@), program_id@)->Some_0.0
            && r->Some_0.1 == program_address(seeds_view(seeds@), program_id@)->Some_0.1,
        seeds@.len() >= 16 || (exists|i: int|
            0 <= i < seeds@.len() && (#[trigger] seeds@[i])@.len() > 32) ==> r is None,
{
    let s: Vec<&[u8]> = seeds.iter().map(|v| v.as_slice()).collect();
    let id = anchor_lang::prelude::Pubkey::new_from_array(program_id.bytes);
    match anchor_lang::prelude::Pubkey::try_find_program_address(&s, &id) {
        Some((k, bump)) => Some((Pubkey { bytes: k.to_bytes() }, bump)),
        None => None,
    }
}

fn tag(t: &str) -> (r: Vec<u8>)
    ensures
        r@ == t.spec_bytes(),
{
    slice_to_vec(t.as_bytes())
}

fn key_bytes(k: &Pubkey) -> (r: Vec<u8>)
    ensures
        r@ == k@,
{
    slice_to_vec(k.bytes.as_slice())
}

/// The seeds from which the address of `rec` is derived.
pub fn seeds(rec: &Record) -> (r: Vec<Vec<u8>>)
    ensures
        seeds_view(r@) == seeds_of(*rec),
{
    let mut r: Vec<Vec<u8>> = Vec::new();
    match rec {
        Record::Registry => {
            r.push(tag("skill_registry"));
        },
        Record::Validator(k) => {
            r.push(tag("validator"));
            r.push(key_bytes(k));
        },
        Record::UserProfile(k) => {
            r.push(tag("user_profile"));
            r.push(key_bytes(k));
        },
        Record::Escrow(id) => {
            r.push(tag("escrow"));
            r.push(id.clone());
        },
        Record::SkillTokenMint => {
            r.push(tag("skill_token_mint"));
        },
    }
    assert(seeds_view(r@) =~= seeds_of(*rec));
    r
}

/// The storage address of `rec` under `program_id`, with its bump: the
/// address that anyone can recompute from the record's tag and key.
pub fn derive_address(rec: &Record, program_id: &Pubkey) -> (r: Option<(Pubkey, u8)>)
    ensures
        r is Some <==> program_address(seeds_of(*rec), program_id@) is Some,
        r is Some ==> r->Some_0.0@ == program_address(seeds_of(*rec), program_id@)->Some_0.0
            && r->Some_0.1 == program_address(seeds_of(*rec), program_id@)->Some_0.1,
        rec is Escrow && rec->Escrow_0@.len() > 32 ==> r is None,
{
    let s = seeds(rec);
    proof {
        assert(rec is Escrow ==> s@.len() == 2 && s@[1]@ == rec->Escrow_0@) by {
            if let Record::Escrow(id) = rec {
                let tagged = seq!["escrow".spec_bytes(), id@];
                assert(seeds_view(s@) == tagged);
                assert(s@[1]@ == seeds_view(s@)[1]);
            }
        }
    }
    find_program_address(&s, program_id)
}

} // verus!
