use vstd::prelude::*;

verus! {

use crate::error::CoreError;
use crate::keys::PublicKey;

/// The sha-256 digest (32 bytes) of a byte sequence.
pub uninterp spec fn sha256_of(bytes: Seq<u8>) -> Seq<u8>;

/// Whether 32 bytes are a valid compressed point of the signature scheme's
/// curve (so a private key for them could exist).
pub uninterp spec fn on_curve(bytes: Seq<u8>) -> bool;

/// All the seed byte-strings, concatenated in order.
pub open spec fn concat_seeds(seeds: Seq<Seq<u8>>) -> Seq<u8>
    decreases seeds.len(),
{
    if seeds.len() == 0 {
        Seq::empty()
    } else {
        seeds[0] + concat_seeds(seeds.drop_first())
    }
}

/// The fixed ASCII marker "ProgramDerivedAddress" that separates this
/// derivation from ordinary key hashing.
pub open spec fn domain_tag() -> Seq<u8> {
    seq![
        0x50u8,
        0x72u8,
        0x6fu8,
        0x67u8,
        0x72u8,
        0x61u8,
        0x6du8,
        0x44u8,
        0x65u8,
        0x72u8,
        0x69u8,
        0x76u8,
        0x65u8,
        0x64u8,
        0x41u8,
        0x64u8,
        0x64u8,
        0x72u8,
        0x65u8,
        0x73u8,
        0x73u8,
    ]
}

/// What is hashed for one derivation candidate: the seeds, the bump byte as one
/// extra seed, the owning program id, and the domain tag.
pub open spec fn pda_preimage(seeds: Seq<Seq<u8>>, program: Seq<u8>, bump: u8) -> Seq<u8> {
    concat_seeds(seeds.push(seq![bump])) + program + domain_tag()
}

/// The candidate address for one bump value.
pub open spec fn pda_digest(seeds: Seq<Seq<u8>>, program: Seq<u8>, bump: u8) -> Seq<u8> {
    sha256_of(pda_preimage(seeds, program, bump))
}

/// The (address, bump) pair the derivation returns when started at `bump_from`
/// and scanning downward: the first bump whose candidate digest is off the
/// curve, or None when every bump down to 0 yields an on-curve point.
pub open spec fn derive_spec(seeds: Seq<Seq<u8>>, program: Seq<u8>, bump_from: int) -> Option<
    (Seq<u8>, u8),
>
    decreases bump_from + 1,
{
    if bump_from < 0 {
        None
    } else if !on_curve(pda_digest(seeds, program, bump_from as u8)) {
        Some((pda_digest(seeds, program, bump_from as u8), bump_from as u8))
    } else {
        derive_spec(seeds, program, bump_from - 1)
    }
}

/// Any address the derivation returns is off the curve, whatever the seeds,
/// program and starting bump: no generated keypair's public key can collide
/// with it.
pub proof fn lemma_derived_address_off_curve(seeds: Seq<Seq<u8>>, program: Seq<u8>, bump_from: int)
    ensures
        derive_spec(seeds, program, bump_from) matches Some(ab) ==> (ab.0 == pda_digest(
            seeds,
            program,
            ab.1,
        ) && !on_curve(ab.0)),
    decreases bump_from + 1,
{
    if bump_from >= 0 {
        lemma_derived_address_off_curve(seeds, program, bump_from - 1);
    }
}

/// The raw bytes of the asset-token program id, whose base58 text form is
/// "TokenkegQfeZyiNwAJbNbGKPFXCWuBvf9Ss623VQ5DA".
pub open spec fn token_program_id_spec() -> Seq<u8> {
    seq![
        6u8, 221u8, 246u8, 225u8, 215u8, 101u8, 161u8, 147u8, 217u8, 203u8, 225u8, 70u8, 206u8,
        235u8, 121u8, 172u8, 28u8, 180u8, 133u8, 237u8, 95u8, 91u8, 55u8, 145u8, 58u8, 140u8,
        245u8, 133u8, 126u8, 255u8, 0u8, 169u8,
    ]
}

/// The raw bytes of the associated-account program id, whose base58 text form
/// is "ATokenGPvbdGVxr1b2hvZbsiqW5xWH25efTNsLJA8knL".
pub open spec fn ata_program_id_spec() -> Seq<u8> {
    seq![
        140u8, 151u8, 37u8, 143u8, 78u8, 36u8, 137u8, 241u8, 187u8, 61u8, 16u8, 41u8, 20u8, 142u8,
        13u8, 131u8, 11u8, 90u8, 19u8, 153u8, 218u8, 255u8, 16u8, 132u8, 4u8, 142u8, 123u8, 216u8,
        219u8, 233u8, 248u8, 89u8,
    ]
}

/// The asset-token program id as a public key.
pub fn token_program_id() -> (r: PublicKey)
    ensures
        r.wf(),
        r@ == token_program_id_spec(),
{
    let bytes: Vec<u8> = vec![
        6u8, 221u8, 246u8, 225u8, 215u8, 101u8, 161u8, 147u8, 217u8, 203u8, 225u8, 70u8, 206u8,
        235u8, 121u8, 172u8, 28u8, 180u8, 133u8, 237u8, 95u8, 91u8, 55u8, 145u8, 58u8, 140u8,
        245u8, 133u8, 126u8, 255u8, 0u8, 169u8,
    ];
    proof {
        assert(bytes@ =~= token_program_id_spec());
    }
    PublicKey { bytes }
}

/// The associated-account program id as a public key.
pub fn ata_program_id() -> (r: PublicKey)
    ensures
        r.wf(),
        r@ == ata_program_id_spec(),
{
    let bytes: Vec<u8> = vec![
        140u8, 151u8, 37u8, 143u8, 78u8, 36u8, 137u8, 241u8, 187u8, 61u8, 16u8, 41u8, 20u8, 142u8,
        13u8, 131u8, 11u8, 90u8, 19u8, 153u8, 218u8, 255u8, 16u8, 132u8, 4u8, 142u8, 123u8, 216u8,
        219u8, 233u8, 248u8, 89u8,
    ];
    proof {
        assert(bytes@ =~= ata_program_id_spec());
    }
    PublicKey { bytes }
}

/// Relies on solana_sdk::pubkey::Pubkey::create_program_address: appends the
/// bump byte as one extra seed, hashes all seeds, the program id and the
/// domain tag with sha-256, and returns the 32-byte digest exactly when it is
/// not a valid curve point.
#[verifier::external_body]
fn create_program_address_raw(seeds: &Vec<Vec<u8>>, bump: u8, program: &PublicKey) -> (r: Option<
    Vec<u8>,
>)
    requires
        seeds@.len() <= 15,
        forall|i: int| 0 <= i < seeds@.len() ==> (#[trigger] seeds@[i])@.len() <= 32,
        program.wf(),
    ensures
        r is Some <==> !on_curve(pda_digest(seeds.deep_view(), program@, bump)),
        r is Some ==> r->Some_0@ == sha256_of(pda_preimage(seeds.deep_view(), program@, bump))
            && r->Some_0@.len() == 32,
{
    let mut refs: Vec<&[u8]> = seeds.iter().map(|s| s.as_slice()).collect();
    let bump_seed = [bump];
    refs.push(&bump_seed);
    let pk = solana_sdk::pubkey::Pubkey::try_from(program.bytes.as_slice()).unwrap();
    match solana_sdk::pubkey::Pubkey::create_program_address(&refs, &pk) {
        Ok(p) => Some(p.to_bytes().to_vec()),
        Err(_) => None,
    }
}

/// Derives the program-owned address for an ordered list of seed byte-strings
/// (each at most 32 bytes, at most 15 of them) and an owning program id: the
/// first bump from 255 down to 0 whose candidate digest is off the curve, with
/// that digest as the address. Reproducible from the inputs alone; fails with
/// `NoValidAddress` only when all 256 bumps yield on-curve points.
pub fn derive_address(seeds: &Vec<Vec<u8>>, program: &PublicKey) -> (r: Result<
    (PublicKey, u8),
    CoreError,
>)
    requires
        seeds@.len() <= 15,
        forall|i: int| 0 <= i < seeds@.len() ==> (#[trigger] seeds@[i])@.len() <= 32,
        program.wf(),
    ensures
        r is Ok <==> derive_spec(seeds.deep_view(), program@, 255) is Some,
        r matches Ok(ab) ==> ab.0.wf() && derive_spec(seeds.deep_view(), program@, 255) == Some(
            (ab.0@, ab.1),
        ) && !on_curve(ab.0@),
        r is Err ==> r == Err::<(PublicKey, u8), CoreError>(CoreError::NoValidAddress),
{
    let mut bump: u8 = 255;
    loop
        invariant
            seeds@.len() <= 15,
            forall|i: int| 0 <= i < seeds@.len() ==> (#[trigger] seeds@[i])@.len() <= 32,
            program.wf(),
            derive_spec(seeds.deep_view(), program@, 255) == derive_spec(
                seeds.deep_view(),
                program@,
                bump as int,
            ),
        decreases bump,
    {
        match create_program_address_raw(seeds, bump, program) {
            Some(v) => {
                proof {
                    lemma_derived_address_off_curve(seeds.deep_view(), program@, bump as int);
                }
                return Ok((PublicKey { bytes: v }, bump));
            },
            None => {},
        }
        if bump == 0 {
            proof {
                assert(derive_spec(seeds.deep_view(), program@, -1) is None);
            }
            return Err(CoreError::NoValidAddress);
        }
        bump = bump - 1;
    }
}

/// The seed list for an associated asset account: the owner's key, the
/// asset-token program id, then the asset-class (mint) key, in that order.
pub open spec fn ata_seeds(owner: Seq<u8>, mint: Seq<u8>) -> Seq<Seq<u8>> {
    seq![owner, token_program_id_spec(), mint]
}

/// Derives the associated asset account of an owner for one asset class: the
/// program-owned address under the associated-account program, with the fixed
/// seed list `ata_seeds(owner, mint)`.
pub fn derive_associated_account(owner: &PublicKey, mint: &PublicKey) -> (r: Result<
    (PublicKey, u8),
    CoreError,
>)
    requires
        owner.wf(),
        mint.wf(),
    ensures
        r is Ok <==> derive_spec(ata_seeds(owner@, mint@), ata_program_id_spec(), 255) is Some,
        r matches Ok(ab) ==> ab.0.wf() && derive_spec(
            ata_seeds(owner@, mint@),
            ata_program_id_spec(),
            255,
        ) == Some((ab.0@, ab.1)) && !on_curve(ab.0@),
        r is Err ==> r == Err::<(PublicKey, u8), CoreError>(CoreError::NoValidAddress),
{
    let mut seeds: Vec<Vec<u8>> = Vec::new();
    seeds.push(crate::keys::copy_bytes(&owner.bytes));
    seeds.push(token_program_id().bytes);
    seeds.push(crate::keys::copy_bytes(&mint.bytes));
    proof {
        assert(seeds.deep_view() =~~= ata_seeds(owner@, mint@));
    }
    derive_address(&seeds, &ata_program_id())
}

} // verus!
