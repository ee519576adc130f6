use vstd::prelude::*;

verus! {

use crate::error::CoreError;

/// A 32-byte account or program identifier. Equality is byte equality; the
/// canonical text form is the base58 encoding of the raw bytes.
#[derive(Debug)]
pub struct PublicKey {
    pub bytes: Vec<u8>,
}

impl View for PublicKey {
    type V = Seq<u8>;

    open spec fn view(&self) -> Seq<u8> {
        self.bytes@
    }
}

impl PublicKey {
    /// A public key is exactly 32 bytes.
    pub open spec fn wf(&self) -> bool {
        self.bytes@.len() == 32
    }
}

/// Byte-wise equality of two byte vectors.
pub fn bytes_equal(a: &Vec<u8>, b: &Vec<u8>) -> (r: bool)
    ensures
        r == (a@ == b@),
{
    if a.len() != b.len() {
        return false;
    }
    let mut i: usize = 0;
    while i < a.len()
        invariant
            i <= a.len(),
            a.len() == b.len(),
            forall|j: int| 0 <= j < i ==> a@[j] == b@[j],
        decreases a.len() - i,
    {
        if a[i] != b[i] {
            return false;
        }
        i += 1;
    }
    proof {
        assert(a@ =~= b@);
    }
    true
}

/// A fresh copy of a byte vector.
pub fn copy_bytes(v: &Vec<u8>) -> (r: Vec<u8>)
    ensures
        r@ == v@,
{
    let mut r: Vec<u8> = Vec::new();
    let mut i: usize = 0;
    while i < v.len()
        invariant
            i <= v.len(),
            r@ =~= v@.subrange(0, i as int),
        decreases v.len() - i,
    {
        r.push(v[i]);
        i += 1;
    }
    proof {
        assert(r@ =~= v@);
    }
    r
}

/// The bytes of `v` from `start` (inclusive) to `end` (exclusive), as a fresh
/// vector.
pub fn sub_bytes(v: &Vec<u8>, start: usize, end: usize) -> (r: Vec<u8>)
    requires
        start <= end <= v@.len(),
    ensures
        r@ == v@.subrange(start as int, end as int),
{
    let mut r: Vec<u8> = Vec::new();
    let mut i: usize = start;
    while i < end
        invariant
            start <= i <= end <= v@.len(),
            r@ =~= v@.subrange(start as int, i as int),
        decreases end - i,
    {
        r.push(v[i]);
        i += 1;
    }
    proof {
        assert(r@ =~= v@.subrange(start as int, end as int));
    }
    r
}

/// The ed25519 public key derived from a 32-byte secret seed.
pub uninterp spec fn public_of(seed: Seq<u8>) -> Seq<u8>;

/// The ed25519 signature that signing `msg` with the keypair of the 32-byte
/// secret `secret` produces (the scheme's nonce derivation is deterministic).
pub uninterp spec fn sig_of(secret: Seq<u8>, msg: Seq<u8>) -> Seq<u8>;

/// Whether `sig` is a valid ed25519 signature over `msg` for the public key
/// bytes `public`.
pub uninterp spec fn sig_valid(public: Seq<u8>, msg: Seq<u8>, sig: Seq<u8>) -> bool;

/// A keypair: a 32-byte secret seed together with the public key derived from
/// it. Either fully consistent (see `wf`) or never constructed.
#[derive(Debug)]
pub struct Keypair {
    pub secret: Vec<u8>,
    pub public: PublicKey,
}

impl Keypair {
    /// The secret seed is 32 bytes and the public key is the one derived from
    /// it.
    pub open spec fn wf(&self) -> bool {
        &&& self.secret@.len() == 32
        &&& self.public.wf()
        &&& self.public@ == public_of(self.secret@)
    }

    /// The 64-byte secret‖public encoding of this keypair, the layout
    /// `from_secret_bytes` accepts back.
    pub fn to_secret_bytes(&self) -> (r: Vec<u8>)
        ensures
            r@ == self.secret@ + self.public@,
    {
        let mut r = copy_bytes(&self.secret);
        let mut pub_copy = copy_bytes(&self.public.bytes);
        r.append(&mut pub_copy);
        r
    }
}

/// A 64-byte ed25519 signature over some message.
#[derive(Debug)]
pub struct Signature {
    pub bytes: Vec<u8>,
}

impl View for Signature {
    type V = Seq<u8>;

    open spec fn view(&self) -> Seq<u8> {
        self.bytes@
    }
}

impl Signature {
    /// A signature is exactly 64 bytes.
    pub open spec fn wf(&self) -> bool {
        self.bytes@.len() == 64
    }
}

/// Relies on solana_sdk::signer::keypair::Keypair::new: a fresh keypair drawn
/// from the operating system's CSPRNG, whose `to_bytes` form is the 32-byte
/// secret followed by the 32-byte public key derived from it.
#[verifier::external_body]
fn keypair_new_raw() -> (r: Keypair)
    ensures
        r.wf(),
{
    let kp = solana_sdk::signer::keypair::Keypair::new();
    let b = kp.to_bytes();
    Keypair { secret: b[..32].to_vec(), public: PublicKey { bytes: b[32..].to_vec() } }
}

/// Relies on solana_sdk::signer::keypair::keypair_from_seed: derives the
/// ed25519 public key for a 32-byte secret seed, a pure function of the seed.
#[verifier::external_body]
fn keypair_from_seed_raw(seed: &Vec<u8>) -> (r: Keypair)
    requires
        seed@.len() == 32,
    ensures
        r.secret@ == seed@,
        r.public.wf(),
        r.public@ == public_of(seed@),
{
    let kp = solana_sdk::signer::keypair::keypair_from_seed(seed.as_slice()).unwrap();
    let b = kp.to_bytes();
    Keypair { secret: b[..32].to_vec(), public: PublicKey { bytes: b[32..].to_vec() } }
}

/// Relies on solana_sdk Keypair::sign_message (ed25519, deterministic nonce
/// derivation): the signature is a pure function of the secret seed and the
/// message, and a signature so produced verifies against the keypair's public
/// key.
#[verifier::external_body]
fn sign_raw(kp: &Keypair, msg: &Vec<u8>) -> (r: Signature)
    requires
        kp.wf(),
    ensures
        r.wf(),
        r@ == sig_of(kp.secret@, msg@),
        sig_valid(kp.public@, msg@, r@),
{
    let mut b = kp.secret.clone();
    b.extend_from_slice(kp.public.bytes.as_slice());
    let skp = solana_sdk::signer::keypair::Keypair::from_bytes(&b).unwrap();
    let sig = solana_sdk::signer::Signer::sign_message(&skp, msg.as_slice());
    Signature { bytes: sig.as_ref().to_vec() }
}

/// Relies on solana_sdk Signature::verify (ed25519 strict verification): a pure
/// predicate of the public-key, message and signature bytes, returning false
/// (never failing) on a cryptographically invalid triple.
#[verifier::external_body]
fn verify_raw(public: &PublicKey, msg: &Vec<u8>, sig: &Signature) -> (r: bool)
    requires
        public.wf(),
        sig.wf(),
    ensures
        r == sig_valid(public@, msg@, sig@),
{
    let s = solana_sdk::signature::Signature::try_from(sig.bytes.as_slice()).unwrap();
    s.verify(public.bytes.as_slice(), msg.as_slice())
}

/// Generates a new keypair from fresh cryptographically secure random bytes.
pub fn generate() -> (r: Keypair)
    ensures
        r.wf(),
{
    keypair_new_raw()
}

/// Whether `bytes` is a raw secret encoding that reconstructs a keypair: either
/// a bare 32-byte seed, or the 64-byte secret‖public layout with a public half
/// consistent with the secret half.
pub open spec fn valid_secret_bytes(bytes: Seq<u8>) -> bool {
    ||| bytes.len() == 32
    ||| (bytes.len() == 64 && bytes.subrange(32, 64) == public_of(bytes.subrange(0, 32)))
}

/// Reconstructs a keypair from a raw secret encoding: a 32-byte seed, or the
/// 64-byte secret‖public layout, whose embedded public half must match the one
/// derived from the secret half. Anything else is `InvalidSecretKey`.
pub fn from_secret_bytes(bytes: &Vec<u8>) -> (r: Result<Keypair, CoreError>)
    ensures
        r is Ok <==> valid_secret_bytes(bytes@),
        r matches Ok(kp) ==> kp.wf() && kp.secret@ == bytes@.subrange(0, 32),
        r is Err ==> r == Err::<Keypair, CoreError>(CoreError::InvalidSecretKey),
{
    if bytes.len() == 32 {
        Ok(keypair_from_seed_raw(bytes))
    } else if bytes.len() == 64 {
        let seed = sub_bytes(bytes, 0, 32);
        let embedded = sub_bytes(bytes, 32, 64);
        let kp = keypair_from_seed_raw(&seed);
        if bytes_equal(&kp.public.bytes, &embedded) {
            Ok(kp)
        } else {
            Err(CoreError::InvalidSecretKey)
        }
    } else {
        Err(CoreError::InvalidSecretKey)
    }
}

/// Signs a message with a keypair's secret key; the result always verifies
/// against the keypair's public key, and is a function of the secret and the
/// message alone.
pub fn sign(kp: &Keypair, msg: &Vec<u8>) -> (r: Signature)
    requires
        kp.wf(),
    ensures
        r.wf(),
        r@ == sig_of(kp.secret@, msg@),
        sig_valid(kp.public@, msg@, r@),
{
    sign_raw(kp, msg)
}

/// Reconstructs a keypair from a raw secret encoding and signs a message with
/// it: succeeds exactly where `from_secret_bytes` does.
pub fn sign_with_secret(secret_bytes: &Vec<u8>, msg: &Vec<u8>) -> (r: Result<
    (Signature, PublicKey),
    CoreError,
>)
    ensures
        r is Ok <==> valid_secret_bytes(secret_bytes@),
        r matches Ok(sp) ==> sp.0.wf() && sp.1.wf() && sp.1@ == public_of(
            secret_bytes@.subrange(0, 32),
        ) && sp.0@ == sig_of(secret_bytes@.subrange(0, 32), msg@) && sig_valid(
            sp.1@,
            msg@,
            sp.0@,
        ),
        r is Err ==> r == Err::<(Signature, PublicKey), CoreError>(CoreError::InvalidSecretKey),
{
    match from_secret_bytes(secret_bytes) {
        Ok(kp) => {
            let sig = sign(&kp, msg);
            Ok((sig, kp.public))
        },
        Err(_) => Err(CoreError::InvalidSecretKey),
    }
}

/// Verifies a signature over a message against a public key: a pure predicate,
/// false (never an error) on a cryptographically invalid triple.
pub fn verify(public: &PublicKey, msg: &Vec<u8>, sig: &Signature) -> (r: bool)
    requires
        public.wf(),
        sig.wf(),
    ensures
        r == sig_valid(public@, msg@, sig@),
{
    verify_raw(public, msg, sig)
}

impl PartialEq for PublicKey {
    fn eq(&self, other: &PublicKey) -> (r: bool) {
        bytes_equal(&self.bytes, &other.bytes)
    }
}

impl vstd::std_specs::cmp::PartialEqSpecImpl for PublicKey {
    open spec fn obeys_eq_spec() -> bool {
        true
    }

    open spec fn eq_spec(&self, other: &PublicKey) -> bool {
        self.bytes@ == other.bytes@
    }
}

} // verus!
