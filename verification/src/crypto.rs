//! x25519 network keys and the random number generator they are drawn from.

use rand::rngs::StdRng;
use vstd::prelude::*;

verus! {

/// The seeded cryptographic generator from which network keys are drawn.
#[verifier::external_type_specification]
#[verifier::external_body]
pub struct ExStdRng(rand::rngs::StdRng);

/// An x25519 private key, as the 32 bytes of its (clamped) scalar. It has no
/// `Debug`, so that formatting a configuration never prints the secret.
#[derive(Clone, Copy, PartialEq, Eq)]
pub struct X25519PrivateKey {
    pub bytes: [u8; 32],
}

/// An x25519 public key, as the 32 bytes of its Montgomery u-coordinate.
#[derive(Clone, Copy, PartialEq, Eq, Debug)]
pub struct X25519PublicKey {
    pub bytes: [u8; 32],
}

/// The bytes of an x25519 scalar after clamping: the low three bits of the
/// first byte are clear, the top bit of the last byte is clear and the bit
/// below it is set.
pub open spec fn is_clamped(bytes: Seq<u8>) -> bool {
    &&& bytes.len() == 32
    &&& bytes[0] % 8 == 0
    &&& 64 <= bytes[31] < 128
}

/// The public key that x25519 derives from the private key bytes `private`
/// (base point multiplication by the clamped scalar).
pub uninterp spec fn spec_x25519_public_key(private: Seq<u8>) -> Seq<u8>;

/// Draws a fresh 32-byte seed from the operating system's randomness:
/// `rand_core::RngCore::try_fill_bytes` on `rand::rngs::OsRng`. It gives
/// `None` where the operating system gives no randomness; nothing is stated
/// of the bytes, which come from the operating system.
#[verifier::external_body]
fn os_random_seed() -> Option<[u8; 32]> {
    let mut seed = [0u8; 32];
    match rand::RngCore::try_fill_bytes(&mut rand::rngs::OsRng, &mut seed) {
        Ok(()) => Some(seed),
        Err(_) => None,
    }
}

/// Builds a generator from a seed: `rand::SeedableRng::from_seed` for
/// `StdRng`. The generator is opaque here, so nothing is stated of it.
#[verifier::external_body]
fn std_rng_from_seed(seed: [u8; 32]) -> StdRng {
    rand::SeedableRng::from_seed(seed)
}

/// A generator seeded from the operating system, as a node uses to make a
/// key when its configuration holds none; `None` where the operating system
/// gives no randomness.
pub(crate) fn os_seeded_rng() -> Option<StdRng> {
    match os_random_seed() {
        Some(seed) => Some(std_rng_from_seed(seed)),
        None => None,
    }
}

/// Draws a new private key from `rng`: `x25519_dalek::StaticSecret::new`,
/// then `to_bytes`. The crate fills 32 random bytes and clamps them, so the
/// bytes returned are clamped; which bytes they are depends on the state of
/// `rng` and is not stated.
#[verifier::external_body]
fn x25519_generate(rng: &mut StdRng) -> (key: [u8; 32])
    ensures
        is_clamped(key@),
{
    x25519_dalek::StaticSecret::new(rng).to_bytes()
}

/// The public key of a private key: `x25519_dalek::PublicKey::from` of
/// `x25519_dalek::StaticSecret::from(bytes)`, then `as_bytes`. The result is
/// named by `spec_x25519_public_key` of the private bytes.
#[verifier::external_body]
fn x25519_public_key(private: [u8; 32]) -> (public: [u8; 32])
    ensures
        public@ == spec_x25519_public_key(private@),
{
    let secret = x25519_dalek::StaticSecret::from(private);
    *x25519_dalek::PublicKey::from(&secret).as_bytes()
}

impl X25519PrivateKey {
    /// Generates a private key from `rng`.
    pub fn generate(rng: &mut StdRng) -> (key: X25519PrivateKey)
        ensures
            is_clamped(key.bytes@),
    {
        X25519PrivateKey { bytes: x25519_generate(rng) }
    }

    /// The public key of this private key.
    pub fn public_key(&self) -> (key: X25519PublicKey)
        ensures
            key.bytes@ == spec_x25519_public_key(self.bytes@),
    {
        X25519PublicKey { bytes: x25519_public_key(self.bytes) }
    }
}

/// A private key together with its public key. Once the private key has
/// been taken out, only the public key remains.
#[derive(Clone, Copy, PartialEq, Eq)]
pub struct KeyPair {
    private_key: Option<X25519PrivateKey>,
    public_key: X25519PublicKey,
}

impl KeyPair {
    /// The public key always belongs to the private key, where there is one.
    #[verifier::type_invariant]
    spec fn matches(self) -> bool {
        self.private_key matches Some(k) ==> self.public_key.bytes@ == spec_x25519_public_key(
            k.bytes@,
        )
    }

    /// The private key held, if any.
    pub closed spec fn spec_private_key(self) -> Option<X25519PrivateKey> {
        self.private_key
    }

    /// The public key held.
    pub closed spec fn spec_public_key(self) -> X25519PublicKey {
        self.public_key
    }

    /// Wraps a private key, computing its public key.
    pub fn load(private_key: X25519PrivateKey) -> (pair: KeyPair)
        ensures
            pair.spec_private_key() == Some(private_key),
            pair.spec_public_key().bytes@ == spec_x25519_public_key(private_key.bytes@),
    {
        let public_key = private_key.public_key();
        KeyPair { private_key: Some(private_key), public_key }
    }

    /// The private key of the pair, unless it has been taken out.
    pub fn private_key(&self) -> (key: Option<X25519PrivateKey>)
        ensures
            key == self.spec_private_key(),
    {
        self.private_key
    }

    /// The public key of the pair.
    pub fn public_key(&self) -> (key: X25519PublicKey)
        ensures
            key == self.spec_public_key(),
    {
        self.public_key
    }
}

} // verus!
