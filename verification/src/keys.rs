//! Public keys, key pairs and signatures as fixed-size byte strings, and the
//! Ed25519 operations on them.
//!
//! The curve arithmetic is the work of `solana_sdk`'s key pair and signature
//! types. Its results are named here by uninterpreted functions.

use vstd::prelude::*;
use solana_sdk::signer::Signer;

verus! {

/// The Ed25519 public key that belongs to the 32-byte `seed`.
pub uninterp spec fn ed25519_public_of(seed: Seq<u8>) -> Seq<u8>;

/// The Ed25519 signature that the key pair of `seed` gives to `message`.
pub uninterp spec fn ed25519_signature(seed: Seq<u8>, message: Seq<u8>) -> Seq<u8>;

/// Whether strict Ed25519 verification accepts `signature` for `message`
/// under the public key `public`.
pub uninterp spec fn ed25519_accepts(public: Seq<u8>, message: Seq<u8>, signature: Seq<u8>) -> bool;

/// A secret key is 64 bytes: a 32-byte seed followed by the public key that
/// belongs to that seed.
pub open spec fn is_keypair(secret: Seq<u8>) -> bool {
    &&& secret.len() == 64
    &&& secret.subrange(32, 64) == ed25519_public_of(secret.subrange(0, 32))
}

/// The seed half of a secret key.
pub open spec fn seed_of(secret: Seq<u8>) -> Seq<u8> {
    secret.subrange(0, 32)
}

/// The public half of a secret key.
pub open spec fn public_of(secret: Seq<u8>) -> Seq<u8> {
    secret.subrange(32, 64)
}

/// A 32-byte public key. Two keys are equal exactly when their bytes are.
#[derive(Clone, Copy, Debug, PartialEq, Eq)]
pub struct PublicKey {
    pub bytes: [u8; 32],
}

impl View for PublicKey {
    type V = Seq<u8>;

    open spec fn view(&self) -> Seq<u8> {
        self.bytes@
    }
}

/// A 64-byte detached signature.
#[derive(Clone, Copy, Debug, PartialEq, Eq)]
pub struct Signature {
    pub bytes: [u8; 64],
}

impl View for Signature {
    type V = Seq<u8>;

    open spec fn view(&self) -> Seq<u8> {
        self.bytes@
    }
}

/// An Ed25519 key pair, held as its 64 secret bytes. Every value of this
/// type is consistent: its last 32 bytes are the public key of its first 32.
#[derive(Debug)]
pub struct Keypair {
    secret: [u8; 64],
}

impl View for Keypair {
    type V = Seq<u8>;

    closed spec fn view(&self) -> Seq<u8> {
        self.secret@
    }
}

/// Calls `Keypair::new_from_array(seed).pubkey()`. Trusted: the result is
/// the 32-byte public key named by `ed25519_public_of`.
#[verifier::external_body]
pub(crate) fn ed25519_public_key(seed: &[u8; 32]) -> (public: [u8; 32])
    ensures
        public@ == ed25519_public_of(seed@),
{
    solana_sdk::signature::Keypair::new_from_array(*seed).pubkey().to_bytes()
}

/// Calls `Keypair::new().to_bytes()`, which draws a seed from the operating
/// system's random source. Trusted: whatever seed was drawn, the 64 bytes
/// are that seed followed by its public key.
#[verifier::external_body]
pub(crate) fn ed25519_fresh_secret() -> (secret: [u8; 64])
    ensures
        is_keypair(secret@),
{
    solana_sdk::signature::Keypair::new().to_bytes()
}

/// Calls `Keypair::new_from_array(seed).sign_message(message)`. Trusted: the
/// result is the 64-byte signature named by `ed25519_signature`, and strict
/// verification accepts it for `message` under the public key of `seed`.
#[verifier::external_body]
pub(crate) fn ed25519_sign(seed: &[u8; 32], message: &[u8]) -> (signature: [u8; 64])
    ensures
        signature@ == ed25519_signature(seed@, message@),
        ed25519_accepts(ed25519_public_of(seed@), message@, signature@),
{
    solana_sdk::signature::Keypair::new_from_array(*seed).sign_message(message).into()
}

/// Calls `Signature::verify`. Trusted: the result is the verdict named by
/// `ed25519_accepts`; the call returns `false`, and does not fail, on bytes
/// that are no valid key or signature.
#[verifier::external_body]
pub(crate) fn ed25519_verify(public: &[u8; 32], message: &[u8], signature: &[u8; 64]) -> (ok: bool)
    ensures
        ok == ed25519_accepts(public@, message@, signature@),
{
    solana_sdk::signature::Signature::from(*signature).verify(public, message)
}

/// Copies the 32 bytes of `bytes` that start at `from`.
pub(crate) fn take_32(bytes: &[u8], from: usize) -> (out: [u8; 32])
    requires
        from + 32 <= bytes@.len(),
    ensures
        out@ == bytes@.subrange(from as int, from + 32),
{
    let len = bytes.len();
    let mut out = [0u8; 32];
    let mut i: usize = 0;
    while i < 32
        invariant
            i <= 32,
            len == bytes@.len(),
            from + 32 <= len,
            forall|j: int| 0 <= j < i ==> out@[j] == bytes@[from + j],
        decreases 32 - i,
    {
        out[i] = bytes[from + i];
        i = i + 1;
    }
    assert(out@ =~= bytes@.subrange(from as int, from + 32));
    out
}

/// Copies the 64 bytes of `bytes`.
pub(crate) fn take_64(bytes: &[u8]) -> (out: [u8; 64])
    requires
        bytes@.len() == 64,
    ensures
        out@ == bytes@,
{
    let mut out = [0u8; 64];
    let mut i: usize = 0;
    while i < 64
        invariant
            i <= 64,
            bytes@.len() == 64,
            forall|j: int| 0 <= j < i ==> out@[j] == bytes@[j],
        decreases 64 - i,
    {
        out[i] = bytes[i];
        i = i + 1;
    }
    assert(out@ =~= bytes@);
    out
}

/// Whether two byte strings are equal.
pub fn bytes_equal(a: &[u8], b: &[u8]) -> (same: bool)
    ensures
        same == (a@ == b@),
{
    if a.len() != b.len() {
        return false;
    }
    let mut i: usize = 0;
    while i < a.len()
        invariant
            i <= a@.len(),
            a@.len() == b@.len(),
            forall|j: int| 0 <= j < i ==> a@[j] == b@[j],
        decreases a@.len() - i,
    {
        if a[i] != b[i] {
            return false;
        }
        i = i + 1;
    }
    assert(a@ =~= b@);
    true
}

impl PublicKey {
    /// The key with the given bytes.
    pub fn new(bytes: [u8; 32]) -> (key: PublicKey)
        ensures
            key@ == bytes@,
    {
        PublicKey { bytes }
    }

    /// The key's 32 bytes.
    pub fn to_bytes(&self) -> (bytes: [u8; 32])
        ensures
            bytes@ == self@,
    {
        self.bytes
    }

    /// Reads a key from a byte string, which must have exactly 32 bytes.
    pub fn from_slice(bytes: &[u8]) -> (r: Option<PublicKey>)
        ensures
            match r {
                Some(key) => bytes@.len() == 32 && key@ == bytes@,
                None => bytes@.len() != 32,
            },
    {
        if bytes.len() != 32 {
            return None;
        }
        let out = take_32(bytes, 0);
        assert(bytes@.subrange(0, 32) =~= bytes@);
        Some(PublicKey { bytes: out })
    }

    /// Whether two keys have the same bytes.
    pub fn same_as(&self, other: &PublicKey) -> (same: bool)
        ensures
            same == (self@ == other@),
    {
        bytes_equal(self.bytes.as_slice(), other.bytes.as_slice())
    }
}

impl Signature {
    /// The signature with the given bytes.
    pub fn new(bytes: [u8; 64]) -> (signature: Signature)
        ensures
            signature@ == bytes@,
    {
        Signature { bytes }
    }

    /// The signature's 64 bytes.
    pub fn to_bytes(&self) -> (bytes: [u8; 64])
        ensures
            bytes@ == self@,
    {
        self.bytes
    }

    /// Reads a signature from a byte string, which must have exactly 64
    /// bytes.
    pub fn from_slice(bytes: &[u8]) -> (r: Option<Signature>)
        ensures
            match r {
                Some(signature) => bytes@.len() == 64 && signature@ == bytes@,
                None => bytes@.len() != 64,
            },
    {
        if bytes.len() != 64 {
            return None;
        }
        Some(Signature { bytes: take_64(bytes) })
    }
}

impl Keypair {
    #[verifier::type_invariant]
    spec fn consistent(self) -> bool {
        is_keypair(self.secret@)
    }

    /// Reads a key pair from its 64 secret bytes. Succeeds exactly when there
    /// are 64 bytes and the last 32 are the public key of the first 32.
    pub fn from_bytes(bytes: &[u8]) -> (r: Option<Keypair>)
        ensures
            match r {
                Some(pair) => is_keypair(bytes@) && pair@ == bytes@,
                None => !is_keypair(bytes@),
            },
    {
        if bytes.len() != 64 {
            return None;
        }
        let seed = take_32(bytes, 0);
        let claimed = take_32(bytes, 32);
        let derived = ed25519_public_key(&seed);
        if !bytes_equal(claimed.as_slice(), derived.as_slice()) {
            return None;
        }
        Some(Keypair { secret: take_64(bytes) })
    }

    /// The 64 secret bytes: seed, then public key.
    pub fn to_bytes(&self) -> (bytes: [u8; 64])
        ensures
            bytes@ == self@,
            is_keypair(bytes@),
    {
        proof {
            use_type_invariant(self);
        }
        self.secret
    }

    /// The public key of the pair: the last 32 of its secret bytes.
    pub fn pubkey(&self) -> (key: PublicKey)
        ensures
            key@ == public_of(self@),
            key@ == ed25519_public_of(seed_of(self@)),
    {
        proof {
            use_type_invariant(self);
        }
        PublicKey { bytes: take_32(self.secret.as_slice(), 32) }
    }
}

/// Makes a new key pair from a seed drawn at random by the operating system.
/// Whatever seed is drawn, the pair is consistent.
pub fn generate_keypair() -> (pair: Keypair)
    ensures
        is_keypair(pair@),
{
    Keypair { secret: ed25519_fresh_secret() }
}

/// Signs `message` with plain Ed25519 (no prehash). The signature is a
/// function of the pair and the message alone, and `verify` accepts it under
/// the pair's public key.
pub fn sign(pair: &Keypair, message: &[u8]) -> (signature: Signature)
    ensures
        signature@ == ed25519_signature(seed_of(pair@), message@),
        ed25519_accepts(public_of(pair@), message@, signature@),
{
    proof {
        use_type_invariant(pair);
    }
    let seed = take_32(pair.secret.as_slice(), 0);
    Signature { bytes: ed25519_sign(&seed, message) }
}

/// Whether `signature` is a valid Ed25519 signature of `message` under
/// `public`. An invalid signature, or bytes that are no key at all, give
/// `false`; nothing makes this function fail.
pub fn verify(public: &PublicKey, message: &[u8], signature: &Signature) -> (ok: bool)
    ensures
        ok == ed25519_accepts(public@, message@, signature@),
{
    ed25519_verify(&public.bytes, message, &signature.bytes)
}

} // verus!
