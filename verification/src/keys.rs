//! Key derivation: fresh entropy is drawn from the operating system, kept
//! only when it forms a valid secret scalar, and turned into an account
//! address by hashing the uncompressed public key (without its leading
//! format byte) and encoding the low 20 bytes of the digest as lowercase
//! hexadecimal.

use vstd::prelude::*;
use vstd::slice::slice_subrange;
use crate::SearchError;
use crate::hexcode::{encode_hex, hex_of, is_lower_hex_char, lemma_hex_of_chars, lemma_hex_of_len};
use crate::scalar::is_valid_scalar;
use crate::scalar::is_valid_secret_scalar;

verus! {

/// The 65-byte uncompressed encoding of the public key that belongs to a
/// secret scalar, as the signing curve defines it. A function of the scalar
/// bytes alone.
pub uninterp spec fn pubkey_of(sk: Seq<u8>) -> Seq<u8>;

/// The 32-byte Keccak-256 digest of a byte string. A function of the input
/// alone.
pub uninterp spec fn keccak_of(data: Seq<u8>) -> Seq<u8>;

/// The address derived from a secret scalar: the lowercase hexadecimal form
/// of the low 20 bytes of the Keccak-256 digest of the uncompressed public
/// key without its leading format byte.
pub open spec fn spec_address_of(sk: Seq<u8>) -> Seq<char> {
    hex_of(keccak_of(pubkey_of(sk).subrange(1, 65)).subrange(12, 32))
}

/// Relies on rand's OsRng (TryRngCore::try_fill_bytes): 32 bytes from the
/// operating system's entropy source, or `None` when that source fails. The
/// bytes depend on chance alone, so nothing is stated of their values.
#[verifier::external_body]
fn os_random_bytes() -> (r: Option<Vec<u8>>)
    ensures
        r matches Some(v) ==> v@.len() == 32,
{
    let mut buf = [0u8; 32];
    match rand::TryRngCore::try_fill_bytes(&mut rand::rngs::OsRng, &mut buf) {
        Ok(()) => Some(buf.to_vec()),
        Err(_) => None,
    }
}

/// Relies on secp256k1: SecretKey::from_secret_bytes accepts exactly the
/// 32-byte strings whose big-endian value is non-zero and below the group
/// order (which the precondition guarantees), PublicKey::from_secret_key
/// computes the public key of that scalar, and serialize_uncompressed
/// returns its 65-byte uncompressed encoding, a function of the scalar
/// alone.
#[verifier::external_body]
fn pubkey_uncompressed(sk: &Vec<u8>) -> (r: Vec<u8>)
    requires
        is_valid_scalar(sk@),
    ensures
        r@ == pubkey_of(sk@),
        r@.len() == 65,
{
    let mut arr = [0u8; 32];
    arr.copy_from_slice(sk.as_slice());
    let key = secp256k1::SecretKey::from_secret_bytes(arr).unwrap();
    let pk = secp256k1::PublicKey::from_secret_key(&key);
    pk.serialize_uncompressed().to_vec()
}

/// Relies on sha3's Keccak256 (through the Digest trait): the 32-byte
/// Keccak-256 digest of the input, a function of the input alone.
#[verifier::external_body]
fn keccak256(data: &[u8]) -> (r: Vec<u8>)
    ensures
        r@ == keccak_of(data@),
        r@.len() == 32,
{
    <sha3::Keccak256 as sha3::Digest>::digest(data).to_vec()
}

/// A secret scalar together with the address derived from it. Immutable
/// once constructed.
pub struct KeyPair {
    secret: Vec<u8>,
    address: String,
}

impl KeyPair {
    /// The bytes of the secret scalar.
    pub closed spec fn secret_bytes(&self) -> Seq<u8> {
        self.secret@
    }

    /// The characters of the address body (40 hexadecimal characters, no
    /// "0x" prefix).
    pub closed spec fn address_chars(&self) -> Seq<char> {
        self.address@
    }

    /// A well-formed pair holds a valid secret scalar and exactly the
    /// address derived from it: 40 lowercase hexadecimal characters.
    pub open spec fn wf(&self) -> bool {
        &&& is_valid_scalar(self.secret_bytes())
        &&& self.address_chars() == spec_address_of(self.secret_bytes())
        &&& self.address_chars().len() == 40
        &&& forall|i: int|
            0 <= i < self.address_chars().len() ==> is_lower_hex_char(
                #[trigger] self.address_chars()[i],
            )
    }

    /// The address body: 40 hexadecimal characters, without a "0x" prefix.
    pub fn address(&self) -> (r: &str)
        ensures
            r@ == self.address_chars(),
    {
        self.address.as_str()
    }

    /// The bytes of the secret scalar.
    pub fn private_key_bytes(&self) -> (r: &Vec<u8>)
        ensures
            r@ == self.secret_bytes(),
    {
        &self.secret
    }

    /// The secret scalar as 64 lowercase hexadecimal characters.
    pub fn private_key_hex(&self) -> (r: String)
        ensures
            r@ == hex_of(self.secret_bytes()),
    {
        encode_hex(self.secret.as_slice())
    }
}

/// Builds the pair that belongs to the given secret bytes: the derived
/// address, or `None` exactly when the bytes are not a valid secret scalar.
pub fn key_pair_from_secret(secret: Vec<u8>) -> (r: Option<KeyPair>)
    ensures
        r is Some <==> is_valid_scalar(secret@),
        r matches Some(kp) ==> kp.wf() && kp.secret_bytes() == secret@,
{
    if !is_valid_secret_scalar(&secret) {
        return None;
    }
    let pk = pubkey_uncompressed(&secret);
    let body = slice_subrange(pk.as_slice(), 1, 65);
    let hash = keccak256(body);
    let low = slice_subrange(hash.as_slice(), 12, 32);
    let address = encode_hex(low);
    proof {
        lemma_hex_of_len(hash@.subrange(12, 32));
        lemma_hex_of_chars(hash@.subrange(12, 32));
    }
    Some(KeyPair { secret, address })
}

/// Draws fresh entropy and derives a key pair: a valid secret scalar (a draw
/// is retried while its value falls outside the scalar range, which is
/// vanishingly rare) and the address derived from it. Fails only when the
/// operating system's entropy source does: a source that cannot produce a
/// valid scalar within the retry bound is treated as failed, never as "not
/// found".
pub fn generate_key_pair() -> (r: Result<KeyPair, SearchError>)
    ensures
        r matches Ok(kp) ==> kp.wf(),
        r matches Err(e) ==> e == SearchError::EntropyFailure,
{
    let mut tries: usize = 0;
    while tries < 128
        invariant
            tries <= 128,
        decreases 128 - tries,
    {
        let bytes = match os_random_bytes() {
            Some(b) => b,
            None => {
                return Err(SearchError::EntropyFailure);
            },
        };
        match key_pair_from_secret(bytes) {
            Some(kp) => {
                return Ok(kp);
            },
            None => {},
        }
        tries += 1;
    }
    Err(SearchError::EntropyFailure)
}

} // verus!
