//! The cryptographic edge of the module: SHA-256 commitments and BIP340
//! Schnorr signatures, called through trusted wrappers around the `sha2`,
//! `hex` and `secp256k1` crates. The digests and signatures themselves are
//! named, not restated: their values are functions of the argument bytes
//! alone, computed identically on every guardian.

use vstd::prelude::*;

use crate::common::{PublicKey, SecretKey, Signature};

verus! {

/// The SHA-256 digest of the UTF-8 bytes of a string.
pub uninterp spec fn sha256_of(s: Seq<char>) -> Seq<u8>;

/// Whether a 64-byte BIP340 Schnorr signature verifies for a message under
/// the x-only form of a 33-byte compressed secp256k1 public key.
pub uninterp spec fn schnorr_verifies(pk: Seq<u8>, msg: Seq<u8>, sig: Seq<u8>) -> bool;

/// The BIP340 Schnorr signature over a message by a secret key, without
/// auxiliary randomness; deterministic in both arguments.
pub uninterp spec fn schnorr_sig_of(sk: Seq<u8>, msg: Seq<u8>) -> Seq<u8>;

/// The 33-byte compressed public key derived from a valid secret key.
pub uninterp spec fn pubkey_of(sk: Seq<u8>) -> Seq<u8>;

/// Whether 32 bytes form a valid secp256k1 secret key.
pub uninterp spec fn sk_valid(sk: Seq<u8>) -> bool;

/// The lower-case hex digit for a value below 16.
pub open spec fn hex_digit(n: int) -> char {
    if n == 0 { '0' } else if n == 1 { '1' } else if n == 2 { '2' } else if n == 3 { '3' }
    else if n == 4 { '4' } else if n == 5 { '5' } else if n == 6 { '6' } else if n == 7 { '7' }
    else if n == 8 { '8' } else if n == 9 { '9' } else if n == 10 { 'a' } else if n == 11 { 'b' }
    else if n == 12 { 'c' } else if n == 13 { 'd' } else if n == 14 { 'e' } else { 'f' }
}

/// The lower-case hex encoding of a byte sequence: two digits per byte,
/// high nibble first.
pub open spec fn spec_hex_of(bytes: Seq<u8>) -> Seq<char>
    decreases bytes.len(),
{
    if bytes.len() == 0 {
        Seq::<char>::empty()
    } else {
        seq![hex_digit(bytes.first() as int / 16), hex_digit(bytes.first() as int % 16)]
            + spec_hex_of(bytes.drop_first())
    }
}

/// The hex-encoded SHA-256 commitment of a string, as stored in a contract.
pub open spec fn sha256_hex_of(s: Seq<char>) -> Seq<char> {
    spec_hex_of(sha256_of(s))
}

/// Relies on sha2's SHA-256: the digest is 32 bytes and depends on the
/// hashed bytes alone.
#[verifier::external_body]
pub(crate) fn sha256_digest(value: &str) -> (r: Vec<u8>)
    ensures
        r@ == sha256_of(value@),
        r@.len() == 32,
{
    <sha2::Sha256 as sha2::Digest>::digest(value.as_bytes()).to_vec()
}

/// Relies on hex::encode: lower-case hex, two digits per byte, high nibble
/// first.
#[verifier::external_body]
fn hex_encode(bytes: &Vec<u8>) -> (r: String)
    ensures
        r@ == spec_hex_of(bytes@),
{
    hex::encode(bytes.as_slice())
}

/// Hashes a value with SHA-256 and returns the lower-case hex encoding of
/// the digest. This is the commitment scheme for secret codes.
pub fn hash256(value: String) -> (r: String)
    ensures
        r@ == sha256_hex_of(value@),
{
    let digest = sha256_digest(value.as_str());
    hex_encode(&digest)
}

/// Relies on secp256k1's schnorr::verify: whether the signature verifies
/// for the message under the x-only form of the key. Returns false when the
/// key or signature bytes do not parse.
#[verifier::external_body]
pub(crate) fn schnorr_verify(pk: &PublicKey, msg: &Vec<u8>, sig: &Signature) -> (r: bool)
    ensures
        r == schnorr_verifies(pk@, msg@, sig@),
{
    let Ok(pubkey) = secp256k1::PublicKey::from_slice(pk.bytes.as_slice()) else {
        return false;
    };
    let Ok(sig64) = <[u8; 64]>::try_from(sig.bytes.as_slice()) else {
        return false;
    };
    let signature = secp256k1::schnorr::Signature::from_byte_array(sig64);
    let (xonly, _parity) = pubkey.x_only_public_key();
    secp256k1::schnorr::verify(&signature, msg.as_slice(), &xonly).is_ok()
}

/// Relies on secp256k1's Keypair::from_secret_bytes: whether the bytes form
/// a valid secret key.
#[verifier::external_body]
pub(crate) fn secret_key_valid(sk: &SecretKey) -> (r: bool)
    ensures
        r == sk_valid(sk@),
{
    let Ok(bytes32) = <[u8; 32]>::try_from(sk.bytes.as_slice()) else {
        return false;
    };
    secp256k1::Keypair::from_secret_bytes(bytes32).is_ok()
}

/// Relies on secp256k1's schnorr::sign_no_aux_rand: a 64-byte BIP340
/// signature, deterministic in the key and message.
#[verifier::external_body]
pub(crate) fn schnorr_sign(sk: &SecretKey, msg: &Vec<u8>) -> (r: Signature)
    requires
        sk_valid(sk@),
    ensures
        r@ == schnorr_sig_of(sk@, msg@),
        r@.len() == 64,
{
    let bytes32 = <[u8; 32]>::try_from(sk.bytes.as_slice()).expect("key was checked");
    let keypair = secp256k1::Keypair::from_secret_bytes(bytes32).expect("key was checked");
    let sig = secp256k1::schnorr::sign_no_aux_rand(msg.as_slice(), &keypair);
    Signature { bytes: sig.as_byte_array().to_vec() }
}

/// Relies on secp256k1's Keypair public_key/serialize: the 33-byte
/// compressed public key of a valid secret key.
#[verifier::external_body]
pub(crate) fn derive_public_key(sk: &SecretKey) -> (r: PublicKey)
    requires
        sk_valid(sk@),
    ensures
        r@ == pubkey_of(sk@),
        r@.len() == 33,
{
    let bytes32 = <[u8; 32]>::try_from(sk.bytes.as_slice()).expect("key was checked");
    let keypair = secp256k1::Keypair::from_secret_bytes(bytes32).expect("key was checked");
    PublicKey { bytes: keypair.public_key().serialize().to_vec() }
}

} // verus!
