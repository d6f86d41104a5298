//! The signature scheme: a closed set of variants, each with fixed signature
//! and public-key widths, offering sign and recover over 32-byte digests.

use vstd::prelude::*;

verus! {

/// Signature width of the secp256k1 scheme: 64 bytes of (r, s) followed by
/// one recovery-id byte.
pub const SIGNATURE_BYTES_LEN: usize = 65;

/// Public-key width of the secp256k1 scheme: the uncompressed point without
/// its format tag.
pub const PUBKEY_BYTES_LEN: usize = 64;

/// The closed set of signature schemes an artifact can carry. Only `Secp` is
/// supported here; any other tag is rejected explicitly, never defaulted.
#[derive(Clone, Copy, PartialEq, Eq, Structural, Debug)]
pub enum Scheme {
    Secp,
    Sm2,
}

/// Named result of deriving the secp256k1 public key of a secret key:
/// `None` when the 32 bytes are not a valid key, the 64 public-key bytes
/// otherwise. A pure function of the secret-key bytes.
pub uninterp spec fn pubkey_of(sk: Seq<u8>) -> Option<Seq<u8>>;

/// Named result of signing a 32-byte digest with a secret key under
/// secp256k1: `None` when the key is invalid, the 65 signature bytes
/// otherwise. Deterministic: libsecp256k1 draws its nonce by RFC 6979 from
/// the key and the digest alone.
pub uninterp spec fn sign_of(h: Seq<u8>, sk: Seq<u8>) -> Option<Seq<u8>>;

/// Named result of recovering a public key from a 32-byte digest and a
/// 65-byte signature: `None` when the signature bytes are not a valid
/// recoverable signature for that digest. A pure function of its arguments.
pub uninterp spec fn recover_of(h: Seq<u8>, sig: Seq<u8>) -> Option<Seq<u8>>;

/// Relies on libsecp256k1's `SecretKey::parse_slice`,
/// `PublicKey::from_secret_key` and `PublicKey::serialize`: parsing fails
/// exactly on invalid key bytes, derivation is a pure function of the key,
/// and the serialized form is 65 bytes whose first is the constant tag 0x04,
/// dropped here.
#[verifier::external_body]
pub(crate) fn secp_pubkey(sk: &[u8]) -> (r: Option<Vec<u8>>)
    ensures
        match r {
            Some(p) => pubkey_of(sk@) == Some(p@) && p@.len() == PUBKEY_BYTES_LEN,
            None => pubkey_of(sk@) is None,
        },
{
    let seckey = libsecp256k1::SecretKey::parse_slice(sk).ok()?;
    let pubkey = libsecp256k1::PublicKey::from_secret_key(&seckey);
    Some(pubkey.serialize()[1..].to_vec())
}

/// Relies on libsecp256k1's `sign`: deterministic (RFC 6979) and infallible
/// once `SecretKey::parse_slice` accepts the key, so it fails exactly when
/// public-key derivation fails. The serialized signature is the 64 bytes of
/// `Signature::serialize` followed by the recovery-id byte. Recovering with
/// libsecp256k1's `recover` from the same digest returns the signer's public
/// key: that is the documented purpose of a recoverable ECDSA signature.
#[verifier::external_body]
pub(crate) fn secp_sign(h: &[u8], sk: &[u8]) -> (r: Option<Vec<u8>>)
    requires
        h@.len() == 32,
    ensures
        match r {
            Some(s) => sign_of(h@, sk@) == Some(s@) && s@.len() == SIGNATURE_BYTES_LEN
                && pubkey_of(sk@) is Some
                && recover_of(h@, s@) == pubkey_of(sk@),
            None => sign_of(h@, sk@) is None && pubkey_of(sk@) is None,
        },
{
    let seckey = libsecp256k1::SecretKey::parse_slice(sk).ok()?;
    let message = libsecp256k1::Message::parse_slice(h).ok()?;
    let (signature, recovery_id) = libsecp256k1::sign(&message, &seckey);
    let mut out = signature.serialize().to_vec();
    out.push(recovery_id.serialize());
    Some(out)
}

/// Relies on libsecp256k1's `Signature::parse_standard_slice`,
/// `RecoveryId::parse` and `recover`: recovery is a pure function of the
/// digest and the signature bytes, fails exactly when they do not form a
/// valid recoverable signature, and returns a key serialized as 65 bytes
/// whose first is the constant tag 0x04, dropped here.
#[verifier::external_body]
pub(crate) fn secp_recover(h: &[u8], sig: &[u8]) -> (r: Option<Vec<u8>>)
    requires
        h@.len() == 32,
        sig@.len() == SIGNATURE_BYTES_LEN,
    ensures
        match r {
            Some(p) => recover_of(h@, sig@) == Some(p@) && p@.len() == PUBKEY_BYTES_LEN,
            None => recover_of(h@, sig@) is None,
        },
{
    let message = libsecp256k1::Message::parse_slice(h).ok()?;
    let signature = libsecp256k1::Signature::parse_standard_slice(&sig[0..64]).ok()?;
    let recovery_id = libsecp256k1::RecoveryId::parse(sig[64]).ok()?;
    let pubkey = libsecp256k1::recover(&message, &signature, &recovery_id).ok()?;
    Some(pubkey.serialize()[1..].to_vec())
}

/// The public key belonging to a secret key, or `None` when the 32 bytes are
/// not a valid secp256k1 key.
pub fn public_from_secret(sk: &[u8]) -> (r: Option<Vec<u8>>)
    ensures
        match r {
            Some(p) => pubkey_of(sk@) == Some(p@) && p@.len() == PUBKEY_BYTES_LEN,
            None => pubkey_of(sk@) is None,
        },
{
    secp_pubkey(sk)
}

} // verus!
