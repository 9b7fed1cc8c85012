//! The signature verifier: decides whether a signature over a message was
//! made with the private key of a wallet.
//!
//! A wallet is the hexadecimal text of an Ed25519 public key. Verification
//! reads nothing but its arguments, so it may be repeated and run from many
//! callers at once.

use vstd::prelude::*;
use crate::encoding::{decode_hex, hex_value, is_hex_text};

verus! {

/// The length of an Ed25519 public key, in bytes.
pub const PUBLIC_KEY_BYTES: usize = 32;

/// The length of an Ed25519 signature, in bytes.
pub const SIGNATURE_BYTES: usize = 64;

/// Whether `ring` accepts `signature` as an Ed25519 signature over `message`
/// under `public_key`.
pub uninterp spec fn ed25519_accepts(public_key: Seq<u8>, message: Seq<u8>, signature: Seq<u8>) -> bool;

/// Checks an Ed25519 signature with `ring::signature::UnparsedPublicKey::verify`.
///
/// Trusted: the answer depends on the three byte strings alone; it is given
/// the name `ed25519_accepts`. A key or signature that `ring` cannot parse
/// makes it answer with an error, which is reported here as `false`.
#[verifier::external_body]
fn ed25519_verify(public_key: &[u8], message: &[u8], signature: &[u8]) -> (accepted: bool)
    ensures
        accepted == ed25519_accepts(public_key@, message@, signature@),
{
    ring::signature::UnparsedPublicKey::new(&ring::signature::ED25519, public_key).verify(
        message,
        signature,
    ).is_ok()
}

/// A wallet that names a key: hexadecimal text of `PUBLIC_KEY_BYTES` bytes.
pub open spec fn is_wallet(wallet: Seq<char>) -> bool {
    is_hex_text(wallet) && wallet.len() == 2 * PUBLIC_KEY_BYTES
}

/// Whether `signature` proves that the holder of `wallet` signed `message`:
/// the wallet names a key, the signature has the length of one, and Ed25519
/// verification under that key accepts it over exactly these message bytes.
pub open spec fn signature_accepted(wallet: Seq<char>, message: Seq<u8>, signature: Seq<u8>) -> bool {
    &&& is_wallet(wallet)
    &&& signature.len() == SIGNATURE_BYTES
    &&& ed25519_accepts(hex_value(wallet), message, signature)
}

/// As `signature_accepted`, for a signature that arrives as hexadecimal
/// text. Text that does not decode proves nothing.
pub open spec fn signed_by(wallet: Seq<char>, message: Seq<u8>, signature: Seq<char>) -> bool {
    is_hex_text(signature) && signature_accepted(wallet, message, hex_value(signature))
}

/// The public key that a wallet names, or `None` for a wallet that names
/// none.
pub fn wallet_key(wallet: &str) -> (key: Option<Vec<u8>>)
    ensures
        key is Some <==> is_wallet(wallet@),
        key matches Some(k) ==> k@ == hex_value(wallet@),
{
    match decode_hex(wallet) {
        None => None,
        Some(key) => {
            if key.len() == PUBLIC_KEY_BYTES {
                Some(key)
            } else {
                None
            }
        },
    }
}

/// Verifies `signature` over `message` for `wallet`. A malformed wallet or
/// signature gives `false`.
pub fn verify(wallet: &str, message: &[u8], signature: &[u8]) -> (ok: bool)
    ensures
        ok == signature_accepted(wallet@, message@, signature@),
{
    match wallet_key(wallet) {
        None => false,
        Some(key) => {
            if signature.len() != SIGNATURE_BYTES {
                false
            } else {
                ed25519_verify(key.as_slice(), message, signature)
            }
        },
    }
}

/// Verifies a signature given as hexadecimal text.
pub fn verify_encoded(wallet: &str, message: &[u8], signature: &str) -> (ok: bool)
    ensures
        ok == signed_by(wallet@, message@, signature@),
{
    match decode_hex(signature) {
        None => false,
        Some(bytes) => verify(wallet, message, bytes.as_slice()),
    }
}

} // verus!
