use sessionless::hex::IntoHex;
use sessionless::Sessionless;
use vstd::prelude::*;

verus! {

#[verifier::external_type_specification]
#[verifier::external_body]
pub struct ExSessionless(Sessionless);

/// Relies on `Sessionless::new`: a fresh keypair drawn from the operating
/// system's random source. Nothing is known of the key it draws.
pub assume_specification[ Sessionless::new ]() -> Sessionless;

/// Lowercase hexadecimal text.
pub open spec fn is_lower_hex(s: Seq<char>) -> bool {
    forall|i: int| 0 <= i < s.len() ==> (('0' <= #[trigger] s[i] && s[i] <= '9') || ('a' <= s[i] && s[i] <= 'f'))
}

/// The hex form of the compressed public key that `signer` holds.
pub uninterp spec fn public_key_hex(signer: Sessionless) -> Seq<char>;

/// The hex form of the compact signature that `signer` makes over `message`.
/// Signing is deterministic (RFC 6979 nonces), so this depends on the key and
/// the message alone.
pub uninterp spec fn signature_hex(signer: Sessionless, message: Seq<char>) -> Seq<char>;

/// Relies on `Sessionless::public_key` and `IntoHex::to_hex`: the 33-byte
/// compressed key, two lowercase hex digits per byte.
#[verifier::external_body]
pub(crate) fn public_key_of(signer: &Sessionless) -> (r: String)
    ensures
        r@ == public_key_hex(*signer),
        r@.len() == 66,
        is_lower_hex(r@),
{
    signer.public_key().to_hex()
}

/// Relies on `Sessionless::sign` (ECDSA over secp256k1 with RFC 6979 nonces, on
/// the Keccak-256 digest of the message's UTF-8 bytes) and `IntoHex::to_hex`: the
/// 64-byte compact signature, two lowercase hex digits per byte.
#[verifier::external_body]
pub(crate) fn sign_message(signer: &Sessionless, message: &str) -> (r: String)
    ensures
        r@ == signature_hex(*signer, message@),
        r@.len() == 128,
        is_lower_hex(r@),
{
    signer.sign(message).to_hex()
}

} // verus!
