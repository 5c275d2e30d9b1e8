use vstd::prelude::*;

use ccm::aead::{Aead, KeyInit, Payload};
use hmac::Mac;
use p256::elliptic_curve::sec1::ToEncodedPoint;
use rand_core::RngCore;

verus! {

/// Largest plaintext that CCM with a twelve-byte nonce can protect.
pub const MAX_SEALED_LEN: usize = 0xFF_FFFF;

/// The value of bytes read as a big-endian unsigned integer.
pub open spec fn be_value(b: Seq<u8>) -> nat
    decreases b.len(),
{
    if b.len() == 0 {
        0
    } else {
        be_value(b.drop_last()) * 256 + b.last() as nat
    }
}

/// The order of the P-256 group.
pub open spec fn p256_order() -> nat {
    0xFFFF_FFFF_0000_0000_FFFF_FFFF_FFFF_FFFFnat * 0x1_0000_0000_0000_0000nat
        * 0x1_0000_0000_0000_0000nat + 0xBCE6_FAAD_A717_9E84_F3B9_CAC2_FC63_2551nat
}

/// Whether 32 bytes are, big-endian, a nonzero scalar below the P-256 order.
pub open spec fn scalar_is_valid(sk: Seq<u8>) -> bool {
    sk.len() == 32 && 0 < be_value(sk) < p256_order()
}

/// The uncompressed SEC1 encoding of the P-256 public point of a scalar.
pub uninterp spec fn public_point_of(sk: Seq<u8>) -> Seq<u8>;

/// Whether bytes are a SEC1 encoding of a P-256 point other than the identity.
pub uninterp spec fn is_curve_point(pk: Seq<u8>) -> bool;

/// The x-coordinate of the P-256 Diffie-Hellman point of a scalar and a point.
pub uninterp spec fn ecdh_of(sk: Seq<u8>, pk: Seq<u8>) -> Seq<u8>;

/// Sixty-four bytes of HKDF-SHA256 output.
pub uninterp spec fn hkdf_sha256_of(salt: Seq<u8>, ikm: Seq<u8>, info: Seq<u8>) -> Seq<u8>;

/// The HMAC-SHA256 tag of a message.
pub uninterp spec fn hmac_sha256_of(key: Seq<u8>, msg: Seq<u8>) -> Seq<u8>;

/// AES-128-CCM ciphertext followed by its four-byte tag.
pub uninterp spec fn ccm_seal_of(key: Seq<u8>, nonce: Seq<u8>, aad: Seq<u8>, pt: Seq<u8>) -> Seq<u8>;

/// Relies on rand_core's `OsRng::try_fill_bytes`: it fills the buffer from
/// the operating system's generator, or reports that it could not.
#[verifier::external_body]
pub(crate) fn random_bytes_32() -> (r: Option<Vec<u8>>)
    ensures
        r matches Some(v) ==> v@.len() == 32,
{
    let mut buf = vec![0u8; 32];
    match rand_core::OsRng.try_fill_bytes(&mut buf) {
        Ok(()) => Some(buf),
        Err(_) => None,
    }
}

/// Relies on p256's `SecretKey::from_slice`, which accepts 32 bytes exactly
/// when they are a nonzero scalar below the group order, and on `public_key`
/// with `to_encoded_point(false)`: a public key is never the identity, so
/// its uncompressed encoding is the tag 0x04 and two 32-byte coordinates.
#[verifier::external_body]
pub(crate) fn public_key_of(sk: &[u8]) -> (r: Option<Vec<u8>>)
    requires
        sk@.len() == 32,
    ensures
        r is Some == scalar_is_valid(sk@),
        r matches Some(v) ==> v@ == public_point_of(sk@) && v@.len() == 65 && v@[0] == 0x04,
{
    match p256::SecretKey::from_slice(sk) {
        Ok(secret) => Some(secret.public_key().to_encoded_point(false).as_bytes().to_vec()),
        Err(_) => None,
    }
}

/// Relies on p256's `PublicKey::from_sec1_bytes`, which refuses bytes that
/// encode no point of the curve or the identity, and on
/// `ecdh::diffie_hellman`, whose shared secret is 32 bytes.
#[verifier::external_body]
pub(crate) fn shared_secret(sk: &[u8], pk: &[u8]) -> (r: Option<Vec<u8>>)
    requires
        sk@.len() == 32,
        scalar_is_valid(sk@),
    ensures
        r is Some == is_curve_point(pk@),
        r matches Some(v) ==> v@ == ecdh_of(sk@, pk@) && v@.len() == 32,
{
    let secret = p256::SecretKey::from_slice(sk).expect("scalar checked by the caller");
    match p256::PublicKey::from_sec1_bytes(pk) {
        Ok(peer) => Some(
            p256::ecdh::diffie_hellman(secret.to_nonzero_scalar(), peer.as_affine())
                .raw_secret_bytes().to_vec(),
        ),
        Err(_) => None,
    }
}

/// Relies on hkdf's `Hkdf::<Sha256>::new` and `expand`, which fills any
/// buffer of at most 8160 bytes.
#[verifier::external_body]
pub(crate) fn hkdf_sha256(salt: &[u8], ikm: &[u8], info: &[u8]) -> (r: Vec<u8>)
    ensures
        r@ == hkdf_sha256_of(salt@, ikm@, info@),
        r@.len() == 64,
{
    let mut okm = vec![0u8; 64];
    let _ = hkdf::Hkdf::<sha2::Sha256>::new(Some(salt), ikm).expand(info, &mut okm);
    okm
}

/// Relies on hmac's `Hmac::<Sha256>`, which takes a key of any length and
/// gives a 32-byte tag.
#[verifier::external_body]
pub(crate) fn hmac_sha256(key: &[u8], msg: &[u8]) -> (r: Vec<u8>)
    ensures
        r@ == hmac_sha256_of(key@, msg@),
        r@.len() == 32,
{
    let mut mac = <hmac::Hmac<sha2::Sha256> as Mac>::new_from_slice(key)
        .expect("HMAC takes keys of any length");
    mac.update(msg);
    mac.finalize().into_bytes().to_vec()
}

/// Relies on ccm's `Ccm::<Aes128, U4, U12>::encrypt`, which appends a
/// four-byte tag and refuses only messages over `MAX_SEALED_LEN` bytes.
#[verifier::external_body]
pub(crate) fn ccm_seal(key: &[u8], nonce: &[u8], aad: &[u8], pt: &[u8]) -> (r: Vec<u8>)
    requires
        key@.len() == 16,
        nonce@.len() == 12,
        pt@.len() <= MAX_SEALED_LEN,
    ensures
        r@ == ccm_seal_of(key@, nonce@, aad@, pt@),
        r@.len() == pt@.len() + 4,
{
    let cipher = ccm::Ccm::<aes::Aes128, ccm::consts::U4, ccm::consts::U12>::new_from_slice(key).expect("key length checked by the caller");
    cipher.encrypt(ccm::Nonce::from_slice(nonce), Payload { msg: pt, aad })
        .expect("length checked by the caller")
}

/// Relies on ccm's `Ccm::<Aes128, U4, U12>::decrypt`: it deciphers in
/// counter mode, recomputes the tag and returns the plaintext only when the
/// tag matches, so exactly when sealing that plaintext gives the input back;
/// for a fixed key and nonce, counter mode maps each plaintext to its own
/// ciphertext.
#[verifier::external_body]
pub(crate) fn ccm_open(key: &[u8], nonce: &[u8], aad: &[u8], ct: &[u8]) -> (r: Option<Vec<u8>>)
    requires
        key@.len() == 16,
        nonce@.len() == 12,
    ensures
        r matches Some(v) ==> v@.len() <= MAX_SEALED_LEN && ccm_seal_of(key@, nonce@, aad@, v@) == ct@,
        r matches Some(v) ==> forall|p: Seq<u8>|
            p.len() <= MAX_SEALED_LEN && #[trigger] ccm_seal_of(key@, nonce@, aad@, p) == ct@ ==> p == v@,
        r is None ==> forall|p: Seq<u8>|
            p.len() <= MAX_SEALED_LEN ==> #[trigger] ccm_seal_of(key@, nonce@, aad@, p) != ct@,
{
    let cipher = ccm::Ccm::<aes::Aes128, ccm::consts::U4, ccm::consts::U12>::new_from_slice(key).expect("key length checked by the caller");
    cipher.decrypt(ccm::Nonce::from_slice(nonce), Payload { msg: ct, aad }).ok()
}

} // verus!
