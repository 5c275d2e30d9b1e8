use vstd::prelude::*;

use crate::channel::{append_bytes, copy_range, DirectionalKey, KeyModel, LoginKeychain};
use crate::error::CoreError;
use crate::primitives::{
    ccm_seal,
    ccm_seal_of,
    ecdh_of,
    hkdf_sha256,
    hkdf_sha256_of,
    hmac_sha256,
    hmac_sha256_of,
    is_curve_point,
    public_key_of,
    public_point_of,
    random_bytes_32,
    scalar_is_valid,
    shared_secret,
    MAX_SEALED_LEN,
};

verus! {

/// Length of the binding token that ties a login to its handshake.
pub const TOKEN_LEN: usize = 12;

/// HKDF info of the handshake: "mible-setup-info".
pub open spec fn setup_info() -> Seq<u8> {
    seq![
        0x6du8, 0x69, 0x62, 0x6c, 0x65, 0x2d, 0x73, 0x65,
        0x74, 0x75, 0x70, 0x2d, 0x69, 0x6e, 0x66, 0x6f,
    ]
}

/// HKDF info of the login: "mible-login-info".
pub open spec fn login_info() -> Seq<u8> {
    seq![
        0x6du8, 0x69, 0x62, 0x6c, 0x65, 0x2d, 0x6c, 0x6f,
        0x67, 0x69, 0x6e, 0x2d, 0x69, 0x6e, 0x66, 0x6f,
    ]
}

/// Associated data of the device identifier ciphertext: "devID".
pub open spec fn device_id_aad() -> Seq<u8> {
    seq![0x64u8, 0x65, 0x76, 0x49, 0x44]
}

/// Nonce of the device identifier ciphertext: the bytes 16 to 27.
pub open spec fn device_id_nonce() -> Seq<u8> {
    seq![0x10u8, 0x11, 0x12, 0x13, 0x14, 0x15, 0x16, 0x17, 0x18, 0x19, 0x1a, 0x1b]
}

/// Key material of a handshake, from the shared secret with an empty salt.
pub open spec fn setup_material(sk: Seq<u8>, peer_key: Seq<u8>) -> Seq<u8> {
    hkdf_sha256_of(seq![], ecdh_of(sk, peer_key), setup_info())
}

/// The binding token: the first twelve bytes of the handshake material.
pub open spec fn binding_token(sk: Seq<u8>, peer_key: Seq<u8>) -> Seq<u8> {
    setup_material(sk, peer_key).subrange(0, 12)
}

/// The peer info sealed under bytes 28 to 43 of the handshake material.
pub open spec fn device_id_ciphertext(sk: Seq<u8>, peer_key: Seq<u8>, peer_info: Seq<u8>) -> Seq<u8> {
    ccm_seal_of(
        setup_material(sk, peer_key).subrange(28, 44),
        device_id_nonce(),
        device_id_aad(),
        peer_info,
    )
}

/// What a completed handshake hands out.
pub struct HandshakeModel {
    pub token: Seq<u8>,
    pub device_id: Seq<u8>,
}

/// One step of the handshake on the state of a context: the state after it
/// and the outcome. The secret is taken whatever the outcome.
pub open spec fn handshake_step(state: Option<Seq<u8>>, peer_key: Seq<u8>, peer_info: Seq<u8>) -> (
    Option<Seq<u8>>,
    Result<HandshakeModel, CoreError>,
) {
    match state {
        None => (None, Err(CoreError::HandshakeAlreadyConsumed)),
        Some(sk) => if !is_curve_point(peer_key) {
            (None, Err(CoreError::InvalidPeerKey))
        } else if peer_info.len() > MAX_SEALED_LEN {
            (None, Err(CoreError::PayloadTooLarge))
        } else {
            (
                None,
                Ok(
                    HandshakeModel {
                        token: binding_token(sk, peer_key),
                        device_id: device_id_ciphertext(sk, peer_key, peer_info),
                    },
                ),
            )
        },
    }
}

/// A context gives its secret away once: a second step after any first one
/// fails with `HandshakeAlreadyConsumed` and hands out no token.
pub proof fn lemma_handshake_single_use(
    state: Option<Seq<u8>>,
    key1: Seq<u8>,
    info1: Seq<u8>,
    key2: Seq<u8>,
    info2: Seq<u8>,
)
    ensures
        handshake_step(handshake_step(state, key1, info1).0, key2, info2).1 == Err::<
            HandshakeModel,
            CoreError,
        >(CoreError::HandshakeAlreadyConsumed),
{
}

/// A peer key that is not a point of the curve ends the step with
/// `InvalidPeerKey`, and no token comes out.
pub proof fn lemma_invalid_peer_key(state: Option<Seq<u8>>, peer_key: Seq<u8>, peer_info: Seq<u8>)
    requires
        state is Some,
        !is_curve_point(peer_key),
    ensures
        handshake_step(state, peer_key, peer_info).1 == Err::<HandshakeModel, CoreError>(
            CoreError::InvalidPeerKey,
        ),
{
}

/// The ephemeral secret of one handshake, held until it is taken.
#[derive(Debug)]
pub struct KeyExchangeContext {
    secret: Option<Vec<u8>>,
}

impl View for KeyExchangeContext {
    type V = Option<Seq<u8>>;

    closed spec fn view(&self) -> Option<Seq<u8>> {
        match self.secret {
            Some(v) => Some(v@),
            None => None,
        }
    }
}

impl KeyExchangeContext {
    /// A held secret is a valid 32-byte scalar.
    pub closed spec fn wf(&self) -> bool {
        self.secret matches Some(v) ==> v@.len() == 32 && scalar_is_valid(v@)
    }

    /// Whether the secret is still held.
    pub fn is_live(&self) -> (r: bool)
        ensures
            r == self@ is Some,
    {
        self.secret.is_some()
    }
}

/// The device identifier ciphertext and the binding token of a handshake.
#[derive(Debug, Clone, PartialEq, Eq)]
pub struct HandshakeOutput {
    pub token: Vec<u8>,
    pub device_id: Vec<u8>,
}

impl View for HandshakeOutput {
    type V = HandshakeModel;

    open spec fn view(&self) -> HandshakeModel {
        HandshakeModel { token: self.token@, device_id: self.device_id@ }
    }
}

/// The model of a result that carries a handshake output.
pub open spec fn output_model(r: Result<HandshakeOutput, CoreError>) -> Result<HandshakeModel, CoreError> {
    match r {
        Ok(o) => Ok(o@),
        Err(e) => Err(e),
    }
}

/// Draws of a scalar that a handshake makes before it gives up. A uniform
/// draw falls outside the group order with probability below 2^-32, so all
/// of them fail only when the random source does.
pub const MAX_SCALAR_DRAWS: usize = 16;

/// A live context over the scalar `sk`, and its public point uncompressed;
/// `None` where `sk` is not 32 bytes of a nonzero scalar below the order.
pub fn context_from_scalar(sk: Vec<u8>) -> (r: Option<(KeyExchangeContext, Vec<u8>)>)
    ensures
        r is Some == scalar_is_valid(sk@),
        r matches Some((ctx, pk)) ==> ctx.wf() && ctx@ == Some(sk@) && pk@ == public_point_of(sk@)
            && pk@.len() == 65 && pk@[0] == 0x04,
{
    if sk.len() != 32 {
        return None;
    }
    match public_key_of(sk.as_slice()) {
        Some(pk) => Some((KeyExchangeContext { secret: Some(sk) }, pk)),
        None => None,
    }
}

/// Starts a handshake: a fresh P-256 key pair, whose secret stays in the
/// context and whose public point, uncompressed, is returned. A draw that is
/// no valid scalar is drawn again; the random source failing ends the call.
pub fn begin_handshake() -> (r: Result<(KeyExchangeContext, Vec<u8>), CoreError>)
    ensures
        match r {
            Ok((ctx, pk)) => ctx.wf() && (ctx@ matches Some(sk) && scalar_is_valid(sk)
                && pk@ == public_point_of(sk) && pk@.len() == 65 && pk@[0] == 0x04),
            Err(e) => e == CoreError::EntropyUnavailable,
        },
{
    let mut draws: usize = 0;
    while draws < MAX_SCALAR_DRAWS
        invariant
            draws <= MAX_SCALAR_DRAWS,
        decreases MAX_SCALAR_DRAWS - draws,
    {
        let sk = match random_bytes_32() {
            Some(b) => b,
            None => return Err(CoreError::EntropyUnavailable),
        };
        if let Some(pair) = context_from_scalar(sk) {
            return Ok(pair);
        }
        draws += 1;
    }
    Err(CoreError::EntropyUnavailable)
}

fn setup_info_bytes() -> (r: Vec<u8>)
    ensures
        r@ == setup_info(),
{
    let r = vec![
        0x6du8, 0x69, 0x62, 0x6c, 0x65, 0x2d, 0x73, 0x65,
        0x74, 0x75, 0x70, 0x2d, 0x69, 0x6e, 0x66, 0x6f,
    ];
    assert(r@ =~= setup_info());
    r
}

fn login_info_bytes() -> (r: Vec<u8>)
    ensures
        r@ == login_info(),
{
    let r = vec![
        0x6du8, 0x69, 0x62, 0x6c, 0x65, 0x2d, 0x6c, 0x6f,
        0x67, 0x69, 0x6e, 0x2d, 0x69, 0x6e, 0x66, 0x6f,
    ];
    assert(r@ =~= login_info());
    r
}

impl KeyExchangeContext {
    /// Completes the handshake with the peer's public key and info. The
    /// secret is taken on every call that finds it, so a context completes
    /// at most once.
    pub fn complete_handshake(&mut self, peer_key: &[u8], peer_info: &[u8]) -> (r: Result<
        HandshakeOutput,
        CoreError,
    >)
        requires
            old(self).wf(),
        ensures
            final(self).wf(),
            (final(self)@, output_model(r)) == handshake_step(old(self)@, peer_key@, peer_info@),
            r matches Ok(o) ==> o.token@.len() == TOKEN_LEN && o.device_id@.len()
                == peer_info@.len() + 4,
    {
        let sk = match self.secret.take() {
            Some(s) => s,
            None => return Err(CoreError::HandshakeAlreadyConsumed),
        };
        let shared = match shared_secret(sk.as_slice(), peer_key) {
            Some(s) => s,
            None => return Err(CoreError::InvalidPeerKey),
        };
        if peer_info.len() > MAX_SEALED_LEN {
            return Err(CoreError::PayloadTooLarge);
        }
        let info = setup_info_bytes();
        let no_salt: Vec<u8> = Vec::new();
        let material = hkdf_sha256(no_salt.as_slice(), shared.as_slice(), info.as_slice());
        assert(no_salt@ =~= seq![]);
        let token = copy_range(material.as_slice(), 0, 12);
        let did_key = copy_range(material.as_slice(), 28, 44);
        let nonce = vec![
            0x10u8, 0x11, 0x12, 0x13, 0x14, 0x15, 0x16, 0x17, 0x18, 0x19, 0x1a, 0x1b,
        ];
        let aad = vec![0x64u8, 0x65, 0x76, 0x49, 0x44];
        assert(nonce@ =~= device_id_nonce());
        assert(aad@ =~= device_id_aad());
        let device_id = ccm_seal(did_key.as_slice(), nonce.as_slice(), aad.as_slice(), peer_info);
        Ok(HandshakeOutput { token, device_id })
    }
}

/// The HKDF salt of a login: the local random, then the peer's.
pub open spec fn login_salt(local_random: Seq<u8>, peer_random: Seq<u8>) -> Seq<u8> {
    local_random + peer_random
}

/// Key material of a login, from the token under the login salt.
pub open spec fn login_material(local_random: Seq<u8>, peer_random: Seq<u8>, token: Seq<u8>) -> Seq<u8> {
    hkdf_sha256_of(login_salt(local_random, peer_random), token, login_info())
}

/// Device-to-controller key: bytes 0 to 15, salt bytes 32 to 35.
pub open spec fn dev_key_of(m: Seq<u8>) -> KeyModel {
    KeyModel { key: m.subrange(0, 16), iv: m.subrange(32, 36) }
}

/// Controller-to-device key: bytes 16 to 31, salt bytes 36 to 39.
pub open spec fn app_key_of(m: Seq<u8>) -> KeyModel {
    KeyModel { key: m.subrange(16, 32), iv: m.subrange(36, 40) }
}

/// The confirmation bytes relayed to the peer: the HMAC of the login salt
/// under the controller-to-device key.
pub open spec fn login_response(local_random: Seq<u8>, peer_random: Seq<u8>, token: Seq<u8>) -> Seq<u8> {
    hmac_sha256_of(
        app_key_of(login_material(local_random, peer_random, token)).key,
        login_salt(local_random, peer_random),
    )
}

/// Derives the directional keys of a session from the binding token and the
/// two randoms, and the confirmation bytes for the peer. The inputs are
/// read, never changed.
pub fn derive_session_keys(local_random: &[u8], peer_random: &[u8], token: &[u8]) -> (r: Result<
    (Vec<u8>, LoginKeychain),
    CoreError,
>)
    ensures
        token@.len() != TOKEN_LEN ==> r == Err::<(Vec<u8>, LoginKeychain), CoreError>(
            CoreError::InvalidTokenLength,
        ),
        token@.len() == TOKEN_LEN ==> (r matches Ok((info, keys)) && keys.wf()
            && info@ == login_response(local_random@, peer_random@, token@)
            && keys.dev@ == dev_key_of(login_material(local_random@, peer_random@, token@))
            && keys.app@ == app_key_of(login_material(local_random@, peer_random@, token@))),
{
    if token.len() != TOKEN_LEN {
        return Err(CoreError::InvalidTokenLength);
    }
    let mut salt: Vec<u8> = Vec::new();
    append_bytes(&mut salt, local_random);
    append_bytes(&mut salt, peer_random);
    assert(salt@ =~= login_salt(local_random@, peer_random@));
    let info = login_info_bytes();
    let material = hkdf_sha256(salt.as_slice(), token, info.as_slice());
    let dev = DirectionalKey {
        key: copy_range(material.as_slice(), 0, 16),
        iv: copy_range(material.as_slice(), 32, 36),
    };
    let app = DirectionalKey {
        key: copy_range(material.as_slice(), 16, 32),
        iv: copy_range(material.as_slice(), 36, 40),
    };
    let response = hmac_sha256(app.key.as_slice(), salt.as_slice());
    Ok((response, LoginKeychain { dev, app }))
}

} // verus!
