use vstd::prelude::*;

use crate::error::CoreError;
use crate::primitives::{ccm_open, ccm_seal, ccm_seal_of, MAX_SEALED_LEN};

verus! {

/// A symmetric key for one direction of traffic, with the four-byte salt
/// that starts every nonce made under it.
#[derive(Debug, Clone, PartialEq, Eq)]
pub struct DirectionalKey {
    pub key: Vec<u8>,
    pub iv: Vec<u8>,
}

/// The two keys of a session: `app` protects what the controller sends,
/// `dev` what the device sends.
#[derive(Debug, Clone, PartialEq, Eq)]
pub struct LoginKeychain {
    pub dev: DirectionalKey,
    pub app: DirectionalKey,
}

/// The mathematical content of a directional key.
pub struct KeyModel {
    pub key: Seq<u8>,
    pub iv: Seq<u8>,
}

impl View for DirectionalKey {
    type V = KeyModel;

    open spec fn view(&self) -> KeyModel {
        KeyModel { key: self.key@, iv: self.iv@ }
    }
}

pub open spec fn key_valid(k: KeyModel) -> bool {
    k.key.len() == 16 && k.iv.len() == 4
}

impl DirectionalKey {
    pub open spec fn wf(&self) -> bool {
        key_valid(self@)
    }
}

impl LoginKeychain {
    pub open spec fn wf(&self) -> bool {
        self.dev.wf() && self.app.wf()
    }
}

/// A counter as four bytes, least significant first.
pub open spec fn counter_bytes(counter: u32) -> Seq<u8> {
    seq![
        (counter % 256) as u8,
        ((counter / 256) % 256) as u8,
        ((counter / 65536) % 256) as u8,
        ((counter / 16777216) % 256) as u8,
    ]
}

/// The nonce of a frame: the key's salt, four zero bytes, the counter bytes.
pub open spec fn frame_nonce(iv: Seq<u8>, counter_field: Seq<u8>) -> Seq<u8> {
    iv + seq![0u8, 0u8, 0u8, 0u8] + counter_field
}

/// The protected form of a payload: its counter bytes, then the payload
/// sealed under the key and the counter's nonce.
pub open spec fn sealed_frame(k: KeyModel, payload: Seq<u8>, counter: u32) -> Seq<u8> {
    counter_bytes(counter) + ccm_seal_of(
        k.key,
        frame_nonce(k.iv, counter_bytes(counter)),
        seq![],
        payload,
    )
}

/// Whether `data` carries `payload` sealed under `k` with the nonce of the
/// counter bytes that `data` begins with.
pub open spec fn opens_to(k: KeyModel, data: Seq<u8>, payload: Seq<u8>) -> bool {
    &&& data.len() >= 4
    &&& payload.len() <= MAX_SEALED_LEN
    &&& data.subrange(4, data.len() as int) == ccm_seal_of(
        k.key,
        frame_nonce(k.iv, data.subrange(0, 4)),
        seq![],
        payload,
    )
}

/// Shortest protected frame: four counter bytes and a four-byte tag.
pub const MIN_SEALED_FRAME: usize = 8;

/// A protected frame opens, under the same key, to the payload it was made
/// from.
pub proof fn lemma_sealed_frame_opens(k: KeyModel, payload: Seq<u8>, counter: u32)
    requires
        payload.len() <= MAX_SEALED_LEN,
    ensures
        opens_to(k, sealed_frame(k, payload, counter), payload),
{
    let d = sealed_frame(k, payload, counter);
    assert(d.subrange(0, 4) =~= counter_bytes(counter));
    assert(d.subrange(4, d.len() as int) =~= ccm_seal_of(
        k.key,
        frame_nonce(k.iv, counter_bytes(counter)),
        seq![],
        payload,
    ));
}

/// Protecting a payload takes nothing but its inputs: equal inputs give
/// equal frames.
pub proof fn lemma_sealed_frame_deterministic(
    k1: KeyModel,
    p1: Seq<u8>,
    c1: u32,
    k2: KeyModel,
    p2: Seq<u8>,
    c2: u32,
)
    requires
        k1 == k2,
        p1 == p2,
        c1 == c2,
    ensures
        sealed_frame(k1, p1, c1) == sealed_frame(k2, p2, c2),
{
}

fn counter_to_bytes(counter: u32) -> (r: Vec<u8>)
    ensures
        r@ == counter_bytes(counter),
{
    let mut r: Vec<u8> = Vec::with_capacity(4);
    r.push((counter % 256) as u8);
    r.push(((counter / 256) % 256) as u8);
    r.push(((counter / 65536) % 256) as u8);
    r.push(((counter / 16777216) % 256) as u8);
    assert(r@ =~= counter_bytes(counter));
    r
}

/// Appends the bytes of `src` to `dst`.
pub(crate) fn append_bytes(dst: &mut Vec<u8>, src: &[u8])
    ensures
        final(dst)@ == old(dst)@ + src@,
{
    let mut i: usize = 0;
    while i < src.len()
        invariant
            i <= src@.len(),
            dst@ == old(dst)@ + src@.subrange(0, i as int),
        decreases src@.len() - i,
    {
        dst.push(src[i]);
        i += 1;
        assert(src@.subrange(0, i as int) =~= src@.subrange(0, i - 1).push(src@[i - 1]));
    }
    assert(src@.subrange(0, i as int) =~= src@);
}

/// Copies `src[start..end]`.
pub(crate) fn copy_range(src: &[u8], start: usize, end: usize) -> (r: Vec<u8>)
    requires
        start <= end <= src@.len(),
    ensures
        r@ == src@.subrange(start as int, end as int),
{
    let mut r: Vec<u8> = Vec::with_capacity(end - start);
    let mut i: usize = start;
    while i < end
        invariant
            start <= i <= end,
            end <= src@.len(),
            r@ == src@.subrange(start as int, i as int),
        decreases end - i,
    {
        r.push(src[i]);
        i += 1;
        assert(r@ =~= src@.subrange(start as int, i as int));
    }
    r
}

fn nonce_for(iv: &Vec<u8>, counter_field: &[u8]) -> (r: Vec<u8>)
    ensures
        r@ == frame_nonce(iv@, counter_field@),
{
    let mut n: Vec<u8> = Vec::with_capacity(12);
    append_bytes(&mut n, iv.as_slice());
    n.push(0);
    n.push(0);
    n.push(0);
    n.push(0);
    append_bytes(&mut n, counter_field);
    assert(n@ =~= frame_nonce(iv@, counter_field@));
    n
}

/// Protects `payload` under `key` with the nonce made from `counter`. The
/// caller must not use one counter twice under one key.
pub fn encrypt(key: &DirectionalKey, payload: &[u8], counter: u32) -> (r: Vec<u8>)
    requires
        key.wf(),
        payload@.len() <= MAX_SEALED_LEN,
    ensures
        r@ == sealed_frame(key@, payload@, counter),
        r@.len() == payload@.len() + MIN_SEALED_FRAME,
        opens_to(key@, r@, payload@),
{
    proof {
        lemma_sealed_frame_opens(key@, payload@, counter);
    }
    let mut out = counter_to_bytes(counter);
    let nonce = nonce_for(&key.iv, out.as_slice());
    let no_aad: Vec<u8> = Vec::new();
    let sealed = ccm_seal(key.key.as_slice(), nonce.as_slice(), no_aad.as_slice(), payload);
    append_bytes(&mut out, sealed.as_slice());
    assert(no_aad@ =~= seq![]);
    out
}

/// Opens a frame made by `encrypt` under the same key.
pub fn decrypt(key: &DirectionalKey, data: &[u8]) -> (r: Result<Vec<u8>, CoreError>)
    requires
        key.wf(),
    ensures
        data@.len() < MIN_SEALED_FRAME <==> r == Err::<Vec<u8>, CoreError>(CoreError::MalformedCiphertext),
        r matches Ok(p) ==> opens_to(key@, data@, p@),
        data@.len() >= MIN_SEALED_FRAME ==> match r {
            Ok(p) => forall|q: Seq<u8>| #[trigger] opens_to(key@, data@, q) ==> q == p@,
            Err(e) => e == CoreError::AuthenticationFailed && forall|q: Seq<u8>|
                !#[trigger] opens_to(key@, data@, q),
        },
{
    if data.len() < MIN_SEALED_FRAME {
        return Err(CoreError::MalformedCiphertext);
    }
    let counter_field = copy_range(data, 0, 4);
    let body = copy_range(data, 4, data.len());
    let nonce = nonce_for(&key.iv, counter_field.as_slice());
    let no_aad: Vec<u8> = Vec::new();
    assert(no_aad@ =~= seq![]);
    match ccm_open(key.key.as_slice(), nonce.as_slice(), no_aad.as_slice(), body.as_slice()) {
        Some(p) => Ok(p),
        None => Err(CoreError::AuthenticationFailed),
    }
}

} // verus!
