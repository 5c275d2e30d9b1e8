use ninebot::error::CoreError;
use ninebot::handshake::{begin_handshake, context_from_scalar, derive_session_keys};

#[test]
fn both_sides_of_a_handshake_share_the_token() {
    let (mut a, pk_a) = begin_handshake().unwrap();
    let (mut b, pk_b) = begin_handshake().unwrap();
    assert_eq!(pk_a.len(), 65);
    assert_eq!(pk_a[0], 0x04);
    assert_ne!(pk_a, pk_b);
    let info = vec![0xAA; 20];
    let out_a = a.complete_handshake(&pk_b, &info).unwrap();
    let out_b = b.complete_handshake(&pk_a, &info).unwrap();
    assert_eq!(out_a.token.len(), 12);
    assert_eq!(out_a.token, out_b.token);
    assert_eq!(out_a.device_id.len(), info.len() + 4);
    assert_eq!(out_a.device_id, out_b.device_id);
    assert_ne!(&out_a.device_id[..20], &info[..]);
}

#[test]
fn handshake_completes_once() {
    let (mut a, _) = begin_handshake().unwrap();
    let (_, pk_b) = begin_handshake().unwrap();
    assert!(a.is_live());
    assert!(a.complete_handshake(&pk_b, &[1, 2, 3]).is_ok());
    assert!(!a.is_live());
    assert_eq!(
        a.complete_handshake(&pk_b, &[1, 2, 3]),
        Err(CoreError::HandshakeAlreadyConsumed)
    );
}

#[test]
fn handshake_refuses_point_off_curve() {
    let (mut a, pk_a) = begin_handshake().unwrap();
    let mut bad = pk_a.clone();
    bad[64] ^= 0x01;
    assert_eq!(a.complete_handshake(&bad, &[1]), Err(CoreError::InvalidPeerKey));
    assert_eq!(a.complete_handshake(&pk_a, &[1]), Err(CoreError::HandshakeAlreadyConsumed));
}

#[test]
fn handshake_refuses_identity_and_garbage() {
    let (mut a, _) = begin_handshake().unwrap();
    assert_eq!(a.complete_handshake(&[0x00], &[1]), Err(CoreError::InvalidPeerKey));
    let (mut b, _) = begin_handshake().unwrap();
    assert_eq!(b.complete_handshake(&[0x04; 65], &[1]), Err(CoreError::InvalidPeerKey));
}

#[test]
fn login_refuses_token_of_wrong_length() {
    for len in [0usize, 11, 13, 32] {
        let token = vec![7u8; len];
        assert_eq!(
            derive_session_keys(&[1; 16], &[2; 16], &token).map(|_| ()),
            Err(CoreError::InvalidTokenLength)
        );
    }
}

#[test]
fn login_derives_distinct_directional_keys() {
    let local = vec![1u8; 16];
    let peer = vec![2u8; 16];
    let token = vec![3u8; 12];
    let (info, keys) = derive_session_keys(&local, &peer, &token).unwrap();
    assert_eq!(info.len(), 32);
    assert_ne!(info, [local.clone(), peer.clone()].concat());
    assert_eq!(keys.app.key.len(), 16);
    assert_eq!(keys.dev.key.len(), 16);
    assert_eq!(keys.app.iv.len(), 4);
    assert_ne!(keys.app.key, keys.dev.key);
    assert_ne!(keys.app.key, token[..12].to_vec().repeat(2)[..16].to_vec());
    assert_eq!(local, vec![1u8; 16]);
    assert_eq!(peer, vec![2u8; 16]);
    let (info2, keys2) = derive_session_keys(&local, &peer, &token).unwrap();
    assert_eq!(info, info2);
    assert_eq!(keys, keys2);
    let (_, keys3) = derive_session_keys(&peer, &local, &token).unwrap();
    assert_ne!(keys, keys3);
}

fn hex(s: &str) -> Vec<u8> {
    (0..s.len()).step_by(2).map(|i| u8::from_str_radix(&s[i..i + 2], 16).unwrap()).collect()
}

#[test]
fn scalar_one_gives_the_generator() {
    let mut one = vec![0u8; 32];
    one[31] = 1;
    let (ctx, pk) = context_from_scalar(one).unwrap();
    assert!(ctx.is_live());
    let g = [
        hex("04"),
        hex("6B17D1F2E12C4247F8BCE6E563A440F277037D812DEB33A0F4A13945D898C296"),
        hex("4FE342E2FE1A7F9B8EE7EB4A7C0F9E162BCE33576B315ECECBB6406837BF51F5"),
    ]
    .concat();
    assert_eq!(pk, g);
}

#[test]
fn scalars_outside_the_order_are_refused() {
    let order = hex("FFFFFFFF00000000FFFFFFFFFFFFFFFFBCE6FAADA7179E84F3B9CAC2FC632551");
    let mut below = order.clone();
    below[31] -= 1;
    assert!(context_from_scalar(vec![0u8; 32]).is_none());
    assert!(context_from_scalar(order).is_none());
    assert!(context_from_scalar(vec![0xFF; 32]).is_none());
    assert!(context_from_scalar(vec![1u8; 31]).is_none());
    assert!(context_from_scalar(below).is_some());
}

#[test]
fn fixed_scalars_agree_on_the_token() {
    let mut a_sk = vec![0u8; 32];
    a_sk[31] = 7;
    let mut b_sk = vec![0u8; 32];
    b_sk[31] = 11;
    let (mut a, pk_a) = context_from_scalar(a_sk).unwrap();
    let (mut b, pk_b) = context_from_scalar(b_sk).unwrap();
    let ta = a.complete_handshake(&pk_b, &[1, 2]).unwrap();
    let tb = b.complete_handshake(&pk_a, &[1, 2]).unwrap();
    assert_eq!(ta, tb);
    assert_eq!(ta.device_id.len(), 6);
}
