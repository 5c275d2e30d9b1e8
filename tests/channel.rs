use ninebot::channel::{decrypt, encrypt, DirectionalKey};
use ninebot::error::CoreError;

fn key(seed: u8) -> DirectionalKey {
    DirectionalKey {
        key: (0..16).map(|i| seed.wrapping_add(i)).collect(),
        iv: vec![seed, 0x11, 0x22, 0x33],
    }
}

#[test]
fn encrypt_then_decrypt_gives_payload() {
    let k = key(1);
    for payload in [vec![], vec![0x04, 0x20, 0x03, 0x70, 0x01, 0x00], vec![0x5A; 300]] {
        for counter in [0u32, 1, 0x1234_5678, u32::MAX] {
            let sealed = encrypt(&k, &payload, counter);
            assert_eq!(sealed.len(), payload.len() + 8);
            assert_eq!(decrypt(&k, &sealed), Ok(payload.clone()));
        }
    }
}

#[test]
fn encrypt_is_deterministic() {
    let k = key(7);
    let payload = vec![1, 2, 3, 4, 5];
    assert_eq!(encrypt(&k, &payload, 42), encrypt(&k, &payload, 42));
}

#[test]
fn encrypt_puts_counter_first_and_hides_payload() {
    let k = key(3);
    let payload = vec![0u8; 16];
    let sealed = encrypt(&k, &payload, 0x0403_0201);
    assert_eq!(&sealed[..4], &[0x01, 0x02, 0x03, 0x04]);
    assert_ne!(&sealed[4..20], &payload[..]);
    assert_ne!(encrypt(&k, &payload, 1), encrypt(&k, &payload, 2));
}

#[test]
fn decrypt_with_other_key_fails() {
    let sealed = encrypt(&key(1), &[9, 8, 7], 5);
    assert_eq!(decrypt(&key(2), &sealed), Err(CoreError::AuthenticationFailed));
}

#[test]
fn decrypt_of_tampered_frame_fails() {
    let k = key(4);
    let sealed = encrypt(&k, &[1, 2, 3, 4], 9);
    for i in 0..sealed.len() {
        let mut bad = sealed.clone();
        bad[i] ^= 0x01;
        assert_eq!(decrypt(&k, &bad), Err(CoreError::AuthenticationFailed));
    }
}

#[test]
fn decrypt_of_short_frame_is_malformed() {
    let k = key(5);
    assert_eq!(decrypt(&k, &[]), Err(CoreError::MalformedCiphertext));
    assert_eq!(decrypt(&k, &[0; 7]), Err(CoreError::MalformedCiphertext));
    assert_eq!(decrypt(&k, &[0; 8]), Err(CoreError::AuthenticationFailed));
}
