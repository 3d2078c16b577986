use iris::cipher::get_cipher;
use iris::errors::{IrisError, SpakeFailure};
use iris::message::CipherType;
use iris::pake::{identity_for_room, KeyExchange};

#[test]
fn cipher_needs_a_32_byte_key() {
    assert!(matches!(
        get_cipher(CipherType::Aes256Gcm, &[0u8; 16]),
        Err(IrisError::CryptoInitError)
    ));
    assert!(get_cipher(CipherType::XChaCha20Poly1305, &[7u8; 32]).is_ok());
}

#[test]
fn sealed_messages_open_back() {
    for (t, nonce_len) in [(CipherType::Aes256Gcm, 12usize), (CipherType::XChaCha20Poly1305, 24)] {
        let c = get_cipher(t, &[9u8; 32]).unwrap();
        let plain = b"Hello, world!\n".to_vec();
        let sealed = c.encrypt(&plain).unwrap();
        assert_eq!(sealed.len(), nonce_len + plain.len() + 16);
        assert_ne!(&sealed[nonce_len..nonce_len + plain.len()], &plain[..]);
        assert_eq!(c.decrypt(&sealed).unwrap(), plain);
        let again = c.encrypt(&plain).unwrap();
        assert_ne!(sealed, again);
    }
}

#[test]
fn tampered_or_short_frames_fail_to_open() {
    let c = get_cipher(CipherType::XChaCha20Poly1305, &[1u8; 32]).unwrap();
    let mut sealed = c.encrypt(b"chunk").unwrap();
    let last = sealed.len() - 1;
    sealed[last] ^= 1;
    assert!(matches!(c.decrypt(&sealed), Err(IrisError::CryptoDecryptionError)));
    assert!(matches!(c.decrypt(&[0u8; 10]), Err(IrisError::CryptoDecryptionError)));
    let other = get_cipher(CipherType::XChaCha20Poly1305, &[2u8; 32]).unwrap();
    let sealed = c.encrypt(b"chunk").unwrap();
    assert!(matches!(other.decrypt(&sealed), Err(IrisError::CryptoDecryptionError)));
}

#[test]
fn generated_keys_are_32_bytes() {
    let c = get_cipher(CipherType::Aes256Gcm, &[0u8; 32]).unwrap();
    assert_eq!(c.generate_key().len(), 32);
}

#[test]
fn pake_identity_names_the_room() {
    assert_eq!(identity_for_room(1234), b"iris-1234".to_vec());
    assert_eq!(identity_for_room(0), b"iris-0".to_vec());
}

#[test]
fn matching_passphrases_agree_on_a_key() {
    let a = KeyExchange::start(2000, "this-is-secret");
    let b = KeyExchange::start(2000, "this-is-secret");
    let share_a = a.outbound_share();
    let share_b = b.outbound_share();
    assert_eq!(share_a.len(), 33);
    assert_eq!(share_a[0], b'S');
    let key_a = a.finish(&share_b).unwrap();
    let key_b = b.finish(&share_a).unwrap();
    assert_eq!(key_a.len(), 32);
    assert_eq!(key_a, key_b);
}

#[test]
fn different_passphrases_disagree() {
    let a = KeyExchange::start(2000, "this-is-secret");
    let b = KeyExchange::start(2000, "this-is-wrong");
    let key_a = a.finish(&b.outbound_share()).unwrap();
    let key_b = b.finish(&a.outbound_share()).unwrap();
    assert_ne!(key_a, key_b);
    let c = KeyExchange::start(2001, "this-is-secret");
    let key_c = c.finish(&a.outbound_share()).unwrap();
    let key_a2 = a.finish(&c.outbound_share()).unwrap();
    assert_ne!(key_a2, key_c);
}

#[test]
fn malformed_shares_are_refused() {
    let a = KeyExchange::start(2000, "x");
    assert_eq!(a.finish(&[0x53; 10]), Err(IrisError::SpakeError(SpakeFailure::WrongLength)));
    let mut share = KeyExchange::start(2000, "x").outbound_share();
    share[0] = b'A';
    assert_eq!(a.finish(&share), Err(IrisError::SpakeError(SpakeFailure::BadSide)));
}

#[test]
fn short_aes_frames_are_refused() {
    let c = get_cipher(CipherType::Aes256Gcm, &[3u8; 32]).unwrap();
    for len in 12..28 {
        assert!(matches!(c.decrypt(&vec![0u8; len]), Err(IrisError::CryptoDecryptionError)));
    }
}

#[test]
fn frames_from_another_nonce_are_refused() {
    let c = get_cipher(CipherType::Aes256Gcm, &[5u8; 32]).unwrap();
    let mut sealed = c.encrypt(b"totals").unwrap();
    sealed[0] ^= 1;
    assert!(matches!(c.decrypt(&sealed), Err(IrisError::CryptoDecryptionError)));
    assert!(c.encrypt(&[]).is_ok());
}
