use base64::Engine;
use hoyo_auth::error::HoyoError;
use hoyo_auth::utils::auth_constants::{
    encode_ciphertext, encrypt_with_key, get_rsa_key, hoyo_encrypt, CN_LOGIN_RSA_KEY,
    OS_LOGIN_RSA_KEY,
};
use hoyo_auth::utils::common::Region;
use rsa::pkcs8::{EncodePublicKey, LineEnding};
use rsa::{Pkcs1v15Encrypt, RsaPrivateKey, RsaPublicKey};

fn decode(text: &str) -> Vec<u8> {
    base64::engine::general_purpose::STANDARD.decode(text).unwrap()
}

fn key_pair() -> (RsaPrivateKey, String) {
    let private = RsaPrivateKey::new(&mut rand::thread_rng(), 512).unwrap();
    let public = RsaPublicKey::from(&private);
    let pem = public.to_public_key_pem(LineEnding::LF).unwrap();
    (private, pem)
}

#[test]
fn encryption_is_randomized_and_decrypts_to_the_plaintext() {
    let (private, pem) = key_pair();
    for plaintext in ["hunter2", "user@example.com", "+86", ""] {
        let first = encrypt_with_key(plaintext, &pem).unwrap();
        let second = encrypt_with_key(plaintext, &pem).unwrap();
        assert_ne!(first, second);
        for text in [first, second] {
            let cipher = decode(&text);
            assert_eq!(cipher.len(), 64);
            let plain = private.decrypt(Pkcs1v15Encrypt, &cipher).unwrap();
            assert_eq!(plain, plaintext.as_bytes());
        }
    }
}

#[test]
fn region_keys_encrypt_to_the_size_of_the_overseas_key() {
    for region in [Region::Overseas, Region::Chinese] {
        let text = hoyo_encrypt("account", region).unwrap();
        assert_eq!(decode(&text).len(), 256);
        assert_eq!(text.len(), 344);
        assert!(text.chars().all(|c| c.is_ascii_alphanumeric() || "+/=".contains(c)));
        assert_ne!(text, hoyo_encrypt("account", region).unwrap());
    }
}

#[test]
fn length_that_fits_counts_bytes_not_characters() {
    let (_, pem) = key_pair();
    assert!(encrypt_with_key(&"a".repeat(53), &pem).is_ok());
    assert_eq!(encrypt_with_key(&"a".repeat(54), &pem), Err(HoyoError::EncryptionFailed));
    assert!(encrypt_with_key(&"é".repeat(26), &pem).is_ok());
    assert_eq!(encrypt_with_key(&"é".repeat(27), &pem), Err(HoyoError::EncryptionFailed));
    let text = encrypt_with_key("", &pem).unwrap();
    assert_eq!(text.len(), 88);
}

#[test]
fn both_regions_use_the_overseas_key() {
    assert_eq!(get_rsa_key(Region::Overseas), OS_LOGIN_RSA_KEY);
    assert_eq!(get_rsa_key(Region::Chinese), OS_LOGIN_RSA_KEY);
    assert_ne!(OS_LOGIN_RSA_KEY, CN_LOGIN_RSA_KEY);
}

#[test]
fn chinese_key_decodes_too() {
    let text = encrypt_with_key("account", CN_LOGIN_RSA_KEY).unwrap();
    assert_eq!(decode(&text).len(), 128);
}

#[test]
fn text_that_is_no_key_is_an_invalid_public_key() {
    assert_eq!(encrypt_with_key("data", "not a key"), Err(HoyoError::InvalidPublicKey));
    assert_eq!(encrypt_with_key("data", ""), Err(HoyoError::InvalidPublicKey));
}

#[test]
fn message_longer_than_the_key_allows_fails_to_encrypt() {
    let long = "x".repeat(246);
    assert_eq!(hoyo_encrypt(&long, Region::Overseas), Err(HoyoError::EncryptionFailed));
    let fits = "x".repeat(245);
    assert!(hoyo_encrypt(&fits, Region::Overseas).is_ok());
}

#[test]
fn ciphertext_goes_on_the_wire_in_padded_base64() {
    assert_eq!(encode_ciphertext(Some(vec![0xfb, 0xff, 0xfe])), Ok("+//+".to_string()));
    assert_eq!(encode_ciphertext(Some(vec![1])), Ok("AQ==".to_string()));
    assert_eq!(encode_ciphertext(Some(vec![])), Ok(String::new()));
    assert_eq!(encode_ciphertext(None), Err(HoyoError::EncryptionFailed));
}
