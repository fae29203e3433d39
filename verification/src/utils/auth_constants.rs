//! Credential encryption and the fixed headers of the login endpoints.

use vstd::prelude::*;
use vstd::utf8::encode_utf8;
use base64::Engine;
use rsa::pkcs8::DecodePublicKey;
use crate::error::HoyoError;
use crate::utils::common::Region;
use crate::utils::text::is_alphanumeric;

verus! {

/// An RSA public key of the `rsa` crate.
#[verifier::external_type_specification]
#[verifier::external_body]
pub struct ExRsaPublicKey(rsa::RsaPublicKey);

/// The length in bytes of the modulus of the RSA public key that a PEM text
/// holds; `None` where the text holds no key that the `rsa` crate accepts.
pub uninterp spec fn public_key_len(pem: Seq<char>) -> Option<nat>;

/// The length in bytes of a key's modulus, where the key passes the check
/// that the `rsa` crate makes of public keys; `None` for a key that does not.
pub uninterp spec fn checked_modulus_len(key: rsa::RsaPublicKey) -> Option<nat>;

/// Whether a character is one that padded standard base64 is written with.
pub open spec fn is_base64_char(c: char) -> bool {
    is_alphanumeric(c) || c == '+' || c == '/' || c == '='
}

/// The standard base64 text of a sequence of bytes, padded, as the `base64`
/// crate writes it.
pub uninterp spec fn base64_standard(bytes: Seq<u8>) -> Seq<char>;

/// `RsaPublicKey::from_public_key_pem`: the key that a PEM text holds, or
/// nothing where the text holds none. Which key it holds depends on the
/// text alone. The crate builds the key with `RsaPublicKey::new`, which
/// makes the check of public keys, so a key that comes out has passed it.
#[verifier::external_body]
fn decode_public_key(pem: &str) -> (key: Option<rsa::RsaPublicKey>)
    ensures
        match key {
            Some(k) => checked_modulus_len(k) is Some && checked_modulus_len(k) == public_key_len(
                pem@,
            ),
            None => public_key_len(pem@) is None,
        },
{
    rsa::RsaPublicKey::from_public_key_pem(pem).ok()
}

/// `RsaPublicKey::encrypt` with `Pkcs1v15Encrypt` on the thread's random
/// generator. The crate checks the key, then refuses exactly the messages
/// that with eleven bytes of padding are longer than the modulus, and
/// writes every ciphertext in as many bytes as the modulus has. The padding
/// is random, so nothing more is promised of the bytes. The generator stops
/// the program where the system gives it no seed.
#[verifier::external_body]
fn encrypt_pkcs1v15(key: &rsa::RsaPublicKey, message: &[u8]) -> (cipher: Option<Vec<u8>>)
    ensures
        match checked_modulus_len(*key) {
            Some(k) => if message@.len() + 11 <= k {
                cipher matches Some(c) && c@.len() == k
            } else {
                cipher is None
            },
            None => cipher is None,
        },
{
    key.encrypt(&mut rand::thread_rng(), rsa::Pkcs1v15Encrypt, message).ok()
}

/// `Engine::encode` of `base64::prelude::BASE64_STANDARD`: the padded
/// standard base64 text of the bytes, which has four characters of the
/// base64 alphabet or padding for every three bytes begun. It fails only on
/// a length that no slice in memory has.
#[verifier::external_body]
pub(crate) fn base64_encode(bytes: &[u8]) -> (text: String)
    ensures
        text@ == base64_standard(bytes@),
        text@.len() == 4 * ((bytes@.len() + 2) / 3),
        forall|i: int| 0 <= i < text@.len() ==> is_base64_char(#[trigger] text@[i]),
{
    base64::prelude::BASE64_STANDARD.encode(bytes)
}

/// The public key that credentials for the overseas endpoints are encrypted to.
pub const OS_LOGIN_RSA_KEY: &'static str = "
-----BEGIN PUBLIC KEY-----
MIIBIjANBgkqhkiG9w0BAQEFAAOCAQ8AMIIBCgKCAQEA4PMS2JVMwBsOIrYWRluY
wEiFZL7Aphtm9z5Eu/anzJ09nB00uhW+ScrDWFECPwpQto/GlOJYCUwVM/raQpAj
/xvcjK5tNVzzK94mhk+j9RiQ+aWHaTXmOgurhxSp3YbwlRDvOgcq5yPiTz0+kSeK
ZJcGeJ95bvJ+hJ/UMP0Zx2qB5PElZmiKvfiNqVUk8A8oxLJdBB5eCpqWV6CUqDKQ
KSQP4sM0mZvQ1Sr4UcACVcYgYnCbTZMWhJTWkrNXqI8TMomekgny3y+d6NX/cFa6
6jozFIF4HCX5aW8bp8C8vq2tFvFbleQ/Q3CU56EWWKMrOcpmFtRmC18s9biZBVR/
8QIDAQAB
-----END PUBLIC KEY-----
";

/// The public key of the Chinese passport endpoints.
pub const CN_LOGIN_RSA_KEY: &'static str = "
-----BEGIN PUBLIC KEY-----
MIGfMA0GCSqGSIb3DQEBAQUAA4GNADCBiQKBgQDDvekdPMHN3AYhm/vktJT+YJr7
cI5DcsNKqdsx5DZX0gDuWFuIjzdwButrIYPNmRJ1G8ybDIF7oDW2eEpm5sMbL9zs
9ExXCdvqrn51qELbqj0XxtMTIpaCHFSI50PfPpTFV9Xt/hmyVwokoOXFlAEgCn+Q
CgGs52bFoYMtyi+xEQIDAQAB
-----END PUBLIC KEY-----
";

/// The key that a region's login credentials are encrypted to. Both regions
/// log in with the overseas key.
pub fn get_rsa_key(region: Region) -> (pem: &'static str)
    ensures
        pem@ == OS_LOGIN_RSA_KEY@,
{
    match region {
        Region::Overseas => OS_LOGIN_RSA_KEY,
        Region::Chinese => OS_LOGIN_RSA_KEY,
    }
}

/// Whether a text is the padded base64 text of some `n` bytes: four
/// characters of the base64 alphabet for every three bytes begun. Such a
/// text holds no quote and no backslash, so it stands in a JSON string as
/// it is.
pub open spec fn is_base64_of_len(text: Seq<char>, n: nat) -> bool {
    &&& exists|bytes: Seq<u8>| bytes.len() == n && text == #[trigger] base64_standard(bytes)
    &&& text.len() == 4 * ((n + 2) / 3)
    &&& forall|i: int| 0 <= i < text.len() ==> is_base64_char(#[trigger] text[i])
}

/// Whether a text has the shape of a ciphertext under the key in `pem`: the
/// key decodes, and the text is the base64 text of as many bytes as the
/// key's modulus has. The padding is random, so the shape is all that can
/// be said: which plaintext the bytes hold only the private key tells.
pub open spec fn has_ciphertext_shape(text: Seq<char>, pem: Seq<char>) -> bool {
    public_key_len(pem) matches Some(k) && is_base64_of_len(text, k)
}

/// Why a message of `len` bytes cannot be encrypted to the key in `pem`, if
/// it cannot: the key does not decode, or the message with its eleven bytes
/// of padding is longer than the key's modulus.
pub open spec fn encryption_failure(len: nat, pem: Seq<char>) -> Option<HoyoError> {
    match public_key_len(pem) {
        None => Some(HoyoError::InvalidPublicKey),
        Some(k) => if len + 11 <= k {
            None
        } else {
            Some(HoyoError::EncryptionFailed)
        },
    }
}

/// Why one of two texts cannot be encrypted to the key in `pem`, if one
/// cannot; the first text is tried first.
pub open spec fn encryption_failure_of_two(
    first: Seq<char>,
    second: Seq<char>,
    pem: Seq<char>,
) -> Option<HoyoError> {
    match encryption_failure(encode_utf8(first).len(), pem) {
        Some(e) => Some(e),
        None => encryption_failure(encode_utf8(second).len(), pem),
    }
}

/// Whether `r` is what encrypting a text to the key in `pem` gives: a text
/// of the shape of a ciphertext where the text's UTF-8 bytes fit the key,
/// and else the error that says why not.
pub open spec fn is_encryption_of(
    r: Result<String, HoyoError>,
    data: Seq<char>,
    pem: Seq<char>,
) -> bool {
    match encryption_failure(encode_utf8(data).len(), pem) {
        None => r matches Ok(text) && has_ciphertext_shape(text@, pem),
        Some(e) => r == Err::<String, HoyoError>(e),
    }
}

/// Writes a ciphertext as it goes on the wire, or reports that there is none.
pub fn encode_ciphertext(cipher: Option<Vec<u8>>) -> (r: Result<String, HoyoError>)
    ensures
        match cipher {
            Some(c) => r matches Ok(text) && text@ == base64_standard(c@) && is_base64_of_len(
                text@,
                c@.len(),
            ),
            None => r == Err::<String, HoyoError>(HoyoError::EncryptionFailed),
        },
{
    match cipher {
        Some(c) => Ok(base64_encode(c.as_slice())),
        None => Err(HoyoError::EncryptionFailed),
    }
}

/// Encrypts a text to the public key in `pem` with random padding and
/// returns the ciphertext in base64. A text fits the key where its UTF-8
/// bytes and eleven bytes of padding are no longer than the key's modulus;
/// a longer text is never cut or split, it is an error. Two calls on one
/// text differ.
pub fn encrypt_with_key(data: &str, pem: &str) -> (r: Result<String, HoyoError>)
    ensures
        is_encryption_of(r, data@, pem@),
{
    match decode_public_key(pem) {
        None => Err(HoyoError::InvalidPublicKey),
        Some(key) => {
            let cipher = encrypt_pkcs1v15(&key, data.as_bytes());
            encode_ciphertext(cipher)
        },
    }
}

/// Encrypts a credential for a region's login endpoints.
pub fn hoyo_encrypt(data: &str, region: Region) -> (r: Result<String, HoyoError>)
    ensures
        is_encryption_of(r, data@, OS_LOGIN_RSA_KEY@),
{
    encrypt_with_key(data, get_rsa_key(region))
}

/// Headers of the overseas web login. The service answers a request from
/// any other origin as unauthorized.
pub const WEB_LOGIN_HEADERS: [(&'static str, &'static str); 4] = [
    ("x-rpc-app_id", "c9oqaq3s3gu8"),
    ("x-rpc-client_type", "4"),
    ("Origin", "https://account.hoyolab.com"),
    ("Referer", "https://account.hoyolab.com/"),
];

/// Headers of the app login. They name no device: with a device id the
/// service asks a device it has not seen for an email verification.
pub const APP_LOGIN_HEADERS: [(&'static str, &'static str); 2] = [
    ("x-rpc-app_id", "c9oqaq3s3gu8"),
    ("x-rpc-client_type", "2"),
];

/// Headers of the Chinese web login.
pub const CN_LOGIN_HEADERS: [(&'static str, &'static str); 9] = [
    ("x-rpc-app_id", "bll8iq97cem8"),
    ("x-rpc-client_type", "4"),
    ("x-rpc-source", "v2.webLogin"),
    ("x-rpc-device_fp", "38d7fff8fd68c"),
    ("x-rpc-device_id", "469af8a4-0754-4a3c-a999-dec592f00894"),
    ("x-rpc-device_model", "Firefox%20131.0"),
    ("x-rpc-device_name", "Firefox"),
    ("x-rpc-game_biz", "bbs_cn"),
    ("x-rpc-sdk_version", "2.31.0"),
];

/// Headers of the request that sends a verification email.
pub const EMAIL_SEND_HEADERS: [(&'static str, &'static str); 2] = [
    ("x-rpc-app_id", "c9oqaq3s3gu8"),
    ("x-rpc-client_type", "2"),
];

/// Headers of the request that hands in an emailed code.
pub const EMAIL_VERIFY_HEADERS: [(&'static str, &'static str); 2] = [
    ("x-rpc-app_id", "c9oqaq3s3gu8"),
    ("x-rpc-client_type", "2"),
];

/// Headers of the QR code login.
pub const QRCODE_HEADERS: [(&'static str, &'static str); 5] = [
    ("x-rpc-app_id", "bll8iq97cem8"),
    ("x-rpc-client_type", "4"),
    ("x-rpc-game_biz", "bbs_cn"),
    ("x-rpc-device_fp", "38d7fa104e5d7"),
    ("x-rpc-device_id", "586f1440-856a-4243-8076-2b0a12314197"),
];

/// Headers of the overseas geetest requests.
pub const OS_MMT_HEADERS: [(&'static str, &'static str); 4] = [
    ("x-rpc-challenge_path", "https://bbs-api-os.hoyolab.com/game_record/app/hkrpg/api/challenge"),
    ("x-rpc-app_version", "2.55.0"),
    ("x-rpc-challenge_game", "6"),
    ("x-rpc-client_type", "5"),
];

/// Headers of the Chinese geetest requests.
pub const CN_MMT_HEADERS: [(&'static str, &'static str); 5] = [
    ("x-rpc-app_version", "2.60.1"),
    ("x-rpc-client_type", "5"),
    ("x-rpc-challenge_game", "6"),
    ("x-rpc-page", "v1.4.1-rpg_#/rpg"),
    ("x-rpc-tool-version", "v1.4.1-rpg"),
];

/// The device that game logins are made as.
pub const DEVICE_ID: &'static str = "D6AF5103-D297-4A01-B86A-87F87DS5723E";

/// Headers of the risky check before a game login.
pub const RISKY_CHECK_HEADERS: [(&'static str, &'static str); 2] = [
    ("x-rpc-client_type", "1"),
    ("x-rpc-channel_id", "1"),
];

/// Headers of the shield login.
pub const SHIELD_LOGIN_HEADERS: [(&'static str, &'static str); 3] = [
    ("x-rpc-client_type", "1"),
    ("x-rpc-channel_id", "1"),
    ("x-rpc-device_id", DEVICE_ID),
];

/// Headers of the device grant.
pub const GRANT_TICKET_HEADERS: [(&'static str, &'static str); 4] = [
    ("x-rpc-client_type", "1"),
    ("x-rpc-channel_id", "1"),
    ("x-rpc-device_id", DEVICE_ID),
    ("x-rpc-language", "en"),
];

/// Headers of the game login.
pub const GAME_LOGIN_HEADERS: [(&'static str, &'static str); 3] = [
    ("x-rpc-client_type", "1"),
    ("x-rpc-channel_id", "1"),
    ("x-rpc-device_id", DEVICE_ID),
];

} // verus!
