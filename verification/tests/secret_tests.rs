use hmac::Mac;
use opa::secret::{
    get_secret, validate_github_payload_sha256, validate_gitlab_payload, SecretError,
};

const SALT: &str = "examples salt";
const SALT_LENGTH: usize = 40;

fn generate_hash(secret: &str, payload: &str) -> String {
    let mut mac = hmac::Hmac::<sha2::Sha256>::new_from_slice(secret.as_bytes()).unwrap();
    mac.update(payload.as_bytes());
    hex::encode(mac.finalize().into_bytes())
}

#[test]
fn test_validate_github_payload_sha256() {
    let payload = "bonjour";
    let secret = get_secret(SALT, SALT_LENGTH, 1).unwrap();
    let hash = "sha256=".to_owned() + &generate_hash(&secret, payload);
    let validate = validate_github_payload_sha256(&hash, payload, &secret);
    assert!(validate.is_ok())
}

#[test]
fn test_validate_github_payload_sha256_bad_hash() {
    let payload = "bonjour";
    let secret = get_secret(SALT, SALT_LENGTH, 1).unwrap();
    let hash = generate_hash(&secret, payload);
    let validate = validate_github_payload_sha256(&hash, payload, &secret);
    assert!(validate.is_err())
}

#[test]
fn test_validate_gitlab_payload() {
    let expected_hash = "pvGMmkr7NY5A61Q3wedgpzLRq2X8xJjEKyZlgPVO";
    let secret = expected_hash;
    let validate = validate_gitlab_payload(secret, expected_hash);
    assert!(validate.is_ok())
}

#[test]
fn test_validate_gitlab_payload_bad_hash() {
    let secret = get_secret(SALT, SALT_LENGTH, 1).unwrap();
    let validate = validate_gitlab_payload("bonjour", &secret);
    assert!(validate.is_err())
}

#[test]
fn test_get_secret() {
    let hash = get_secret(SALT, SALT_LENGTH, 1).unwrap();
    let expected = harsh::Harsh::builder()
        .salt(SALT)
        .length(SALT_LENGTH)
        .build()
        .unwrap()
        .encode(&[1]);
    assert_eq!(hash, expected);
    assert!(hash.len() >= SALT_LENGTH);
}

#[test]
fn truncated_signature_is_invalid_hex() {
    // Stripping the scheme tag from a 64-digit tag leaves 57 digits: odd,
    // so the signature cannot decode.
    let secret = "s3cret";
    let hash = generate_hash(secret, "payload");
    let r = validate_github_payload_sha256(&hash, "payload", secret);
    assert!(matches!(r, Err(SecretError::ErrorInvalidHash)));
}

#[test]
fn wrong_tag_is_a_wrong_hash() {
    let secret = "s3cret";
    let hash = "sha256=".to_owned() + &generate_hash("other secret", "payload");
    let r = validate_github_payload_sha256(&hash, "payload", secret);
    assert!(matches!(r, Err(SecretError::ErrorWrongHash(_))));
}

#[test]
fn non_hex_signature_is_invalid() {
    let r = validate_github_payload_sha256("sha256=zzzz", "payload", "s3cret");
    assert!(matches!(r, Err(SecretError::ErrorInvalidHash)));
}
