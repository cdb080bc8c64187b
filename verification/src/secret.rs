//! Webhook payload authentication: hashid secrets, and validation of
//! payload signatures against them.

use vstd::prelude::*;
use vstd::string::StringSliceAdditionalSpecFns;
use vstd::string::StrSliceExecFns;
use hmac::Mac;

verus! {

/// Why a payload failed validation.
#[derive(Debug, Clone)]
pub enum SecretError {
    /// The signature is not a valid hex-encoded string.
    ErrorInvalidHash,
    /// The signature does not match the one computed from the payload.
    ErrorWrongHash(String),
    /// The hashid could not be built.
    ErrorHarsh(String),
}

/// Whether a character is a hexadecimal digit, either case.
pub open spec fn is_hex_digit(c: char) -> bool {
    (48 <= c as u32 <= 57) || (97 <= c as u32 <= 102) || (65 <= c as u32 <= 70)
}

/// The value of a hexadecimal digit character.
pub open spec fn hex_val(c: char) -> nat {
    if 48 <= c as u32 <= 57 {
        (c as u32 - 48) as nat
    } else if 97 <= c as u32 <= 102 {
        (c as u32 - 87) as nat
    } else {
        (c as u32 - 55) as nat
    }
}

/// The bytes encoded by a hex string: each pair of digits one byte,
/// high digit first.
pub open spec fn hex_bytes(s: Seq<char>) -> Seq<u8> {
    Seq::new(s.len() / 2, |i: int| (16 * hex_val(s[2 * i]) + hex_val(s[2 * i + 1])) as u8)
}

/// Relies on hex::decode: succeeds exactly on an even number of hex
/// digits, both cases accepted, and decodes each pair into one byte,
/// high digit first.
#[verifier::external_body]
fn hex_decode(s: &str) -> (r: Result<Vec<u8>, String>)
    ensures
        r is Ok <==> (s@.len() % 2 == 0 && forall|i: int|
            0 <= i < s@.len() ==> is_hex_digit(#[trigger] s@[i])),
        r matches Ok(b) ==> b@ == hex_bytes(s@),
{
    hex::decode(s).map_err(|e| e.to_string())
}

/// The HMAC-SHA256 tag for a key and a message. The tag is a function
/// of the two byte strings alone.
pub uninterp spec fn hmac_sha256_of(key: Seq<u8>, msg: Seq<u8>) -> Seq<u8>;

/// Relies on Hmac<Sha256>: new_from_slice accepts keys of any length,
/// and verify_slice accepts exactly the full tag of the keyed message.
#[verifier::external_body]
fn hmac_sha256_verify(secret: &str, body: &str, tag: &Vec<u8>) -> (r: bool)
    ensures
        r == (tag@ == hmac_sha256_of(secret.spec_bytes(), body.spec_bytes())),
{
    let Ok(mut mac) = hmac::Hmac::<sha2::Sha256>::new_from_slice(secret.as_bytes()) else {
        return false;
    };
    mac.update(body.as_bytes());
    mac.verify_slice(tag.as_slice()).is_ok()
}

/// The hashid encoding of one value, for a salt and a minimum length.
/// The encoding is a function of the three alone.
pub uninterp spec fn hashid_of(salt: Seq<char>, length: int, id: u64) -> Seq<char>;

/// Relies on harsh::Harsh: with the default alphabet the builder always
/// succeeds, and encode deterministically renders the value from the
/// salt and minimum length.
#[verifier::external_body]
fn harsh_encode(salt: &str, length: usize, id: u64) -> (r: Result<String, String>)
    ensures
        r matches Ok(s) ==> s@ == hashid_of(salt@, length as int, id),
{
    let hash = harsh::Harsh::builder().salt(salt).length(length).build().map_err(
        |e| e.to_string(),
    )?;
    Ok(hash.encode(&[id]))
}

/// Creates the hashid secret for a project id, from the configured salt
/// and length.
pub fn get_secret(salt: &str, salt_length: usize, repository_id: u32) -> (r: Result<
    String,
    SecretError,
>)
    ensures
        r matches Ok(s) ==> s@ == hashid_of(salt@, salt_length as int, repository_id as u64),
        r matches Err(e) ==> e is ErrorHarsh,
{
    match harsh_encode(salt, salt_length, repository_id as u64) {
        Ok(s) => Ok(s),
        Err(m) => Err(SecretError::ErrorHarsh(m)),
    }
}

/// The hex digits of a signature header, after the leading scheme tag.
pub open spec fn cleaned_sig(hash: Seq<char>) -> Seq<char> {
    hash.subrange(7, hash.len() as int)
}

/// Validates a signed payload: the signature header carries a scheme
/// tag of seven characters and then the hex HMAC-SHA256 tag of the body
/// under the secret. Succeeds exactly when the hex decodes and matches
/// that tag; a malformed hex string and a wrong tag are told apart.
pub fn validate_github_payload_sha256(hash: &str, body: &str, secret: &str) -> (r: Result<
    (),
    SecretError,
>)
    requires
        hash@.len() >= 7,
    ensures
        r is Ok <==> (cleaned_sig(hash@).len() % 2 == 0 && (forall|i: int|
            0 <= i < cleaned_sig(hash@).len() ==> is_hex_digit(#[trigger] cleaned_sig(hash@)[i]))
            && hex_bytes(cleaned_sig(hash@)) == hmac_sha256_of(
            secret.spec_bytes(),
            body.spec_bytes(),
        )),
        r matches Err(e) ==> (e is ErrorInvalidHash || e is ErrorWrongHash),
{
    let len = hash.unicode_len();
    let cleaned = hash.substring_char(7, len);
    let decoded = match hex_decode(cleaned) {
        Ok(b) => b,
        Err(_) => {
            return Err(SecretError::ErrorInvalidHash);
        },
    };
    if hmac_sha256_verify(secret, body, &decoded) {
        Ok(())
    } else {
        Err(SecretError::ErrorWrongHash("MAC tag mismatch".to_owned()))
    }
}

/// Validates a hashid-signed payload: the header must equal the secret,
/// character for character.
pub fn validate_gitlab_payload(hash: &str, secret: &str) -> (r: Result<(), SecretError>)
    ensures
        r is Ok <==> hash@ == secret@,
        r matches Err(e) ==> e is ErrorWrongHash,
{
    let h = hash.to_owned();
    let s = secret.to_owned();
    if h.eq(&s) {
        Ok(())
    } else {
        Err(
            SecretError::ErrorWrongHash(
                "the hashid form the header is diferent from the hashid generated".to_owned(),
            ),
        )
    }
}

} // verus!
