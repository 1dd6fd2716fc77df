use ed25519_dalek::Verifier;
use flowaim::error::AuthError;
use flowaim::signing::{bytes_equal, sign_message, verify_message};

// Key pairs and signatures of the Ed25519 test vectors, keys in base64.
const FIRST_PRIVATE: &str = "nWGxne/9WmC6hEr0kuwsxERJxWl7MmkZcDusAxyuf2A=";
const FIRST_PUBLIC: &str = "11qYAYKxCrfVS/7TyWQHOg7hcvPapiMlrwIaaPcHURo=";
const SECOND_PRIVATE: &str = "TM0Imyj/ltqdtsNG7BFOD1uKMZ81q6Yk2oz27U+4pvs=";
const SECOND_PUBLIC: &str = "PUAXw+hDiVqStwqnTRt+vJyYLM8uxJaMwM1V8Sr0Zgw=";

#[test]
fn signature_of_the_empty_challenge_is_the_known_one() {
    let signature = sign_message("", FIRST_PUBLIC, FIRST_PRIVATE).unwrap();
    assert_eq!(
        signature,
        "e5564300c360ac729086e2cc806e828a84877f1eb8e5d974d873e065224901555fb8821590a33bacc61e39701cf9b46bd25bf5f0595bbe24655141438e7a100b"
    );
}

#[test]
fn signature_of_a_one_letter_challenge_is_the_known_one() {
    let signature = sign_message("r", SECOND_PUBLIC, SECOND_PRIVATE).unwrap();
    assert_eq!(
        signature,
        "92a009a9f0d4cab8720e820b5f642540a2b27b5416503f8fb3762223ebdb69da085ac1e43e15996e458f3613d0f11d8c387b2eaeb4302aeeb00d291612bb0c00"
    );
}

#[test]
fn signature_is_full_length_lowercase_hex() {
    let signature = sign_message("abc123", FIRST_PUBLIC, FIRST_PRIVATE).unwrap();
    assert_eq!(signature.len(), 128);
    assert!(signature
        .chars()
        .all(|c| c.is_ascii_digit() || ('a'..='f').contains(&c)));
}

#[test]
fn signing_then_verifying_succeeds() {
    for challenge in ["", "abc123", "a longer challenge, with spaces", "ünïcödé ✓"] {
        let signature = sign_message(challenge, FIRST_PUBLIC, FIRST_PRIVATE).unwrap();
        assert!(verify_message(challenge, FIRST_PUBLIC, &signature));
        let signature = sign_message(challenge, SECOND_PUBLIC, SECOND_PRIVATE).unwrap();
        assert!(verify_message(challenge, SECOND_PUBLIC, &signature));
    }
}

#[test]
fn signature_is_accepted_by_the_signing_library_itself() {
    let signature = sign_message("abc123", FIRST_PUBLIC, FIRST_PRIVATE).unwrap();
    let raw = hex::decode(&signature).unwrap();
    let public = data_encoding::BASE64.decode(FIRST_PUBLIC.as_bytes()).unwrap();
    let key = ed25519_dalek::PublicKey::from_bytes(&public).unwrap();
    let parsed = ed25519_dalek::Signature::from_bytes(&raw).unwrap();
    assert!(key.verify(b"abc123", &parsed).is_ok());
}

#[test]
fn signature_of_another_key_fails_under_the_first_public_key() {
    let signature = sign_message("abc123", SECOND_PUBLIC, SECOND_PRIVATE).unwrap();
    assert!(!verify_message("abc123", FIRST_PUBLIC, &signature));
}

#[test]
fn signature_fails_for_another_challenge() {
    let signature = sign_message("abc123", FIRST_PUBLIC, FIRST_PRIVATE).unwrap();
    assert!(!verify_message("abc124", FIRST_PUBLIC, &signature));
}

#[test]
fn mismatched_pair_is_detected_at_signing_time() {
    assert_eq!(
        sign_message("abc123", FIRST_PUBLIC, SECOND_PRIVATE),
        Err(AuthError::InvalidKeyMaterial)
    );
    assert_eq!(
        sign_message("abc123", SECOND_PUBLIC, FIRST_PRIVATE),
        Err(AuthError::InvalidKeyMaterial)
    );
}

#[test]
fn keys_that_do_not_decode_are_refused() {
    assert_eq!(
        sign_message("abc123", "not base64!", FIRST_PRIVATE),
        Err(AuthError::InvalidKeyMaterial)
    );
    assert_eq!(
        sign_message("abc123", FIRST_PUBLIC, "not base64!"),
        Err(AuthError::InvalidKeyMaterial)
    );
    assert_eq!(sign_message("abc123", "", ""), Err(AuthError::InvalidKeyMaterial));
}

#[test]
fn secret_key_of_the_wrong_length_is_refused() {
    // Sixteen bytes in valid base64.
    let short = "AAECAwQFBgcICQoLDA0ODw==";
    assert_eq!(
        sign_message("abc123", FIRST_PUBLIC, short),
        Err(AuthError::InvalidKeyMaterial)
    );
}

#[test]
fn verification_refuses_what_is_no_signature() {
    assert!(!verify_message("abc123", FIRST_PUBLIC, ""));
    assert!(!verify_message("abc123", FIRST_PUBLIC, "zz"));
    assert!(!verify_message("abc123", FIRST_PUBLIC, "abc"));
    assert!(!verify_message("abc123", "not base64!", "00"));
}

#[test]
fn verification_accepts_uppercase_hex() {
    let signature = sign_message("abc123", FIRST_PUBLIC, FIRST_PRIVATE).unwrap();
    assert!(verify_message("abc123", FIRST_PUBLIC, &signature.to_uppercase()));
}

#[test]
fn bytes_equal_compares_content() {
    assert!(bytes_equal(&[], &[]));
    assert!(bytes_equal(&[1, 2, 3], &[1, 2, 3]));
    assert!(!bytes_equal(&[1, 2, 3], &[1, 2, 4]));
    assert!(!bytes_equal(&[1, 2, 3], &[1, 2]));
    assert!(!bytes_equal(&[], &[0]));
}

#[test]
fn public_key_of_the_wrong_length_is_refused() {
    // Sixteen bytes in valid base64.
    let short = "AAECAwQFBgcICQoLDA0ODw==";
    assert_eq!(
        sign_message("abc123", short, FIRST_PRIVATE),
        Err(AuthError::InvalidKeyMaterial)
    );
    // Thirty-three bytes in valid base64.
    let long = "AAAAAAAAAAAAAAAAAAAAAAAAAAAAAAAAAAAAAAAAAAAA";
    assert_eq!(
        sign_message("abc123", long, FIRST_PRIVATE),
        Err(AuthError::InvalidKeyMaterial)
    );
}
