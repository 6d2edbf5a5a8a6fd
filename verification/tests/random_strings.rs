use fc_platform::pkce::{alphanumeric_from_indices, generate_code_verifier, generate_random_string, generate_random_token};

#[test]
fn test_random_string_length() {
    let s = generate_random_string(32);
    assert_eq!(s.len(), 32);
}

#[test]
fn test_random_string_zero_length() {
    let s = generate_random_string(0);
    assert!(s.is_empty());
}

#[test]
fn test_random_string_alphanumeric_only() {
    let s = generate_random_string(1000);
    assert!(s.chars().all(|c| c.is_ascii_alphanumeric()));
}

#[test]
fn test_random_string_uniqueness() {
    let a = generate_random_string(64);
    let b = generate_random_string(64);
    assert_ne!(a, b, "Two random strings of length 64 should differ");
}

#[test]
fn random_token_is_unpadded_url_safe_base64_of_the_bytes() {
    // 32 bytes encode to 43 characters without padding.
    let t = generate_random_token(32);
    assert_eq!(t.len(), 43);
    assert!(t.chars().all(|c| c.is_ascii_alphanumeric() || c == '-' || c == '_'));
    let v = generate_code_verifier();
    assert_eq!(v.len(), 43);
    assert_ne!(generate_code_verifier(), v);
}

#[test]
fn drawn_indices_pick_charset_characters() {
    assert_eq!(alphanumeric_from_indices(&vec![0, 25, 26, 51, 52, 61]), "AZaz09");
    assert_eq!(alphanumeric_from_indices(&vec![7, 4, 11, 11, 14]), "HELLO");
    assert_eq!(alphanumeric_from_indices(&vec![]), "");
}
