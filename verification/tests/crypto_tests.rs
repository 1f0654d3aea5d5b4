use vibe_agent::crypto::{
    default_token_secret, hash_agent_token, hash_token, resolve_token_secret, to_lower_hex,
};

fn dev_secret() -> String {
    default_token_secret()
}

#[test]
fn test_hash_agent_token_deterministic() {
    let secret = dev_secret();
    let hash1 = hash_agent_token(&secret, "vk_agent_test_token_123");
    let hash2 = hash_agent_token(&secret, "vk_agent_test_token_123");
    assert_eq!(hash1, hash2);
}

#[test]
fn test_hash_agent_token_different_tokens() {
    let secret = dev_secret();
    let hash1 = hash_agent_token(&secret, "vk_agent_token_aaa");
    let hash2 = hash_agent_token(&secret, "vk_agent_token_bbb");
    assert_ne!(hash1, hash2);
}

#[test]
fn test_hash_agent_token_hex_format() {
    let secret = dev_secret();
    let hash = hash_agent_token(&secret, "test");
    assert_eq!(hash.len(), 64);
    assert!(hash.chars().all(|c| c.is_ascii_hexdigit()));
}

#[test]
fn hmac_matches_rfc4231_case_2() {
    let hash = hash_agent_token("Jefe", "what do ya want for nothing?");
    assert_eq!(
        hash,
        "5bdcc146bf60754e6a042426089575c75a003f089d2739839dec58b964ec3843"
    );
}

#[test]
fn hash_depends_on_secret() {
    let a = hash_agent_token("secret-one", "token");
    let b = hash_agent_token("secret-two", "token");
    assert_ne!(a, b);
}

#[test]
fn plain_token_hash_is_sha256_hex() {
    assert_eq!(
        hash_token("abc"),
        "ba7816bf8f01cfea414140de5dae2223b00361a396177a9cb410ff61f20015ad"
    );
    assert_eq!(
        hash_token(""),
        "e3b0c44298fc1c149afbf4c8996fb92427ae41e4649b934ca495991b7852b855"
    );
}

#[test]
fn lower_hex_encodes_each_byte_as_two_digits() {
    assert_eq!(to_lower_hex(&[10, 20, 30]), "0a141e");
    assert_eq!(to_lower_hex(&[0x00, 0xff, 0xab]), "00ffab");
    assert_eq!(to_lower_hex(&[]), "");
}

#[test]
fn secret_resolution() {
    assert_eq!(resolve_token_secret(Some("abc"), true), Some("abc".to_string()));
    assert_eq!(resolve_token_secret(Some("abc"), false), Some("abc".to_string()));
    assert_eq!(
        resolve_token_secret(Some(""), false),
        Some("vk-default-dev-secret-change-in-production".to_string())
    );
    assert_eq!(
        resolve_token_secret(None, false),
        Some("vk-default-dev-secret-change-in-production".to_string())
    );
    assert_eq!(resolve_token_secret(None, true), None);
    assert_eq!(resolve_token_secret(Some(""), true), None);
}
