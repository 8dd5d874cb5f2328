use sql_runner::auth::{bearer_token, token_hash};
use sql_runner::config::hex_to_bytes32;
use sql_runner::identity::derive_identity;

// The BLAKE3 digest of the empty input, in hex.
const EMPTY_HASH_HEX: &str = "af1349b9f5f9a1a6a0404dea36dcc9499bcb25c9adc112b7cc9a93cae41f3262";

#[test]
fn db_name_is_hash_prefix_of_sixty_three() {
    let key = [0u8; 32];
    let id = derive_identity("", &key);
    assert_eq!(id.db_name.len(), 63);
    assert_eq!(id.db_name, EMPTY_HASH_HEX[..63]);
}

#[test]
fn identity_is_deterministic() {
    let key = [7u8; 32];
    let env = "CREATE TABLE t(i INT);";
    let a = derive_identity(env, &key);
    let b = derive_identity(env, &key);
    assert_eq!(a.db_name, b.db_name);
    assert_eq!(a.db_password, b.db_password);
}

#[test]
fn different_environments_differ() {
    let key = [7u8; 32];
    let a = derive_identity("CREATE TABLE a(i INT);", &key);
    let b = derive_identity("CREATE TABLE b(i INT);", &key);
    assert_ne!(a.db_name, b.db_name);
    assert_ne!(a.db_password, b.db_password);
}

#[test]
fn password_depends_on_key() {
    let env = "CREATE TABLE t(i INT);";
    let a = derive_identity(env, &[1u8; 32]);
    let b = derive_identity(env, &[2u8; 32]);
    assert_eq!(a.db_name, b.db_name);
    assert_ne!(a.db_password, b.db_password);
}

#[test]
fn password_is_hex_of_sixty_four() {
    let id = derive_identity("x", &[0u8; 32]);
    assert_eq!(id.db_password.len(), 64);
    assert!(id.db_password.chars().all(|c| c.is_ascii_hexdigit() && !c.is_uppercase()));
    assert_ne!(id.db_password[..63], id.db_name);
}

#[test]
fn hex_key_roundtrip() {
    let hex: String = (0..32).map(|i| format!("{:02x}", i * 3)).collect();
    let bytes = hex_to_bytes32(&hex).expect("valid key parses");
    assert_eq!(bytes.len(), 32);
    for (i, b) in bytes.iter().enumerate() {
        assert_eq!(*b as usize, i * 3);
    }
}

#[test]
fn hex_key_accepts_uppercase() {
    let hex = "00FF".repeat(16);
    let bytes = hex_to_bytes32(&hex).expect("uppercase parses");
    assert_eq!(bytes[0], 0);
    assert_eq!(bytes[1], 255);
}

#[test]
fn hex_key_rejects_wrong_length() {
    assert!(hex_to_bytes32("abcd").is_none());
    assert!(hex_to_bytes32(&"a".repeat(63)).is_none());
    assert!(hex_to_bytes32(&"a".repeat(65)).is_none());
}

#[test]
fn hex_key_rejects_non_hex() {
    let mut s = "a".repeat(64);
    s.replace_range(10..11, "g");
    assert!(hex_to_bytes32(&s).is_none());
}

#[test]
fn bearer_token_takes_second_part() {
    assert_eq!(bearer_token("Bearer abc"), Some("abc".to_string()));
    assert_eq!(bearer_token("Bearer abc def"), Some("abc".to_string()));
    assert_eq!(bearer_token("Bearer "), Some("".to_string()));
    assert_eq!(bearer_token("abc"), None);
    assert_eq!(bearer_token(""), None);
}

#[test]
fn token_hash_is_blake3_hex() {
    assert_eq!(token_hash(""), EMPTY_HASH_HEX);
    assert_eq!(token_hash("secret").len(), 64);
    assert_ne!(token_hash("secret"), token_hash("secret2"));
}
