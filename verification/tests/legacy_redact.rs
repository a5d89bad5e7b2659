use custody::api_key::ApiKey;
use custody::redact::{Masked, Redacted};

#[test]
fn plain_redacted_renders_as_the_redaction() {
    let secret = Redacted::from(42u32);
    assert_eq!(secret.to_string(), "[REDACTED]");
    assert_eq!(*secret.inner_ref(), 42);
    assert!(secret.clone() == secret);
    assert!(Redacted::from("a".to_string()) != Redacted::from("b".to_string()));
}

#[test]
fn plain_masked_renders_as_the_mask() {
    let key = Masked::from(ApiKey::from_bytes([0x5au8; 16]));
    assert_eq!(key.to_string(), "5a5***");
    assert_eq!(key.inner_ref().as_bytes(), &[0x5au8; 16]);
    assert!(key.clone() == key);
}
