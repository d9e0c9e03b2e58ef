use galynx_core::attachments::{map_attachment_commit_response, CommitFields};
use galynx_core::crypto::{active_encryption_key, derive_encryption_key, xor_crypt};
use galynx_core::urls::{normalize_api_base, websocket_url};

#[test]
fn websocket_url_converts_http_and_https() {
    assert_eq!(
        websocket_url("http://localhost:3000/api/v1"),
        "ws://localhost:3000/api/v1/ws"
    );
    assert_eq!(
        websocket_url("https://api.galynx.local/api/v1"),
        "wss://api.galynx.local/api/v1/ws"
    );
}

#[test]
fn derived_key_is_stable_for_same_seed() {
    let a = derive_encryption_key("seed-a");
    let b = derive_encryption_key("seed-a");
    let c = derive_encryption_key("seed-b");
    assert_eq!(a, b);
    assert_ne!(a, c);
    assert_eq!(a.len(), 32);
}

#[test]
fn xor_crypt_roundtrip() {
    let key = active_encryption_key(None);
    let input = b"top-secret-token-data";
    let encrypted = xor_crypt(&key, input);
    let decrypted = xor_crypt(&key, &encrypted);
    assert_eq!(input.to_vec(), decrypted);
}

#[test]
fn attachment_commit_mapper_uses_fallbacks() {
    let commit = CommitFields {
        id: Some("att-1".to_string()),
        filename: None,
        name: None,
        size_bytes: None,
        size: None,
        content_type: None,
        storage_key: None,
        key: None,
        download_url: None,
    };
    let mapped = map_attachment_commit_response(
        commit,
        "report.pdf".to_string(),
        1200,
        "application/pdf".to_string(),
        Some("workspace/key".to_string()),
    );
    assert_eq!(mapped.id, "att-1");
    assert_eq!(mapped.name, "report.pdf");
    assert_eq!(mapped.size_bytes, 1200);
    assert_eq!(mapped.content_type.as_deref(), Some("application/pdf"));
    assert_eq!(mapped.storage_key.as_deref(), Some("workspace/key"));
}

#[test]
fn api_base_normalization() {
    assert_eq!(
        normalize_api_base("http://localhost:3000").as_deref(),
        Some("http://localhost:3000/api/v1")
    );
    assert_eq!(
        normalize_api_base("https://galynx.local/api/").as_deref(),
        Some("https://galynx.local/api/v1")
    );
    assert_eq!(
        normalize_api_base("https://galynx.local/api/v1").as_deref(),
        Some("https://galynx.local/api/v1")
    );
    assert!(normalize_api_base("localhost:3000").is_none());
}
