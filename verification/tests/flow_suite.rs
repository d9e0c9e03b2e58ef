use galynx_core::attachments::{presign_from_fields, upload_put_outcome};
use galynx_core::crypto::{active_encryption_key, derive_encryption_key, xor_crypt};
use galynx_core::errors::ApiError;
use galynx_core::executor::{executor_step, Outcome, RetryState, Step};
use galynx_core::session::{CredentialStore, Session, StoredTokens};
use galynx_core::tokens::{auth_session, UserDto};

#[test]
fn end_to_end_login_then_transparent_refresh() {
    let mut session = Session::boot(
        "http://localhost:3000/api/v1".to_string(),
        CredentialStore { tokens: StoredTokens::Absent, api_base: None },
    );

    // Login (unauthenticated call) returns a bundle, which is persisted.
    let login_body = "{\"access_token\":\"access-old\",\"refresh_token\":\"refresh-old\",\
                      \"access_expires_at\":100,\"refresh_expires_at\":900}";
    let st = RetryState::new(false);
    let (_, step) = executor_step(st, Outcome::Response(200, login_body.to_string()));
    let body = match step {
        Step::Finish(Ok(Some(body))) => body,
        other => panic!("login call should succeed, got {:?}", other),
    };
    let bundle = session.login_apply(&body, Ok(())).unwrap();
    assert_eq!(bundle.access_token, "access-old");
    assert_eq!(bundle.refresh_token, "refresh-old");

    let user = UserDto {
        id: "u1".to_string(),
        email: "a@b.c".to_string(),
        name: "Ada".to_string(),
        workspace_id: "w1".to_string(),
        role: "admin".to_string(),
    };
    let dto = auth_session(&bundle, user.clone());
    assert_eq!(dto.access_token, "access-old");
    assert_eq!(dto.refresh_token, "refresh-old");
    assert_eq!(dto.user, user);

    // A later /me call hits an expired access token: the 401 triggers one
    // refresh, the retry succeeds, and the caller sees only the success.
    let st = RetryState::new(true);
    assert!(session.require_tokens().is_ok());
    let (st, step) = executor_step(st, Outcome::Response(401, "".to_string()));
    assert_eq!(step, Step::RefreshAndRetry);

    let current = session.require_tokens().unwrap();
    assert_eq!(current.refresh_token, "refresh-old");
    let refresh_body = "{\"access_token\":\"access-new\",\"refresh_token\":\"refresh-new\",\
                        \"access_expires_at\":200,\"refresh_expires_at\":950}";
    session.refresh_apply(200, refresh_body, Ok(())).unwrap();
    assert_eq!(session.require_tokens().unwrap().access_token, "access-new");

    let me_body = "{\"id\":\"u1\",\"email\":\"a@b.c\"}";
    let (_, step) = executor_step(st, Outcome::Response(200, me_body.to_string()));
    assert_eq!(step, Step::Finish(Ok(Some(me_body.to_string()))));
}

#[test]
fn probe_failure_clears_the_stored_session() {
    let mut session = Session::boot(
        "http://localhost:3000/api/v1".to_string(),
        CredentialStore {
            tokens: StoredTokens::Present(galynx_core::tokens::TokenBundle {
                access_token: "stale".to_string(),
                refresh_token: "stale-r".to_string(),
                access_expires_at: 1,
                refresh_expires_at: 2,
            }),
            api_base: None,
        },
    );
    let loaded = session.get_tokens();
    assert!(galynx_core::session::session_probe_planned(&loaded));

    // The probe comes back a failure: the session is cleared.
    let probe: Result<Option<String>, ApiError> = Err(ApiError::Unauthenticated);
    assert!(galynx_core::session::probe_failure_clears(&probe));
    session.clear_tokens(Ok(())).unwrap();
    assert_eq!(session.get_tokens().unwrap(), None);
}

#[test]
fn presign_requires_its_mandatory_fields() {
    let ok = presign_from_fields(
        Some("up-1".to_string()),
        Some("https://bucket/put".to_string()),
        Some("k".to_string()),
    )
    .unwrap();
    assert_eq!(ok.upload_id, "up-1");
    assert_eq!(ok.upload_url, "https://bucket/put");
    assert_eq!(ok.key.as_deref(), Some("k"));

    let err = presign_from_fields(None, Some("https://bucket/put".to_string()), None);
    assert_eq!(
        err,
        Err(ApiError::InvalidResponse("presign response invalid".to_string()))
    );
}

#[test]
fn binary_upload_status_is_judged() {
    assert!(upload_put_outcome(204).is_ok());
    assert_eq!(
        upload_put_outcome(503),
        Err(ApiError::Http {
            status: 503,
            error: "upload_failed".to_string(),
            message: "binary upload failed".to_string(),
        })
    );
}

#[test]
fn xor_crypt_combines_each_byte_with_the_repeating_key() {
    let key = [b'a', b'b'];
    let input = [0x00u8, 0xFF, 0x10];
    let out = xor_crypt(&key, &input);
    assert_eq!(out, vec![0x00 ^ b'a', 0xFF ^ b'b', 0x10 ^ b'a']);
}

#[test]
fn active_key_prefers_the_configured_one() {
    let configured = derive_encryption_key("some-seed");
    assert_eq!(active_encryption_key(Some(&configured)), configured);
    assert_eq!(
        active_encryption_key(None),
        b"galynx-desktop-store-v1".to_vec()
    );
}

#[test]
fn derived_key_roundtrips_the_store_bytes() {
    let key = derive_encryption_key("app|linux|user|/data");
    let payload = b"{\"auth_tokens\":{}}";
    let decrypted = xor_crypt(&key, &xor_crypt(&key, payload));
    assert_eq!(decrypted, payload.to_vec());
}
