use galynx_core::errors::ApiError;
use galynx_core::session::{
    probe_failure_clears, session_probe_planned, CredentialStore, Session, StoredTokens,
};
use galynx_core::tokens::TokenBundle;

fn empty_store() -> CredentialStore {
    CredentialStore { tokens: StoredTokens::Absent, api_base: None }
}

fn bundle() -> TokenBundle {
    TokenBundle {
        access_token: "access-1".to_string(),
        refresh_token: "refresh-1".to_string(),
        access_expires_at: 1111,
        refresh_expires_at: 2222,
    }
}

fn fresh_session() -> Session {
    Session::boot("http://localhost:3000/api/v1".to_string(), empty_store())
}

#[test]
fn clear_tokens_is_idempotent() {
    let mut s = fresh_session();
    s.persist_tokens(&bundle(), Ok(())).unwrap();

    assert!(s.clear_tokens(Ok(())).is_ok());
    assert_eq!(s.get_tokens().unwrap(), None);
    assert!(matches!(s.store.tokens, StoredTokens::Absent));

    assert!(s.clear_tokens(Ok(())).is_ok());
    assert_eq!(s.get_tokens().unwrap(), None);
    assert!(matches!(s.store.tokens, StoredTokens::Absent));
}

#[test]
fn persist_then_reload_after_restart_roundtrips() {
    let mut s = fresh_session();
    s.persist_tokens(&bundle(), Ok(())).unwrap();

    // A fresh process keeps the store but loses the in-memory cache.
    let mut reborn = Session::boot(s.api_base.clone(), s.store);
    assert_eq!(reborn.get_tokens().unwrap(), Some(bundle()));
}

#[test]
fn failed_save_keeps_cache_and_store_unchanged() {
    let mut s = fresh_session();
    let r = s.persist_tokens(&bundle(), Err("disk full".to_string()));
    assert_eq!(
        r,
        Err(ApiError::Storage(
            "could not save token store: disk full".to_string()
        ))
    );
    assert_eq!(s.tokens, None);
    assert!(matches!(s.store.tokens, StoredTokens::Absent));
}

#[test]
fn corrupt_store_is_a_storage_error_not_absence() {
    let mut s = Session::boot(
        "http://localhost:3000/api/v1".to_string(),
        CredentialStore { tokens: StoredTokens::Corrupt("bad byte".to_string()), api_base: None },
    );
    assert_eq!(
        s.get_tokens(),
        Err(ApiError::Storage(
            "could not deserialize stored tokens: bad byte".to_string()
        ))
    );
}

#[test]
fn require_tokens_reports_unauthenticated_when_absent() {
    let mut s = fresh_session();
    assert_eq!(s.require_tokens(), Err(ApiError::Unauthenticated));
}

#[test]
fn get_tokens_caches_the_loaded_bundle() {
    let mut s = Session::boot(
        "http://localhost:3000/api/v1".to_string(),
        CredentialStore { tokens: StoredTokens::Present(bundle()), api_base: None },
    );
    assert_eq!(s.get_tokens().unwrap(), Some(bundle()));
    assert_eq!(s.tokens, Some(bundle()));
    assert_eq!(s.require_tokens().unwrap(), bundle());
}

#[test]
fn set_api_base_normalizes_persists_and_adopts() {
    let mut s = fresh_session();
    let r = s.set_api_base("https://galynx.local", Ok(()));
    assert_eq!(r.unwrap(), "https://galynx.local/api/v1");
    assert_eq!(s.api_base, "https://galynx.local/api/v1");
    assert_eq!(s.store.api_base.as_deref(), Some("https://galynx.local/api/v1"));
}

#[test]
fn set_api_base_rejects_missing_scheme() {
    let mut s = fresh_session();
    let r = s.set_api_base("galynx.local", Ok(()));
    assert_eq!(
        r,
        Err(ApiError::InvalidResponse("invalid API base URL".to_string()))
    );
    assert_eq!(s.api_base, "http://localhost:3000/api/v1");
    assert_eq!(s.store.api_base, None);
}

#[test]
fn set_api_base_save_failure_changes_nothing() {
    let mut s = fresh_session();
    let r = s.set_api_base("https://galynx.local", Err("readonly".to_string()));
    assert_eq!(
        r,
        Err(ApiError::Storage("could not save api_base: readonly".to_string()))
    );
    assert_eq!(s.api_base, "http://localhost:3000/api/v1");
    assert_eq!(s.store.api_base, None);
}

#[test]
fn refresh_apply_rejection_maps_to_http_error() {
    let mut s = fresh_session();
    let body = "{\"error\":\"unauthorized\",\"message\":\"refresh token expired\"}";
    let r = s.refresh_apply(401, body, Ok(()));
    assert_eq!(
        r,
        Err(ApiError::Http {
            status: 401,
            error: "unauthorized".to_string(),
            message: "refresh token expired".to_string(),
        })
    );
    assert_eq!(s.tokens, None);
}

#[test]
fn refresh_apply_unstructured_rejection_uses_defaults() {
    let mut s = fresh_session();
    let r = s.refresh_apply(500, "gateway blew up", Ok(()));
    assert_eq!(
        r,
        Err(ApiError::Http {
            status: 500,
            error: "refresh_failed".to_string(),
            message: "gateway blew up".to_string(),
        })
    );

    let r = s.refresh_apply(401, "{}", Ok(()));
    assert_eq!(
        r,
        Err(ApiError::Http {
            status: 401,
            error: "unauthorized".to_string(),
            message: "refresh failed".to_string(),
        })
    );
}

#[test]
fn refresh_apply_success_replaces_the_bundle_wholesale() {
    let mut s = fresh_session();
    s.persist_tokens(&bundle(), Ok(())).unwrap();

    let body = "{\"access_token\":\"access-2\",\"refresh_token\":\"refresh-2\",\
                \"access_expires_at\":3333,\"refresh_expires_at\":4444}";
    assert!(s.refresh_apply(200, body, Ok(())).is_ok());

    let expected = TokenBundle {
        access_token: "access-2".to_string(),
        refresh_token: "refresh-2".to_string(),
        access_expires_at: 3333,
        refresh_expires_at: 4444,
    };
    assert_eq!(s.tokens, Some(expected.clone()));
    assert_eq!(s.store.tokens, StoredTokens::Present(expected));
}

#[test]
fn refresh_apply_with_partial_bundle_is_invalid() {
    let mut s = fresh_session();
    let body = "{\"access_token\":\"only-half\"}";
    let r = s.refresh_apply(200, body, Ok(()));
    assert_eq!(
        r,
        Err(ApiError::InvalidResponse("refresh response invalid".to_string()))
    );
    assert_eq!(s.tokens, None);
}

#[test]
fn realtime_connect_is_single_flight() {
    let mut s = fresh_session();
    assert!(s.realtime_connect_begin());
    assert!(!s.realtime_connect_begin());
    assert!(s.realtime_disconnect_take());
    assert!(!s.realtime_disconnect_take());
    assert!(s.realtime_connect_begin());
}

#[test]
fn startup_probe_runs_only_for_a_loaded_bundle() {
    assert!(session_probe_planned(&Ok(Some(bundle()))));
    assert!(!session_probe_planned(&Ok(None)));
    assert!(!session_probe_planned(&Err(ApiError::Storage("x".to_string()))));

    assert!(probe_failure_clears(&Err(ApiError::Unauthenticated)));
    assert!(!probe_failure_clears(&Ok(Some("{}".to_string()))));
}
