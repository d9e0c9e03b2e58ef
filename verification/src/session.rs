//! The process-wide session: current API base, token cache, a model of the
//! secure credential store, and the realtime task's liveness flag.
//!
//! The store itself is an outside capability (encrypted key/value persistence
//! with get/set/delete/save). The library holds its observable content under
//! the two fixed keys as plain values; the driver performs the real reads and
//! writes, keeps them in step with this model, and hands each save's outcome
//! in as a `Result<(), String>` event.

use vstd::prelude::*;
use vstd::string::*;
use crate::errors::{ApiError, ApiErrorView};
use crate::executor::{http_failure, http_failure_spec};
use crate::json::{parse_token_bundle, token_fields_of};
use crate::status_is_success;
use crate::is_success_status;
use crate::tokens::TokenBundle;
use crate::urls::{endpoint_url, normalize_api_base, normalize_spec};

verus! {

/// What the store holds under the token key: nothing, a bundle, or bytes
/// that no longer decode (the carried text is the decode failure's detail).
#[derive(Debug, PartialEq, Eq)]
pub enum StoredTokens {
    Absent,
    Present(TokenBundle),
    Corrupt(String),
}

/// Observable content of the secure credential store: the token bundle and
/// the persisted API base, each under its fixed key.
#[derive(Debug, PartialEq, Eq)]
pub struct CredentialStore {
    pub tokens: StoredTokens,
    pub api_base: Option<String>,
}

/// The process-wide session state.
#[derive(Debug, PartialEq, Eq)]
pub struct Session {
    /// Current API base, normalized.
    pub api_base: String,
    /// In-memory token cache.
    pub tokens: Option<TokenBundle>,
    /// Model of the persisted store.
    pub store: CredentialStore,
    /// Whether a realtime task (and so a live shutdown handle) exists.
    pub realtime_active: bool,
}

/// The four fields of a bundle, as a spec tuple.
pub open spec fn bundle_fields(b: TokenBundle) -> (Seq<char>, Seq<char>, i64, i64) {
    (b.access_token@, b.refresh_token@, b.access_expires_at, b.refresh_expires_at)
}

/// What a token read observes: `None` for a corrupt store, otherwise the
/// cached bundle where present, else the persisted one.
pub open spec fn loaded_tokens(s: Session) -> Option<Option<TokenBundle>> {
    if s.tokens is Some {
        Some(s.tokens)
    } else {
        match s.store.tokens {
            StoredTokens::Absent => Some(None),
            StoredTokens::Present(b) => Some(Some(b)),
            StoredTokens::Corrupt(_) => None,
        }
    }
}

/// The session with the cache set to `t`.
pub open spec fn with_cached(s: Session, t: Option<TokenBundle>) -> Session {
    Session { tokens: t, ..s }
}

/// The session after a successful persist of `b`: cache and store both hold
/// the bundle, nothing else moves.
pub open spec fn persisted(s: Session, b: TokenBundle) -> Session {
    Session {
        tokens: Some(b),
        store: CredentialStore { tokens: StoredTokens::Present(b), ..s.store },
        ..s
    }
}

/// The session after a successful clear: cache and store both empty.
pub open spec fn cleared(s: Session) -> Session {
    Session {
        tokens: None,
        store: CredentialStore { tokens: StoredTokens::Absent, ..s.store },
        ..s
    }
}

/// The session a fresh process sees: the persisted store survives, the cache
/// and the realtime task do not.
pub open spec fn restarted(s: Session) -> Session {
    Session { tokens: None, realtime_active: false, ..s }
}

/// The detail a corrupt store entry carries.
pub open spec fn corrupt_detail(t: StoredTokens) -> Seq<char> {
    match t {
        StoredTokens::Corrupt(d) => d@,
        _ => Seq::empty(),
    }
}

/// Clearing tokens is idempotent: after one clear as after two, the cache
/// and the stored entry are absent, and the state no longer moves.
pub proof fn lemma_clear_tokens_idempotent(s: Session)
    ensures
        cleared(cleared(s)) == cleared(s),
        cleared(s).tokens is None,
        cleared(s).store.tokens is Absent,
{
}

/// Round trip: a persisted bundle survives a process restart — a fresh
/// session reading tokens gets a bundle equal to the one persisted.
pub proof fn lemma_persist_reload_roundtrip(s: Session, b: TokenBundle)
    ensures
        loaded_tokens(restarted(persisted(s, b))) == Some(Some(b)),
{
}

impl Session {
    /// Construct the session at process start.
    pub fn boot(api_base: String, store: CredentialStore) -> (r: Session)
        ensures
            r == (Session { api_base, tokens: None, store, realtime_active: false }),
    {
        Session { api_base, tokens: None, store, realtime_active: false }
    }

    /// The current API base.
    pub fn current_api_base(&self) -> (r: String)
        ensures
            r == self.api_base,
    {
        self.api_base.clone()
    }

    /// The full URL for a relative path.
    pub fn endpoint(&self, path: &str) -> (r: String)
        ensures
            r@ == self.api_base@ + path@,
    {
        endpoint_url(self.api_base.as_str(), path)
    }

    /// Read the tokens: the cached bundle where present, otherwise the
    /// persisted one (which is then cached). Absence is a valid `None`; only
    /// a corrupt store is an error, and it changes nothing.
    pub fn get_tokens(&mut self) -> (r: Result<Option<TokenBundle>, ApiError>)
        ensures
            match loaded_tokens(*old(self)) {
                Some(t) => r == Ok::<Option<TokenBundle>, ApiError>(t) && *final(self)
                    == with_cached(*old(self), t),
                None => *final(self) == *old(self) && r is Err && r->Err_0@
                    == ApiErrorView::Storage(
                    "could not deserialize stored tokens: "@ + corrupt_detail(
                        old(self).store.tokens,
                    ),
                ),
            },
    {
        if let Some(t) = &self.tokens {
            return Ok(Some(t.clone()));
        }
        match &self.store.tokens {
            StoredTokens::Absent => {
                self.tokens = None;
                Ok(None)
            },
            StoredTokens::Present(b) => {
                let loaded = b.clone();
                self.tokens = Some(loaded.clone());
                Ok(Some(loaded))
            },
            StoredTokens::Corrupt(d) => {
                let mut msg = String::from_str("could not deserialize stored tokens: ");
                msg.append(d.as_str());
                Err(ApiError::Storage(msg))
            },
        }
    }

    /// Read the tokens, turning absence into `Unauthenticated`. Every
    /// authenticated call site goes through this.
    pub fn require_tokens(&mut self) -> (r: Result<TokenBundle, ApiError>)
        ensures
            match loaded_tokens(*old(self)) {
                Some(t) => *final(self) == with_cached(*old(self), t) && (match t {
                    Some(b) => r == Ok::<TokenBundle, ApiError>(b),
                    None => r == Err::<TokenBundle, ApiError>(ApiError::Unauthenticated),
                }),
                None => *final(self) == *old(self) && r is Err && r->Err_0@
                    == ApiErrorView::Storage(
                    "could not deserialize stored tokens: "@ + corrupt_detail(
                        old(self).store.tokens,
                    ),
                ),
            },
    {
        match self.get_tokens() {
            Ok(Some(b)) => Ok(b),
            Ok(None) => Err(ApiError::Unauthenticated),
            Err(e) => Err(e),
        }
    }

    /// Overwrite the stored bundle and the cache together. On a failed save
    /// (its outcome comes in as `save_result`) nothing changes and the
    /// failure is surfaced as a storage error.
    pub fn persist_tokens(&mut self, bundle: &TokenBundle, save_result: Result<(), String>) -> (r:
        Result<(), ApiError>)
        ensures
            match save_result {
                Ok(_) => *final(self) == persisted(*old(self), *bundle) && r == Ok::<
                    (),
                    ApiError,
                >(()),
                Err(e) => *final(self) == *old(self) && r is Err && r->Err_0@
                    == ApiErrorView::Storage("could not save token store: "@ + e@),
            },
    {
        match save_result {
            Ok(_) => {
                self.tokens = Some(bundle.clone());
                self.store.tokens = StoredTokens::Present(bundle.clone());
                Ok(())
            },
            Err(e) => {
                let mut msg = String::from_str("could not save token store: ");
                msg.append(e.as_str());
                Err(ApiError::Storage(msg))
            },
        }
    }

    /// Delete the persisted bundle and reset the cache. Idempotent. On a
    /// failed save nothing changes.
    pub fn clear_tokens(&mut self, save_result: Result<(), String>) -> (r: Result<(), ApiError>)
        ensures
            match save_result {
                Ok(_) => *final(self) == cleared(*old(self)) && r == Ok::<(), ApiError>(()),
                Err(e) => *final(self) == *old(self) && r is Err && r->Err_0@
                    == ApiErrorView::Storage("could not save token store: "@ + e@),
            },
    {
        match save_result {
            Ok(_) => {
                self.store.tokens = StoredTokens::Absent;
                self.tokens = None;
                Ok(())
            },
            Err(e) => {
                let mut msg = String::from_str("could not save token store: ");
                msg.append(e.as_str());
                Err(ApiError::Storage(msg))
            },
        }
    }

    /// Adopt a new API base: reject what does not normalize, otherwise
    /// persist the normalized form (the save's outcome comes in as
    /// `save_result`) and adopt it in memory.
    pub fn set_api_base(&mut self, value: &str, save_result: Result<(), String>) -> (r: Result<
        String,
        ApiError,
    >)
        ensures
            match normalize_spec(value@) {
                None => *final(self) == *old(self) && r is Err && r->Err_0@
                    == ApiErrorView::InvalidResponse("invalid API base URL"@),
                Some(n) => match save_result {
                    Ok(_) => final(self).api_base@ == n && final(self).store.api_base is Some
                        && final(self).store.api_base->0@ == n
                        && final(self).tokens == old(self).tokens
                        && final(self).store.tokens == old(self).store.tokens
                        && final(self).realtime_active == old(self).realtime_active
                        && r is Ok && r->Ok_0@ == n,
                    Err(e) => *final(self) == *old(self) && r is Err && r->Err_0@
                        == ApiErrorView::Storage("could not save api_base: "@ + e@),
                },
            },
    {
        match normalize_api_base(value) {
            None => Err(ApiError::InvalidResponse(String::from_str("invalid API base URL"))),
            Some(n) => match save_result {
                Ok(_) => {
                    self.store.api_base = Some(n.clone());
                    self.api_base = n.clone();
                    Ok(n)
                },
                Err(e) => {
                    let mut msg = String::from_str("could not save api_base: ");
                    msg.append(e.as_str());
                    Err(ApiError::Storage(msg))
                },
            },
        }
    }

    /// Digest the refresh endpoint's response: a non-2xx becomes the
    /// structured error (defaults `unauthorized` / `refresh failed`, or
    /// `refresh_failed` with the raw body when it is not JSON); a 2xx whose
    /// body is no bundle is invalid; a bundle is persisted wholesale.
    pub fn refresh_apply(&mut self, status: u16, body: &str, save_result: Result<(), String>) -> (r:
        Result<(), ApiError>)
        ensures
            !is_success_status(status) ==> *final(self) == *old(self) && r is Err && r->Err_0@
                == http_failure_spec(
                status,
                body@,
                "refresh_failed"@,
                "unauthorized"@,
                "refresh failed"@,
            ),
            is_success_status(status) ==> match token_fields_of(body@) {
                None => *final(self) == *old(self) && r is Err && r->Err_0@
                    == ApiErrorView::InvalidResponse("refresh response invalid"@),
                Some(f) => match save_result {
                    Ok(_) => r is Ok && final(self).tokens is Some && bundle_fields(
                        final(self).tokens->0,
                    ) == f && *final(self) == persisted(*old(self), final(self).tokens->0),
                    Err(e) => *final(self) == *old(self) && r is Err && r->Err_0@
                        == ApiErrorView::Storage("could not save token store: "@ + e@),
                },
            },
    {
        if !status_is_success(status) {
            return Err(
                http_failure(status, body.to_owned(), "refresh_failed", "unauthorized", "refresh failed"),
            );
        }
        match parse_token_bundle(body) {
            None => Err(ApiError::InvalidResponse(String::from_str("refresh response invalid"))),
            Some(b) => self.persist_tokens(&b, save_result),
        }
    }

    /// Digest the login endpoint's 2xx body: no bundle in it is invalid, a
    /// bundle is persisted wholesale and returned.
    pub fn login_apply(&mut self, body: &str, save_result: Result<(), String>) -> (r: Result<
        TokenBundle,
        ApiError,
    >)
        ensures
            match token_fields_of(body@) {
                None => *final(self) == *old(self) && r is Err && r->Err_0@
                    == ApiErrorView::InvalidResponse("login response invalid"@),
                Some(f) => match save_result {
                    Ok(_) => r is Ok && bundle_fields(r->Ok_0) == f && *final(self) == persisted(
                        *old(self),
                        r->Ok_0,
                    ),
                    Err(e) => *final(self) == *old(self) && r is Err && r->Err_0@
                        == ApiErrorView::Storage("could not save token store: "@ + e@),
                },
            },
    {
        match parse_token_bundle(body) {
            None => Err(ApiError::InvalidResponse(String::from_str("login response invalid"))),
            Some(b) => match self.persist_tokens(&b, save_result) {
                Ok(_) => Ok(b),
                Err(e) => Err(e),
            },
        }
    }

    /// Claim the right to start the realtime task: a no-op that reports
    /// `false` while one is already active, so at most one task exists.
    pub fn realtime_connect_begin(&mut self) -> (started: bool)
        ensures
            final(self).realtime_active,
            final(self).api_base == old(self).api_base,
            final(self).tokens == old(self).tokens,
            final(self).store == old(self).store,
            started == !old(self).realtime_active,
    {
        if self.realtime_active {
            false
        } else {
            self.realtime_active = true;
            true
        }
    }

    /// Take the live shutdown handle, if any: reports whether there was a
    /// task to signal, and leaves the session disconnected either way.
    pub fn realtime_disconnect_take(&mut self) -> (had: bool)
        ensures
            !final(self).realtime_active,
            final(self).api_base == old(self).api_base,
            final(self).tokens == old(self).tokens,
            final(self).store == old(self).store,
            had == old(self).realtime_active,
    {
        let had = self.realtime_active;
        self.realtime_active = false;
        had
    }
}

/// Whether the startup probe of a stored session runs: only when loading
/// found a bundle. A load error is reported but clears nothing, and an
/// absent bundle needs no probe.
pub fn session_probe_planned(loaded: &Result<Option<TokenBundle>, ApiError>) -> (r: bool)
    ensures
        r == (loaded matches Ok(Some(_))),
{
    matches!(loaded, Ok(Some(_)))
}

/// Whether the probe's outcome forces the stored session out: any failure
/// (network, auth or decode) clears it, a success keeps it.
pub fn probe_failure_clears(probe: &Result<Option<String>, ApiError>) -> (r: bool)
    ensures
        r == (probe is Err),
{
    probe.is_err()
}

} // verus!
