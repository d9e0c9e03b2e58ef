use galynx_core::errors::{ApiError, ApiErrorDto};
use galynx_core::paths::{
    channel_messages_path, channel_path, clamp_limit, message_path, messages_list_path,
    thread_path, thread_replies_list_path, thread_replies_path,
};

#[test]
fn page_limits_are_defaulted_and_clamped() {
    assert_eq!(clamp_limit(None), 50);
    assert_eq!(clamp_limit(Some(0)), 1);
    assert_eq!(clamp_limit(Some(7)), 7);
    assert_eq!(clamp_limit(Some(100)), 100);
    assert_eq!(clamp_limit(Some(4000)), 100);
}

#[test]
fn listing_paths_carry_limit_and_cursor() {
    assert_eq!(
        messages_list_path("c1", None, None),
        "/channels/c1/messages?limit=50"
    );
    assert_eq!(
        messages_list_path("c1", Some(300), Some("abc")),
        "/channels/c1/messages?limit=100&cursor=abc"
    );
    assert_eq!(
        thread_replies_list_path("r9", Some(0), None),
        "/threads/r9/replies?limit=1"
    );
}

#[test]
fn entity_paths_embed_their_identifiers() {
    assert_eq!(channel_path("c1"), "/channels/c1");
    assert_eq!(channel_messages_path("c1"), "/channels/c1/messages");
    assert_eq!(message_path("m1"), "/messages/m1");
    assert_eq!(thread_path("t1"), "/threads/t1");
    assert_eq!(thread_replies_path("t1"), "/threads/t1/replies");
}

#[test]
fn http_errors_flatten_unchanged() {
    let dto: ApiErrorDto = ApiError::Http {
        status: 404,
        error: "not_found".to_string(),
        message: "no such channel".to_string(),
    }
    .into_dto();
    assert_eq!(dto.status, 404);
    assert_eq!(dto.error, "not_found");
    assert_eq!(dto.message, "no such channel");
}

#[test]
fn unauthenticated_flattens_to_a_401() {
    let dto = ApiError::Unauthenticated.into_dto();
    assert_eq!(dto.status, 401);
    assert_eq!(dto.error, "unauthorized");
    assert_eq!(dto.message, "You must sign in again.");
}

#[test]
fn other_errors_flatten_to_internal_500s() {
    let dto = ApiError::Network("boom".to_string()).into_dto();
    assert_eq!(dto.status, 500);
    assert_eq!(dto.error, "internal_error");
    assert_eq!(dto.message, "network request failed: boom");

    let dto = ApiError::Storage("disk".to_string()).into_dto();
    assert_eq!(dto.message, "storage error: disk");

    let dto = ApiError::InvalidResponse("bad".to_string()).into_dto();
    assert_eq!(dto.message, "invalid response: bad");

    let dto = ApiError::Realtime("ws".to_string()).into_dto();
    assert_eq!(dto.message, "realtime error: ws");
}

#[test]
fn http_description_renders_the_status_in_decimal() {
    let e = ApiError::Http {
        status: 429,
        error: "rate_limited".to_string(),
        message: "slow down".to_string(),
    };
    assert_eq!(e.describe(), "api returned error (429): rate_limited slow down");
}
