use galynx_core::errors::ApiError;
use galynx_core::executor::{executor_step, Outcome, RetryState, Step};

fn response(status: u16, body: &str) -> Outcome {
    Outcome::Response(status, body.to_string())
}

#[test]
fn unauthorized_once_refreshes_then_succeeds() {
    let st = RetryState::new(true);
    let (st, step) = executor_step(st, response(401, ""));
    assert_eq!(step, Step::RefreshAndRetry);
    assert!(st.refreshed_once);

    let (_, step) = executor_step(st, response(200, "{\"id\":\"u1\"}"));
    assert_eq!(step, Step::Finish(Ok(Some("{\"id\":\"u1\"}".to_string()))));
}

#[test]
fn second_unauthorized_is_surfaced() {
    let st = RetryState::new(true);
    let (st, step) = executor_step(st, response(401, ""));
    assert_eq!(step, Step::RefreshAndRetry);

    let body = "{\"error\":\"unauthorized\",\"message\":\"token expired\"}";
    let (_, step) = executor_step(st, response(401, body));
    assert_eq!(
        step,
        Step::Finish(Err(ApiError::Http {
            status: 401,
            error: "unauthorized".to_string(),
            message: "token expired".to_string(),
        }))
    );
}

#[test]
fn unauthenticated_call_does_not_refresh() {
    // An unauthenticated call treats a 401 like any other failure.
    let st = RetryState::new(false);
    let (_, step) = executor_step(st, response(401, "not json"));
    assert_eq!(
        step,
        Step::Finish(Err(ApiError::Http {
            status: 401,
            error: "http_error".to_string(),
            message: "not json".to_string(),
        }))
    );
}

#[test]
fn rate_limit_retries_twice_then_surfaces() {
    let st = RetryState::new(true);
    let (st, step) = executor_step(st, response(429, ""));
    assert_eq!(step, Step::BackoffAndRetry(200));
    let (st, step) = executor_step(st, response(429, ""));
    assert_eq!(step, Step::BackoffAndRetry(400));
    let (_, step) = executor_step(st, response(429, "not json"));
    assert_eq!(
        step,
        Step::Finish(Err(ApiError::Http {
            status: 429,
            error: "http_error".to_string(),
            message: "not json".to_string(),
        }))
    );
}

#[test]
fn rate_limit_then_success() {
    let st = RetryState::new(true);
    let (st, step) = executor_step(st, response(429, ""));
    assert_eq!(step, Step::BackoffAndRetry(200));
    let (st, step) = executor_step(st, response(429, ""));
    assert_eq!(step, Step::BackoffAndRetry(400));
    let (_, step) = executor_step(st, response(200, "[1,2,3]"));
    assert_eq!(step, Step::Finish(Ok(Some("[1,2,3]".to_string()))));
}

#[test]
fn transport_failure_maps_to_network() {
    let st = RetryState::new(true);
    let (_, step) = executor_step(st, Outcome::Failure("dns lookup failed".to_string()));
    assert_eq!(
        step,
        Step::Finish(Err(ApiError::Network("dns lookup failed".to_string())))
    );
}

#[test]
fn no_content_and_empty_bodies_succeed_with_nothing() {
    let st = RetryState::new(true);
    let (_, step) = executor_step(st, response(204, ""));
    assert_eq!(step, Step::Finish(Ok(None)));

    let st = RetryState::new(true);
    let (_, step) = executor_step(st, response(200, ""));
    assert_eq!(step, Step::Finish(Ok(None)));
}

#[test]
fn undecodable_success_body_is_invalid_response() {
    let st = RetryState::new(true);
    let (_, step) = executor_step(st, response(200, "<html>oops</html>"));
    assert_eq!(
        step,
        Step::Finish(Err(ApiError::InvalidResponse(
            "failed to decode json body".to_string()
        )))
    );
}

#[test]
fn structured_error_body_keeps_its_fields() {
    let st = RetryState::new(false);
    let body = "{\"error\":\"not_found\",\"message\":\"no such channel\"}";
    let (_, step) = executor_step(st, response(404, body));
    assert_eq!(
        step,
        Step::Finish(Err(ApiError::Http {
            status: 404,
            error: "not_found".to_string(),
            message: "no such channel".to_string(),
        }))
    );
}

#[test]
fn error_body_fields_fall_back_when_missing() {
    let st = RetryState::new(false);
    let (_, step) = executor_step(st, response(500, "{\"detail\":\"x\"}"));
    assert_eq!(
        step,
        Step::Finish(Err(ApiError::Http {
            status: 500,
            error: "unknown_error".to_string(),
            message: "Request failed".to_string(),
        }))
    );
}
