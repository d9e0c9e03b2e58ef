//! The request executor's retry policy.
//!
//! Every outbound call runs through one loop: dispatch, then decide on the
//! response. A 401 on an authenticated call triggers a single token refresh
//! and one retry; a 429 backs off 200ms then 400ms and retries at most twice;
//! everything else finishes the call. The transport is outside the library:
//! a driver dispatches the request, hands the [`Outcome`] to
//! [`executor_step`], and performs the [`Step`] it returns.

use vstd::prelude::*;
use vstd::string::*;
use crate::errors::{ApiError, ApiErrorView};
use crate::json::{error_fields_of, json_body_is_valid, json_parses, opt_text, parse_error_fields};
use crate::{is_success_status, status_is_success};

verus! {

/// Retry bookkeeping of one logical call.
#[derive(Clone, Copy, Debug, PartialEq, Eq, Structural)]
pub struct RetryState {
    /// Whether the call needs a bearer credential.
    pub auth_required: bool,
    /// Whether the single refresh retry has been spent.
    pub refreshed_once: bool,
    /// Rate-limit retries spent so far (capped at 2).
    pub rate_retries: u8,
}

/// The bookkeeping a call starts with.
pub open spec fn initial_retry_state(auth_required: bool) -> RetryState {
    RetryState { auth_required, refreshed_once: false, rate_retries: 0 }
}

impl RetryState {
    /// Start a logical call.
    pub fn new(auth_required: bool) -> (r: RetryState)
        ensures
            r == initial_retry_state(auth_required),
    {
        RetryState { auth_required, refreshed_once: false, rate_retries: 0 }
    }
}

/// What one dispatch of the request produced.
#[derive(Debug, PartialEq, Eq)]
pub enum Outcome {
    /// Transport-level failure (DNS, connect, TLS), before any response.
    Failure(String),
    /// A response: its status and its body text.
    Response(u16, String),
}

/// Mathematical image of an [`Outcome`].
pub enum OutcomeView {
    Failure(Seq<char>),
    Response(u16, Seq<char>),
}

impl View for Outcome {
    type V = OutcomeView;

    open spec fn view(&self) -> OutcomeView {
        match self {
            Outcome::Failure(d) => OutcomeView::Failure(d@),
            Outcome::Response(status, body) => OutcomeView::Response(*status, body@),
        }
    }
}

/// What the driver must do next.
#[derive(Debug, PartialEq, Eq)]
pub enum Step {
    /// Refresh the token, then dispatch the same request again.
    RefreshAndRetry,
    /// Sleep this many milliseconds, then dispatch the same request again.
    BackoffAndRetry(u64),
    /// The call is over: a validated JSON body (`None` for an empty one), or
    /// the error.
    Finish(Result<Option<String>, ApiError>),
}

/// Mathematical image of a [`Step`].
pub enum StepView {
    RefreshAndRetry,
    BackoffAndRetry(u64),
    Finish(Result<Option<Seq<char>>, ApiErrorView>),
}

impl View for Step {
    type V = StepView;

    open spec fn view(&self) -> StepView {
        match self {
            Step::RefreshAndRetry => StepView::RefreshAndRetry,
            Step::BackoffAndRetry(ms) => StepView::BackoffAndRetry(*ms),
            Step::Finish(res) => StepView::Finish(
                match res {
                    Ok(Some(s)) => Ok(Some(s@)),
                    Ok(None) => Ok(None),
                    Err(e) => Err(e@),
                },
            ),
        }
    }
}

/// The delay before rate-limit retry number `attempt + 1`: 200ms doubled per
/// attempt already spent.
pub open spec fn rate_backoff_ms(attempt: u8) -> u64 {
    200u64 << (attempt as u64)
}

/// The first two rate-limit delays are 200ms and 400ms.
pub proof fn lemma_rate_backoff_values()
    ensures
        rate_backoff_ms(0) == 200,
        rate_backoff_ms(1) == 400,
{
    assert(200u64 << 0u64 == 200u64 && 200u64 << 1u64 == 400u64) by (bit_vector);
}

/// Compute the delay before the next rate-limit retry.
pub fn rate_backoff(attempt: u8) -> (r: u64)
    requires
        attempt < 2,
    ensures
        r == rate_backoff_ms(attempt),
{
    200u64 << (attempt as u64)
}

/// The error for a non-2xx response: the structured `error` and `message`
/// fields where the body is JSON (with the given defaults for missing
/// fields), otherwise the fallback error code with the raw body as message.
pub open spec fn http_failure_spec(
    status: u16,
    body: Seq<char>,
    unparsed_error: Seq<char>,
    missing_error: Seq<char>,
    missing_message: Seq<char>,
) -> ApiErrorView {
    match error_fields_of(body) {
        Some(fields) => ApiErrorView::Http {
            status,
            error: if fields.0 is Some {
                fields.0->0
            } else {
                missing_error
            },
            message: if fields.1 is Some {
                fields.1->0
            } else {
                missing_message
            },
        },
        None => ApiErrorView::Http { status, error: unparsed_error, message: body },
    }
}

/// Build the error for a non-2xx response.
pub fn http_failure(
    status: u16,
    body: String,
    unparsed_error: &str,
    missing_error: &str,
    missing_message: &str,
) -> (r: ApiError)
    ensures
        r@ == http_failure_spec(
            status,
            body@,
            unparsed_error@,
            missing_error@,
            missing_message@,
        ),
{
    match parse_error_fields(body.as_str()) {
        Some((e, m)) => ApiError::Http {
            status,
            error: match e {
                Some(x) => x,
                None => missing_error.to_owned(),
            },
            message: match m {
                Some(x) => x,
                None => missing_message.to_owned(),
            },
        },
        None => ApiError::Http { status, error: unparsed_error.to_owned(), message: body },
    }
}

/// The decision on one dispatch outcome: the next bookkeeping and the step
/// the driver must take. The cases are checked in this order: transport
/// failure, 401 with a refresh left, 429 with a rate retry left, 204, other
/// non-2xx, empty body, JSON body, undecodable body.
pub open spec fn step_spec(st: RetryState, outcome: OutcomeView) -> (RetryState, StepView) {
    match outcome {
        OutcomeView::Failure(d) => (st, StepView::Finish(Err(ApiErrorView::Network(d)))),
        OutcomeView::Response(status, body) => {
            if status == 401 && st.auth_required && !st.refreshed_once {
                (
                    RetryState { refreshed_once: true, ..st },
                    StepView::RefreshAndRetry,
                )
            } else if status == 429 && st.rate_retries < 2 {
                (
                    RetryState { rate_retries: (st.rate_retries + 1) as u8, ..st },
                    StepView::BackoffAndRetry(rate_backoff_ms(st.rate_retries)),
                )
            } else if status == 204 {
                (st, StepView::Finish(Ok(None)))
            } else if !is_success_status(status) {
                (
                    st,
                    StepView::Finish(
                        Err(
                            http_failure_spec(
                                status,
                                body,
                                "http_error"@,
                                "unknown_error"@,
                                "Request failed"@,
                            ),
                        ),
                    ),
                )
            } else if body.len() == 0 {
                (st, StepView::Finish(Ok(None)))
            } else if json_parses(body) {
                (st, StepView::Finish(Ok(Some(body))))
            } else {
                (
                    st,
                    StepView::Finish(
                        Err(ApiErrorView::InvalidResponse("failed to decode json body"@)),
                    ),
                )
            }
        },
    }
}

/// Decide on one dispatch outcome.
pub fn executor_step(st: RetryState, outcome: Outcome) -> (r: (RetryState, Step))
    ensures
        r.0 == step_spec(st, outcome@).0,
        r.1@ == step_spec(st, outcome@).1,
{
    match outcome {
        Outcome::Failure(d) => (st, Step::Finish(Err(ApiError::Network(d)))),
        Outcome::Response(status, body) => {
            if status == 401 && st.auth_required && !st.refreshed_once {
                (RetryState { refreshed_once: true, ..st }, Step::RefreshAndRetry)
            } else if status == 429 && st.rate_retries < 2 {
                let delay = rate_backoff(st.rate_retries);
                (
                    RetryState { rate_retries: st.rate_retries + 1, ..st },
                    Step::BackoffAndRetry(delay),
                )
            } else if status == 204 {
                (st, Step::Finish(Ok(None)))
            } else if !status_is_success(status) {
                let e = http_failure(status, body, "http_error", "unknown_error", "Request failed");
                (st, Step::Finish(Err(e)))
            } else if body.as_str().is_empty() {
                (st, Step::Finish(Ok(None)))
            } else if json_body_is_valid(body.as_str()) {
                (st, Step::Finish(Ok(Some(body))))
            } else {
                (
                    st,
                    Step::Finish(
                        Err(ApiError::InvalidResponse(String::from_str("failed to decode json body"))),
                    ),
                )
            }
        },
    }
}

/// The steps a whole call takes on a script of outcomes: decisions are made
/// in order until one finishes the call.
pub open spec fn drive(st: RetryState, outcomes: Seq<OutcomeView>) -> Seq<StepView>
    decreases outcomes.len(),
{
    if outcomes.len() == 0 {
        Seq::empty()
    } else {
        let next = step_spec(st, outcomes[0]);
        if next.1 is Finish {
            seq![next.1]
        } else {
            seq![next.1] + drive(next.0, outcomes.subrange(1, outcomes.len() as int))
        }
    }
}

/// How many refresh retries a trace holds.
pub open spec fn refresh_count(steps: Seq<StepView>) -> nat
    decreases steps.len(),
{
    if steps.len() == 0 {
        0
    } else {
        (if steps[0] is RefreshAndRetry {
            1nat
        } else {
            0nat
        }) + refresh_count(steps.subrange(1, steps.len() as int))
    }
}

/// How many rate-limit retries a trace holds.
pub open spec fn backoff_count(steps: Seq<StepView>) -> nat
    decreases steps.len(),
{
    if steps.len() == 0 {
        0
    } else {
        (if steps[0] is BackoffAndRetry {
            1nat
        } else {
            0nat
        }) + backoff_count(steps.subrange(1, steps.len() as int))
    }
}

/// Retry budget: whatever the transport answers, one logical call spends at
/// most one refresh retry and at most two rate-limit retries.
pub proof fn lemma_retry_budget(st: RetryState, outcomes: Seq<OutcomeView>)
    requires
        st.rate_retries <= 2,
    ensures
        refresh_count(drive(st, outcomes)) <= if st.refreshed_once {
            0nat
        } else {
            1nat
        },
        backoff_count(drive(st, outcomes)) + st.rate_retries <= 2,
    decreases outcomes.len(),
{
    assert(refresh_count(Seq::<StepView>::empty()) == 0);
    assert(backoff_count(Seq::<StepView>::empty()) == 0);
    if outcomes.len() > 0 {
        let next = step_spec(st, outcomes[0]);
        let steps = drive(st, outcomes);
        if next.1 is Finish {
            assert(steps == seq![next.1]);
            assert(steps[0] == next.1);
            assert(steps.subrange(1, steps.len() as int) =~= Seq::<StepView>::empty());
            assert(refresh_count(steps) == 0);
            assert(backoff_count(steps) == 0);
        } else {
            let rest = outcomes.subrange(1, outcomes.len() as int);
            let tail = drive(next.0, rest);
            lemma_retry_budget(next.0, rest);
            assert(steps == seq![next.1] + tail);
            assert(steps[0] == next.1);
            assert(steps.subrange(1, steps.len() as int) =~= tail);
            assert(refresh_count(steps) == (if next.1 is RefreshAndRetry {
                1nat
            } else {
                0nat
            }) + refresh_count(tail));
            assert(backoff_count(steps) == (if next.1 is BackoffAndRetry {
                1nat
            } else {
                0nat
            }) + backoff_count(tail));
            if next.1 is RefreshAndRetry {
                assert(!st.refreshed_once && next.0.refreshed_once);
            } else {
                assert(next.1 is BackoffAndRetry);
                assert(next.0.rate_retries == st.rate_retries + 1);
            }
        }
    }
}

/// A 401 on an authenticated call triggers exactly one refresh, and the
/// retried request's result is returned: the caller never observes the
/// intermediate 401.
pub proof fn lemma_unauthorized_refreshes_then_succeeds(first_body: Seq<char>, body: Seq<char>)
    requires
        body.len() > 0,
        json_parses(body),
    ensures
        drive(
            initial_retry_state(true),
            seq![OutcomeView::Response(401, first_body), OutcomeView::Response(200, body)],
        ) == seq![StepView::RefreshAndRetry, StepView::Finish(Ok(Some(body)))],
{
    let outs = seq![OutcomeView::Response(401, first_body), OutcomeView::Response(200, body)];
    let st1 = step_spec(initial_retry_state(true), outs[0]).0;
    assert(outs.subrange(1, 2) =~= seq![OutcomeView::Response(200, body)]);
    let tail = outs.subrange(1, 2);
    assert(tail.subrange(1, 1) =~= Seq::<OutcomeView>::empty());
    assert(drive(st1, tail) =~= seq![StepView::Finish(Ok(Some(body)))]);
    assert(drive(initial_retry_state(true), outs) =~= seq![StepView::RefreshAndRetry]
        + drive(st1, tail));
}

/// A second 401 after the refresh is surfaced as that response's error: the
/// refresh retry is not repeated.
pub proof fn lemma_second_unauthorized_propagates(first_body: Seq<char>, body: Seq<char>)
    ensures
        drive(
            initial_retry_state(true),
            seq![OutcomeView::Response(401, first_body), OutcomeView::Response(401, body)],
        ) == seq![
            StepView::RefreshAndRetry,
            StepView::Finish(
                Err(
                    http_failure_spec(
                        401,
                        body,
                        "http_error"@,
                        "unknown_error"@,
                        "Request failed"@,
                    ),
                ),
            ),
        ],
{
    let outs = seq![OutcomeView::Response(401, first_body), OutcomeView::Response(401, body)];
    let st1 = step_spec(initial_retry_state(true), outs[0]).0;
    assert(outs.subrange(1, 2) =~= seq![OutcomeView::Response(401, body)]);
    let tail = outs.subrange(1, 2);
    assert(drive(st1, tail) =~= seq![
        StepView::Finish(
            Err(http_failure_spec(401, body, "http_error"@, "unknown_error"@, "Request failed"@)),
        ),
    ]);
    assert(drive(initial_retry_state(true), outs) =~= seq![StepView::RefreshAndRetry] + drive(
        st1,
        tail,
    ));
}

/// Three rate-limited responses in a row: the call backs off 200ms, then
/// 400ms, and surfaces the third 429 as a failure — the cap is two retries.
pub proof fn lemma_rate_limit_cap(b1: Seq<char>, b2: Seq<char>, b3: Seq<char>)
    ensures
        drive(
            initial_retry_state(true),
            seq![
                OutcomeView::Response(429, b1),
                OutcomeView::Response(429, b2),
                OutcomeView::Response(429, b3),
            ],
        ) == seq![
            StepView::BackoffAndRetry(200),
            StepView::BackoffAndRetry(400),
            StepView::Finish(
                Err(
                    http_failure_spec(
                        429,
                        b3,
                        "http_error"@,
                        "unknown_error"@,
                        "Request failed"@,
                    ),
                ),
            ),
        ],
{
    lemma_rate_backoff_values();
    let outs = seq![
        OutcomeView::Response(429, b1),
        OutcomeView::Response(429, b2),
        OutcomeView::Response(429, b3),
    ];
    let st0 = initial_retry_state(true);
    let st1 = step_spec(st0, outs[0]).0;
    let tail1 = outs.subrange(1, 3);
    assert(tail1 =~= seq![OutcomeView::Response(429, b2), OutcomeView::Response(429, b3)]);
    let st2 = step_spec(st1, tail1[0]).0;
    let tail2 = tail1.subrange(1, 2);
    assert(tail2 =~= seq![OutcomeView::Response(429, b3)]);
    assert(drive(st2, tail2) =~= seq![
        StepView::Finish(
            Err(http_failure_spec(429, b3, "http_error"@, "unknown_error"@, "Request failed"@)),
        ),
    ]);
    assert(drive(st1, tail1) =~= seq![StepView::BackoffAndRetry(400)] + drive(st2, tail2));
    assert(drive(st0, outs) =~= seq![StepView::BackoffAndRetry(200)] + drive(st1, tail1));
}

} // verus!
