//! The realtime reconnect state machine.
//!
//! One long-lived task keeps a duplex stream to the API's event channel. The
//! task's decisions live here: a driver performs the connects, reads and
//! sleeps, feeds each result in as an [`RtEvent`], and carries out the
//! [`RtAction`]s that come back. Reconnection backs off exponentially from a
//! floor of 1s to a ceiling of 30s; an explicit shutdown or a missing
//! credential ends the task with a final `offline` status.

use vstd::prelude::*;
use vstd::string::*;
use crate::json::{frame_event_type, frame_fields_of};

verus! {

/// Backoff floor in seconds.
pub const BACKOFF_FLOOR_SECS: u64 = 1;

/// Backoff ceiling in seconds.
pub const BACKOFF_CEILING_SECS: u64 = 30;

/// Status reported to subscribers under the `realtime:status` event.
#[derive(Clone, Copy, Debug, PartialEq, Eq, Structural)]
pub enum RtStatus {
    Reconnecting,
    Online,
    Offline,
}

/// The status discriminator as the frontend sees it.
pub open spec fn status_name_spec(s: RtStatus) -> Seq<char> {
    match s {
        RtStatus::Reconnecting => "reconnecting"@,
        RtStatus::Online => "online"@,
        RtStatus::Offline => "offline"@,
    }
}

/// Render a status for the emitted payload.
pub fn status_name(s: RtStatus) -> (r: &'static str)
    ensures
        r@ == status_name_spec(s),
{
    match s {
        RtStatus::Reconnecting => "reconnecting",
        RtStatus::Online => "online",
        RtStatus::Offline => "offline",
    }
}

/// Where the task stands.
#[derive(Clone, Copy, Debug, PartialEq, Eq, Structural)]
pub enum RtPhase {
    /// About to attempt a connection.
    Connecting,
    /// Reading frames from a live stream.
    Online,
    /// Sleeping out the backoff before the next attempt.
    Waiting,
    /// The task has ended; only an explicit reconnect starts a new one.
    Terminated,
}

/// The machine's state: the phase and the current backoff.
#[derive(Clone, Copy, Debug, PartialEq, Eq, Structural)]
pub struct RtState {
    pub phase: RtPhase,
    pub backoff_secs: u64,
}

/// The backoff always stays between the floor and the ceiling.
pub open spec fn rt_wf(st: RtState) -> bool {
    BACKOFF_FLOOR_SECS <= st.backoff_secs <= BACKOFF_CEILING_SECS
}

/// What the driver observed.
#[derive(Debug)]
pub enum RtEvent {
    /// No credential is available for the handshake.
    TokensUnavailable,
    /// The handshake request could not be built (malformed endpoint).
    HandshakeFailed,
    /// The connection is up.
    Connected,
    /// The connect attempt failed (transient network condition).
    ConnectFailed,
    /// A text frame arrived; the carried string is its payload.
    FrameText(String),
    /// A non-text, non-close frame arrived.
    FrameIgnored,
    /// The peer closed the stream.
    FrameClosed,
    /// Reading the stream failed.
    FrameFailed,
    /// The stream ended.
    StreamEnded,
    /// The explicit shutdown signal fired.
    Shutdown,
    /// The backoff sleep ran out.
    WaitElapsed,
}

/// Mathematical image of an [`RtEvent`].
pub enum RtEventView {
    TokensUnavailable,
    HandshakeFailed,
    Connected,
    ConnectFailed,
    FrameText(Seq<char>),
    FrameIgnored,
    FrameClosed,
    FrameFailed,
    StreamEnded,
    Shutdown,
    WaitElapsed,
}

impl View for RtEvent {
    type V = RtEventView;

    open spec fn view(&self) -> RtEventView {
        match self {
            RtEvent::TokensUnavailable => RtEventView::TokensUnavailable,
            RtEvent::HandshakeFailed => RtEventView::HandshakeFailed,
            RtEvent::Connected => RtEventView::Connected,
            RtEvent::ConnectFailed => RtEventView::ConnectFailed,
            RtEvent::FrameText(t) => RtEventView::FrameText(t@),
            RtEvent::FrameIgnored => RtEventView::FrameIgnored,
            RtEvent::FrameClosed => RtEventView::FrameClosed,
            RtEvent::FrameFailed => RtEventView::FrameFailed,
            RtEvent::StreamEnded => RtEventView::StreamEnded,
            RtEvent::Shutdown => RtEventView::Shutdown,
            RtEvent::WaitElapsed => RtEventView::WaitElapsed,
        }
    }
}

/// Which events each phase can observe.
pub open spec fn event_fits(phase: RtPhase, ev: RtEventView) -> bool {
    match phase {
        RtPhase::Connecting => ev is TokensUnavailable || ev is HandshakeFailed || ev is Connected
            || ev is ConnectFailed,
        RtPhase::Online => ev is FrameText || ev is FrameIgnored || ev is FrameClosed
            || ev is FrameFailed || ev is StreamEnded || ev is Shutdown,
        RtPhase::Waiting => ev is Shutdown || ev is WaitElapsed,
        RtPhase::Terminated => false,
    }
}

/// What the driver must do.
#[derive(Debug, PartialEq, Eq)]
pub enum RtAction {
    /// Emit `realtime:status` with this status.
    EmitStatus(RtStatus),
    /// Emit the current frame under the generic `realtime:event` name.
    EmitFrame,
    /// Emit the current frame again under this type-qualified name.
    EmitTypedFrame(String),
    /// Sleep this many seconds, or until shutdown, whichever first.
    StartWait(u64),
    /// The task is over; stop the loop.
    Terminate,
}

/// Mathematical image of an [`RtAction`].
pub enum RtActionView {
    EmitStatus(RtStatus),
    EmitFrame,
    EmitTypedFrame(Seq<char>),
    StartWait(u64),
    Terminate,
}

impl View for RtAction {
    type V = RtActionView;

    open spec fn view(&self) -> RtActionView {
        match self {
            RtAction::EmitStatus(s) => RtActionView::EmitStatus(*s),
            RtAction::EmitFrame => RtActionView::EmitFrame,
            RtAction::EmitTypedFrame(n) => RtActionView::EmitTypedFrame(n@),
            RtAction::StartWait(secs) => RtActionView::StartWait(*secs),
            RtAction::Terminate => RtActionView::Terminate,
        }
    }
}

/// The next backoff: doubled, capped at the ceiling.
pub open spec fn next_backoff_spec(b: u64) -> u64 {
    if 2 * b > BACKOFF_CEILING_SECS {
        BACKOFF_CEILING_SECS
    } else {
        (2 * b) as u64
    }
}

/// The emissions a text frame causes: nothing for a frame that is not JSON,
/// the generic event for one without a discriminator, and additionally the
/// type-qualified event where `event_type` is present.
pub open spec fn frame_actions_spec(t: Seq<char>) -> Seq<RtActionView> {
    match frame_fields_of(t) {
        None => Seq::empty(),
        Some(None) => seq![RtActionView::EmitFrame],
        Some(Some(et)) => seq![
            RtActionView::EmitFrame,
            RtActionView::EmitTypedFrame("realtime:"@ + et),
        ],
    }
}

/// The machine's transition: the next state and the actions the driver must
/// carry out, in order.
pub open spec fn rt_step_spec(st: RtState, ev: RtEventView) -> (RtState, Seq<RtActionView>) {
    match ev {
        RtEventView::TokensUnavailable | RtEventView::HandshakeFailed | RtEventView::Shutdown => (
            RtState { phase: RtPhase::Terminated, ..st },
            seq![RtActionView::EmitStatus(RtStatus::Offline), RtActionView::Terminate],
        ),
        RtEventView::Connected => (
            RtState { phase: RtPhase::Online, backoff_secs: BACKOFF_FLOOR_SECS },
            seq![RtActionView::EmitStatus(RtStatus::Online)],
        ),
        RtEventView::ConnectFailed | RtEventView::FrameClosed | RtEventView::FrameFailed
            | RtEventView::StreamEnded => (
            RtState { phase: RtPhase::Waiting, ..st },
            seq![RtActionView::StartWait(st.backoff_secs)],
        ),
        RtEventView::FrameText(t) => (st, frame_actions_spec(t)),
        RtEventView::FrameIgnored => (st, Seq::empty()),
        RtEventView::WaitElapsed => (
            RtState { phase: RtPhase::Connecting, backoff_secs: next_backoff_spec(st.backoff_secs) },
            seq![RtActionView::EmitStatus(RtStatus::Reconnecting)],
        ),
    }
}

/// The state a fresh task starts in; the driver also emits `reconnecting`
/// first, as [`rt_start`] returns.
pub open spec fn rt_initial() -> RtState {
    RtState { phase: RtPhase::Connecting, backoff_secs: BACKOFF_FLOOR_SECS }
}

/// Start the task: the initial state and the initial `reconnecting` status.
pub fn rt_start() -> (r: (RtState, Vec<RtAction>))
    ensures
        r.0 == rt_initial(),
        r.1@.len() == 1,
        r.1@[0]@ == RtActionView::EmitStatus(RtStatus::Reconnecting),
{
    let mut actions: Vec<RtAction> = Vec::new();
    actions.push(RtAction::EmitStatus(RtStatus::Reconnecting));
    (RtState { phase: RtPhase::Connecting, backoff_secs: BACKOFF_FLOOR_SECS }, actions)
}

/// Compute the next backoff.
pub fn next_backoff(b: u64) -> (r: u64)
    requires
        b <= BACKOFF_CEILING_SECS,
    ensures
        r == next_backoff_spec(b),
{
    if b > 15 {
        BACKOFF_CEILING_SECS
    } else {
        2 * b
    }
}

/// Take one transition of the reconnect machine.
pub fn rt_step(st: RtState, ev: &RtEvent) -> (r: (RtState, Vec<RtAction>))
    requires
        rt_wf(st),
        event_fits(st.phase, ev@),
    ensures
        r.0 == rt_step_spec(st, ev@).0,
        r.1@.len() == rt_step_spec(st, ev@).1.len(),
        forall|i: int| 0 <= i < r.1@.len() ==> r.1@[i]@ == rt_step_spec(st, ev@).1[i],
        rt_wf(r.0),
{
    let mut actions: Vec<RtAction> = Vec::new();
    match ev {
        RtEvent::TokensUnavailable | RtEvent::HandshakeFailed | RtEvent::Shutdown => {
            actions.push(RtAction::EmitStatus(RtStatus::Offline));
            actions.push(RtAction::Terminate);
            (RtState { phase: RtPhase::Terminated, ..st }, actions)
        },
        RtEvent::Connected => {
            actions.push(RtAction::EmitStatus(RtStatus::Online));
            (RtState { phase: RtPhase::Online, backoff_secs: BACKOFF_FLOOR_SECS }, actions)
        },
        RtEvent::ConnectFailed | RtEvent::FrameClosed | RtEvent::FrameFailed
            | RtEvent::StreamEnded => {
            actions.push(RtAction::StartWait(st.backoff_secs));
            (RtState { phase: RtPhase::Waiting, ..st }, actions)
        },
        RtEvent::FrameText(t) => {
            match frame_event_type(t.as_str()) {
                None => {},
                Some(None) => {
                    actions.push(RtAction::EmitFrame);
                },
                Some(Some(et)) => {
                    actions.push(RtAction::EmitFrame);
                    let mut name = String::from_str("realtime:");
                    name.append(et.as_str());
                    actions.push(RtAction::EmitTypedFrame(name));
                },
            }
            (st, actions)
        },
        RtEvent::FrameIgnored => (st, actions),
        RtEvent::WaitElapsed => {
            actions.push(RtAction::EmitStatus(RtStatus::Reconnecting));
            (
                RtState {
                    phase: RtPhase::Connecting,
                    backoff_secs: next_backoff(st.backoff_secs),
                },
                actions,
            )
        },
    }
}

/// The backoff after `n` failed waits, starting at the floor.
pub open spec fn backoff_at(n: nat) -> u64
    decreases n,
{
    if n == 0 {
        BACKOFF_FLOOR_SECS
    } else {
        next_backoff_spec(backoff_at((n - 1) as nat))
    }
}

/// The backoff sequence after repeated connect failures is 1, 2, 4, 8, 16,
/// 30, 30, ...: it doubles from the floor and then stays at the ceiling.
pub proof fn lemma_backoff_progression()
    ensures
        backoff_at(0) == 1,
        backoff_at(1) == 2,
        backoff_at(2) == 4,
        backoff_at(3) == 8,
        backoff_at(4) == 16,
        backoff_at(5) == 30,
        backoff_at(6) == 30,
{
    assert(backoff_at(0) == 1);
    assert(backoff_at(1) == 2);
    assert(backoff_at(2) == 4);
    assert(backoff_at(3) == 8);
    assert(backoff_at(4) == 16);
    assert(backoff_at(5) == 30);
    assert(backoff_at(6) == 30);
}

/// The backoff never leaves the floor-to-ceiling band.
pub proof fn lemma_backoff_capped(n: nat)
    ensures
        BACKOFF_FLOOR_SECS <= backoff_at(n) <= BACKOFF_CEILING_SECS,
    decreases n,
{
    if n > 0 {
        lemma_backoff_capped((n - 1) as nat);
    }
}

/// A shutdown signaled during any wait moves straight to the terminated
/// phase with a final `offline` status: no further connect attempt happens.
pub proof fn lemma_shutdown_during_wait(st: RtState)
    requires
        st.phase is Waiting,
    ensures
        rt_step_spec(st, RtEventView::Shutdown).0.phase is Terminated,
        rt_step_spec(st, RtEventView::Shutdown).1 == seq![
            RtActionView::EmitStatus(RtStatus::Offline),
            RtActionView::Terminate,
        ],
{
}

} // verus!
