//! The browser's live-stream connection: the badge state and the decisions
//! that drive the Server-Sent-Events connection, with exponential backoff
//! on connection loss.
//!
//! [`LiveController::step`] takes the current state and an event from the
//! browser and returns the next state with the actions to perform (close or
//! open the stream, schedule a retry, refetch data); the browser code
//! performs them.
use vstd::prelude::*;


verus! {

/// State of the live-stream connection, shown by the live badge.
#[derive(Debug, Clone, Copy, PartialEq, Eq, Structural)]
pub enum LiveState {
    /// No live stream requested by the user.
    Off,
    /// Stream opened, waiting for the handshake.
    Connecting,
    /// Receiving events.
    Connected,
    /// Gave up after too many failed reconnects.
    Error,
    /// Waiting to reconnect; the value is the 1-based attempt number.
    Reconnecting(u32),
}

impl LiveState {
    /// CSS modifier class of the badge.
    pub fn css_class(&self) -> (r: &'static str)
        ensures
            r@ == match *self {
                LiveState::Off => "off"@,
                LiveState::Connecting => "connecting"@,
                LiveState::Connected => "connected"@,
                LiveState::Error => "error"@,
                LiveState::Reconnecting(_) => "reconnecting"@,
            },
    {
        match self {
            LiveState::Off => "off",
            LiveState::Connecting => "connecting",
            LiveState::Connected => "connected",
            LiveState::Error => "error",
            LiveState::Reconnecting(_) => "reconnecting",
        }
    }

    /// Text of the badge.
    pub fn label(&self) -> (r: &'static str)
        ensures
            r@ == match *self {
                LiveState::Off => "Live off"@,
                LiveState::Connecting => "Connecting..."@,
                LiveState::Connected => "Live"@,
                LiveState::Error => "Disconnected"@,
                LiveState::Reconnecting(_) => "Reconnecting..."@,
            },
    {
        match self {
            LiveState::Off => "Live off",
            LiveState::Connecting => "Connecting...",
            LiveState::Connected => "Live",
            LiveState::Error => "Disconnected",
            LiveState::Reconnecting(_) => "Reconnecting...",
        }
    }

    /// Whether the live toggle shows as on: connected or connecting.
    pub fn is_live(&self) -> (r: bool)
        ensures
            r == (*self == LiveState::Connected || *self == LiveState::Connecting),
    {
        match self {
            LiveState::Connected | LiveState::Connecting => true,
            _ => false,
        }
    }
}

// ---------------------------------------------------------------------------
// Backoff
// ---------------------------------------------------------------------------

/// Consecutive failed connections after which reconnecting stops.
pub const MAX_RECONNECT_ATTEMPTS: u32 = 10;

/// Longest wait before a reconnect, in milliseconds.
pub const MAX_RECONNECT_DELAY_MS: u32 = 30_000;

/// `2^e`.
pub open spec fn pow2(e: nat) -> nat
    decreases e,
{
    if e == 0 {
        1
    } else {
        2 * pow2((e - 1) as nat)
    }
}

proof fn lemma_pow2_at_least_32(e: nat)
    requires
        e >= 5,
    ensures
        pow2(e) >= 32,
    decreases e,
{
    if e > 5 {
        lemma_pow2_at_least_32((e - 1) as nat);
    } else {
        lemma_pow2_small();
    }
}

/// Wait before reconnect number `attempt + 1`: `min(1000 × 2^attempt, 30000)` ms.
pub open spec fn backoff_delay(attempt: nat) -> int {
    if 1000 * pow2(attempt) < MAX_RECONNECT_DELAY_MS {
        (1000 * pow2(attempt)) as int
    } else {
        MAX_RECONNECT_DELAY_MS as int
    }
}

proof fn lemma_pow2_small()
    ensures
        pow2(0) == 1,
        pow2(1) == 2,
        pow2(2) == 4,
        pow2(3) == 8,
        pow2(4) == 16,
        pow2(5) == 32,
{
    reveal_with_fuel(pow2, 6);
}

/// Milliseconds to wait before the reconnect that follows `attempt`
/// consecutive failures: 1 s, 2 s, 4 s, 8 s, 16 s, then 30 s.
pub fn reconnect_delay_ms(attempt: u32) -> (d: u32)
    ensures
        d == backoff_delay(attempt as nat),
{
    proof {
        lemma_pow2_small();
    }
    if attempt >= 5 {
        proof {
            lemma_pow2_at_least_32(attempt as nat);
        }
        MAX_RECONNECT_DELAY_MS
    } else if attempt == 0 {
        1_000
    } else if attempt == 1 {
        2_000
    } else if attempt == 2 {
        4_000
    } else if attempt == 3 {
        8_000
    } else {
        16_000
    }
}

/// The backoff doubles from one attempt to the next until it reaches the
/// cap, and never exceeds the cap.
pub proof fn lemma_backoff_doubles_then_caps(attempt: nat)
    ensures
        1000 <= backoff_delay(attempt) <= MAX_RECONNECT_DELAY_MS,
        attempt < 4 ==> backoff_delay(attempt + 1) == 2 * backoff_delay(attempt),
        attempt >= 5 ==> backoff_delay(attempt) == MAX_RECONNECT_DELAY_MS,
        backoff_delay(attempt) <= backoff_delay(attempt + 1),
{
    lemma_pow2_small();
    if attempt >= 5 {
        lemma_pow2_at_least_32(attempt);
        lemma_pow2_at_least_32(attempt + 1);
    } else {
        assert(attempt == 0 || attempt == 1 || attempt == 2 || attempt == 3 || attempt == 4);
    }
}

// ---------------------------------------------------------------------------
// Connection controller
// ---------------------------------------------------------------------------

/// The live-stream state together with the count of consecutive failed
/// connections.
#[derive(Debug, Clone, Copy, PartialEq, Eq, Structural)]
pub struct LiveController {
    pub state: LiveState,
    pub attempt: u32,
}

/// What the browser reports.
#[derive(Debug, Clone, Copy, PartialEq, Eq, Structural)]
pub enum LiveEvent {
    /// The user switched live mode on (`true`) or off (`false`).
    Toggle(bool),
    /// The stream's handshake completed.
    Opened,
    /// The stream reported a connection failure.
    Failed,
    /// A scheduled reconnect timer fired.
    RetryDue,
    /// New spots arrived on the stream.
    SpotsArrived,
}

/// What the browser must do after a step.
#[derive(Debug, Clone, Copy, PartialEq, Eq, Structural)]
pub struct LiveAction {
    /// Close the current stream, if any.
    pub close_stream: bool,
    /// Open a fresh stream (after closing the old one).
    pub open_stream: bool,
    /// Schedule a `RetryDue` event after this many milliseconds.
    pub retry_after_ms: Option<u32>,
    /// Refetch the displayed data.
    pub refetch: bool,
}

/// No action.
pub open spec fn no_action() -> LiveAction {
    LiveAction { close_stream: false, open_stream: false, retry_after_ms: None, refetch: false }
}

/// Entering `state` with failure count `attempt`: connecting closes any old
/// stream and opens a new one; reconnecting closes the failed stream; off
/// and error close the stream and reset the count; connected does nothing.
pub open spec fn enter(state: LiveState, attempt: u32, retry: Option<u32>) -> (
    LiveController,
    LiveAction,
) {
    match state {
        LiveState::Connecting => (
            LiveController { state, attempt },
            LiveAction { close_stream: true, open_stream: true, retry_after_ms: retry, refetch: false },
        ),
        LiveState::Reconnecting(_) => (
            LiveController { state, attempt },
            LiveAction { close_stream: true, open_stream: false, retry_after_ms: retry, refetch: false },
        ),
        LiveState::Off | LiveState::Error => (
            LiveController { state, attempt: 0 },
            LiveAction { close_stream: true, open_stream: false, retry_after_ms: retry, refetch: false },
        ),
        LiveState::Connected => (
            LiveController { state, attempt },
            LiveAction { close_stream: false, open_stream: false, retry_after_ms: retry, refetch: false },
        ),
    }
}

/// The next controller and actions for an event.
pub open spec fn live_step(c: LiveController, ev: LiveEvent) -> (LiveController, LiveAction) {
    match ev {
        LiveEvent::Toggle(true) => enter(LiveState::Connecting, c.attempt, None),
        LiveEvent::Toggle(false) => enter(LiveState::Off, c.attempt, None),
        LiveEvent::Opened => enter(LiveState::Connected, 0, None),
        LiveEvent::Failed => if c.attempt >= MAX_RECONNECT_ATTEMPTS {
            enter(LiveState::Error, c.attempt, None)
        } else {
            enter(
                LiveState::Reconnecting((c.attempt + 1) as u32),
                (c.attempt + 1) as u32,
                Some(backoff_delay(c.attempt as nat) as u32),
            )
        },
        LiveEvent::RetryDue => match c.state {
            LiveState::Reconnecting(_) => enter(LiveState::Connecting, c.attempt, None),
            _ => (c, no_action()),
        },
        LiveEvent::SpotsArrived => (
            c,
            LiveAction { close_stream: false, open_stream: false, retry_after_ms: None, refetch: true },
        ),
    }
}

/// Invariant: the failure count never exceeds the limit, and a
/// reconnecting badge shows the current count.
pub open spec fn controller_inv(c: LiveController) -> bool {
    &&& c.attempt <= MAX_RECONNECT_ATTEMPTS
    &&& (c.state matches LiveState::Reconnecting(n) ==> n == c.attempt)
}

fn enter_exec(state: LiveState, attempt: u32, retry: Option<u32>) -> (r: (LiveController, LiveAction))
    ensures
        r == enter(state, attempt, retry),
{
    match state {
        LiveState::Connecting => (
            LiveController { state, attempt },
            LiveAction { close_stream: true, open_stream: true, retry_after_ms: retry, refetch: false },
        ),
        LiveState::Reconnecting(_) => (
            LiveController { state, attempt },
            LiveAction { close_stream: true, open_stream: false, retry_after_ms: retry, refetch: false },
        ),
        LiveState::Off | LiveState::Error => (
            LiveController { state, attempt: 0 },
            LiveAction { close_stream: true, open_stream: false, retry_after_ms: retry, refetch: false },
        ),
        LiveState::Connected => (
            LiveController { state, attempt },
            LiveAction { close_stream: false, open_stream: false, retry_after_ms: retry, refetch: false },
        ),
    }
}

impl LiveController {
    /// The controller when the page loads: connecting, with no failures;
    /// the stream is opened.
    pub fn start() -> (r: (LiveController, LiveAction))
        ensures
            r == enter(LiveState::Connecting, 0, None),
            controller_inv(r.0),
    {
        enter_exec(LiveState::Connecting, 0, None)
    }

    /// The next controller and the actions to perform for an event.
    pub fn step(&self, ev: LiveEvent) -> (r: (LiveController, LiveAction))
        ensures
            r == live_step(*self, ev),
    {
        match ev {
            LiveEvent::Toggle(true) => enter_exec(LiveState::Connecting, self.attempt, None),
            LiveEvent::Toggle(false) => enter_exec(LiveState::Off, self.attempt, None),
            LiveEvent::Opened => enter_exec(LiveState::Connected, 0, None),
            LiveEvent::Failed => {
                if self.attempt >= MAX_RECONNECT_ATTEMPTS {
                    enter_exec(LiveState::Error, self.attempt, None)
                } else {
                    let delay = reconnect_delay_ms(self.attempt);
                    let next = self.attempt + 1;
                    enter_exec(LiveState::Reconnecting(next), next, Some(delay))
                }
            },
            LiveEvent::RetryDue => match self.state {
                LiveState::Reconnecting(_) => enter_exec(LiveState::Connecting, self.attempt, None),
                _ => (
                    *self,
                    LiveAction {
                        close_stream: false,
                        open_stream: false,
                        retry_after_ms: None,
                        refetch: false,
                    },
                ),
            },
            LiveEvent::SpotsArrived => (
                *self,
                LiveAction {
                    close_stream: false,
                    open_stream: false,
                    retry_after_ms: None,
                    refetch: true,
                },
            ),
        }
    }
}

/// Every step keeps the invariant: the failure count stays within the limit
/// and a reconnecting badge shows the current count.
pub proof fn lemma_step_keeps_invariant(c: LiveController, ev: LiveEvent)
    requires
        controller_inv(c),
    ensures
        controller_inv(live_step(c, ev).0),
{
}

/// A failure within the limit schedules the next reconnect after the backoff
/// delay for the current count and shows the incremented count; a failure at
/// the limit gives up with an error and resets the count.
pub proof fn lemma_failure_backs_off_or_gives_up(c: LiveController)
    requires
        controller_inv(c),
    ensures
        c.attempt < MAX_RECONNECT_ATTEMPTS ==> {
            let (n, a) = live_step(c, LiveEvent::Failed);
            &&& n.state == LiveState::Reconnecting((c.attempt + 1) as u32)
            &&& n.attempt == c.attempt + 1
            &&& a.retry_after_ms == Some(backoff_delay(c.attempt as nat) as u32)
            &&& a.close_stream && !a.open_stream
        },
        c.attempt == MAX_RECONNECT_ATTEMPTS ==> {
            let (n, a) = live_step(c, LiveEvent::Failed);
            &&& n.state == LiveState::Error
            &&& n.attempt == 0
            &&& a.retry_after_ms is None
        },
{
}

/// Switching live mode off always turns it off, closes the stream, cancels
/// nothing new and clears the failure count, whatever the state before;
/// switching it on always starts a fresh connection, closing any old stream
/// and opening a new one.
pub proof fn lemma_toggle_always_obeyed(c: LiveController)
    ensures
        live_step(c, LiveEvent::Toggle(false)) == (
            LiveController { state: LiveState::Off, attempt: 0 },
            LiveAction { close_stream: true, open_stream: false, retry_after_ms: None, refetch: false },
        ),
        live_step(c, LiveEvent::Toggle(true)).0.state == LiveState::Connecting,
        live_step(c, LiveEvent::Toggle(true)).0.attempt == c.attempt,
        live_step(c, LiveEvent::Toggle(true)).1 == (LiveAction {
            close_stream: true,
            open_stream: true,
            retry_after_ms: None,
            refetch: false,
        }),
{
}

/// A due reconnect timer while reconnecting starts a fresh connection
/// (closing the failed stream and opening a new one) and keeps the failure
/// count; new spots on the stream only ask for a refetch and leave the
/// connection as it is.
pub proof fn lemma_retry_reconnects_and_spots_refetch(c: LiveController)
    ensures
        c.state is Reconnecting ==> live_step(c, LiveEvent::RetryDue) == (
            LiveController { state: LiveState::Connecting, attempt: c.attempt },
            LiveAction { close_stream: true, open_stream: true, retry_after_ms: None, refetch: false },
        ),
        live_step(c, LiveEvent::SpotsArrived) == (
            c,
            LiveAction { close_stream: false, open_stream: false, retry_after_ms: None, refetch: true },
        ),
{
}

/// A successful handshake connects and clears the failure count, whatever
/// the state before.
pub proof fn lemma_open_resets(c: LiveController)
    ensures
        live_step(c, LiveEvent::Opened).0 == (LiveController {
            state: LiveState::Connected,
            attempt: 0,
        }),
{
}

/// A reconnect timer that fires after the user switched live mode off (or
/// after any state other than reconnecting) changes nothing.
pub proof fn lemma_stale_timer_is_harmless(c: LiveController)
    requires
        !(c.state is Reconnecting),
    ensures
        live_step(c, LiveEvent::RetryDue) == (c, no_action()),
{
}

} // verus!
