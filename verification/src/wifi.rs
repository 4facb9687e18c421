//! Wi-Fi connection manager: a retrying state machine.
//!
//! The manager configures the radio from the shared configuration cell,
//! starts station mode and connects.  On a connect failure it scans the
//! visible access points for diagnostics, backs off for a fixed interval
//! and starts over; on losing an established link it backs off and starts
//! over.  There is no attempt ceiling: the device retries forever.
//!
//! The surrounding task performs each returned action (a timer wait, a
//! radio call, a scan) and feeds the resulting event back in; the state
//! machine itself never blocks.
use vstd::prelude::*;

verus! {

/// Fixed backoff between connection attempts, in milliseconds.
pub const BACKOFF_MS: u64 = 5000;

/// Poll interval while waiting for credentials or for the link to come
/// up, in milliseconds.
pub const POLL_MS: u64 = 500;

/// The manager's connection state.
#[derive(PartialEq, Eq, Structural, Clone, Copy, Debug)]
pub enum WifiState {
    /// Not yet started.
    Idle,
    /// Gathering credentials and starting the radio.
    Starting,
    /// A connection attempt is in flight.
    Connecting,
    /// Associated with the access point.
    Connected,
    /// Lost or failed; waiting out the backoff.
    Disconnected,
    /// Running the diagnostic scan after a failed attempt.
    ScanningAfterFailure,
}

/// What the surrounding task reports back to the state machine.
#[derive(PartialEq, Eq, Structural, Clone, Copy, Debug)]
pub enum WifiEvent {
    /// The task is up and the machine should begin.
    TaskStart,
    /// The shared cell holds credentials.
    CredentialsReady,
    /// The shared cell is still empty.
    CredentialsMissing,
    /// The radio reached the started state.
    RadioStarted,
    /// The connection attempt succeeded.
    ConnectSucceeded,
    /// The connection attempt failed.
    ConnectFailed,
    /// The established link dropped.
    LinkLost,
    /// The diagnostic scan finished (its results are logged only).
    ScanComplete,
    /// The backoff interval elapsed.
    BackoffElapsed,
}

/// What the surrounding task must do next.
#[derive(PartialEq, Eq, Structural, Clone, Copy, Debug)]
pub enum WifiAction {
    /// Read the shared configuration cell and report whether credentials
    /// are present.
    LoadCredentials,
    /// Wait one poll interval, then read the cell again.
    PollConfig,
    /// Apply the credentials as the station configuration and start the
    /// radio.
    ApplyConfigAndStart,
    /// Ask the radio to connect.
    Connect,
    /// Wait for a disconnect event from the radio.
    WaitForDisconnect,
    /// Scan visible access points and log each one found.
    Scan,
    /// Wait out the fixed backoff interval.
    Backoff,
    /// The event does not apply in this state; do nothing.
    Ignore,
}

/// The transition table.  Events that do not apply in a state leave it
/// unchanged with nothing to do.
pub open spec fn spec_wifi_step(s: WifiState, e: WifiEvent) -> (WifiState, WifiAction) {
    match (s, e) {
        (WifiState::Idle, WifiEvent::TaskStart) => (WifiState::Starting, WifiAction::LoadCredentials),
        (WifiState::Starting, WifiEvent::CredentialsMissing) => (
            WifiState::Starting,
            WifiAction::PollConfig,
        ),
        (WifiState::Starting, WifiEvent::CredentialsReady) => (
            WifiState::Starting,
            WifiAction::ApplyConfigAndStart,
        ),
        (WifiState::Starting, WifiEvent::RadioStarted) => (WifiState::Connecting, WifiAction::Connect),
        (WifiState::Connecting, WifiEvent::ConnectSucceeded) => (
            WifiState::Connected,
            WifiAction::WaitForDisconnect,
        ),
        (WifiState::Connecting, WifiEvent::ConnectFailed) => (
            WifiState::ScanningAfterFailure,
            WifiAction::Scan,
        ),
        (WifiState::ScanningAfterFailure, WifiEvent::ScanComplete) => (
            WifiState::Disconnected,
            WifiAction::Backoff,
        ),
        (WifiState::Connected, WifiEvent::LinkLost) => (WifiState::Disconnected, WifiAction::Backoff),
        (WifiState::Disconnected, WifiEvent::BackoffElapsed) => (
            WifiState::Starting,
            WifiAction::LoadCredentials,
        ),
        _ => (s, WifiAction::Ignore),
    }
}

/// One step of the manager: the next state and the action to perform.
pub fn wifi_step(s: WifiState, e: WifiEvent) -> (r: (WifiState, WifiAction))
    ensures
        r == spec_wifi_step(s, e),
{
    match (s, e) {
        (WifiState::Idle, WifiEvent::TaskStart) => (WifiState::Starting, WifiAction::LoadCredentials),
        (WifiState::Starting, WifiEvent::CredentialsMissing) => (
            WifiState::Starting,
            WifiAction::PollConfig,
        ),
        (WifiState::Starting, WifiEvent::CredentialsReady) => (
            WifiState::Starting,
            WifiAction::ApplyConfigAndStart,
        ),
        (WifiState::Starting, WifiEvent::RadioStarted) => (WifiState::Connecting, WifiAction::Connect),
        (WifiState::Connecting, WifiEvent::ConnectSucceeded) => (
            WifiState::Connected,
            WifiAction::WaitForDisconnect,
        ),
        (WifiState::Connecting, WifiEvent::ConnectFailed) => (
            WifiState::ScanningAfterFailure,
            WifiAction::Scan,
        ),
        (WifiState::ScanningAfterFailure, WifiEvent::ScanComplete) => (
            WifiState::Disconnected,
            WifiAction::Backoff,
        ),
        (WifiState::Connected, WifiEvent::LinkLost) => (WifiState::Disconnected, WifiAction::Backoff),
        (WifiState::Disconnected, WifiEvent::BackoffElapsed) => (
            WifiState::Starting,
            WifiAction::LoadCredentials,
        ),
        _ => (s, WifiAction::Ignore),
    }
}

/// Readiness gate run after the link comes up: proceed only once the
/// link is up and a DHCP address has been assigned.
pub fn net_ready(link_up: bool, has_address: bool) -> (r: bool)
    ensures
        r == (link_up && has_address),
{
    link_up && has_address
}

/// The state after running a whole sequence of events.
pub open spec fn spec_wifi_run(s: WifiState, evs: Seq<WifiEvent>) -> WifiState
    decreases evs.len(),
{
    if evs.len() == 0 {
        s
    } else {
        spec_wifi_run(spec_wifi_step(s, evs[0]).0, evs.subrange(1, evs.len() as int))
    }
}

/// Running a concatenation is running the parts in order.
pub proof fn lemma_run_append(s: WifiState, a: Seq<WifiEvent>, b: Seq<WifiEvent>)
    ensures
        spec_wifi_run(s, a + b) == spec_wifi_run(spec_wifi_run(s, a), b),
    decreases a.len(),
{
    if a.len() == 0 {
        assert(a + b =~= b);
    } else {
        let s1 = spec_wifi_step(s, a[0]).0;
        assert((a + b).subrange(1, (a + b).len() as int) =~= a.subrange(1, a.len() as int) + b);
        lemma_run_append(s1, a.subrange(1, a.len() as int), b);
    }
}

/// One full failure cycle as seen from `Connecting`: the attempt fails,
/// the diagnostic scan runs, the backoff elapses, credentials are read
/// again and the radio restarts — back to `Connecting`.
pub open spec fn spec_failure_cycle() -> Seq<WifiEvent> {
    seq![
        WifiEvent::ConnectFailed,
        WifiEvent::ScanComplete,
        WifiEvent::BackoffElapsed,
        WifiEvent::CredentialsReady,
        WifiEvent::RadioStarted,
    ]
}

/// `n` failure cycles in a row.
pub open spec fn spec_failure_cycles(n: nat) -> Seq<WifiEvent>
    decreases n,
{
    if n == 0 {
        Seq::empty()
    } else {
        spec_failure_cycle() + spec_failure_cycles((n - 1) as nat)
    }
}

/// A failure cycle returns the manager to `Connecting`.
pub proof fn lemma_failure_cycle_returns()
    ensures
        spec_wifi_run(WifiState::Connecting, spec_failure_cycle()) == WifiState::Connecting,
{
    reveal_with_fuel(spec_wifi_run, 6);
}

/// Retry liveness: however many connection attempts fail, once an
/// attempt succeeds the manager is `Connected` — the retry loop has no
/// ceiling and cannot get stuck in a failure state.
pub proof fn lemma_retry_liveness(n: nat)
    ensures
        spec_wifi_run(
            WifiState::Connecting,
            spec_failure_cycles(n).push(WifiEvent::ConnectSucceeded),
        ) == WifiState::Connected,
    decreases n,
{
    if n == 0 {
        assert(spec_failure_cycles(0).push(WifiEvent::ConnectSucceeded) =~= seq![
            WifiEvent::ConnectSucceeded,
        ]);
        reveal_with_fuel(spec_wifi_run, 2);
    } else {
        let rest = spec_failure_cycles((n - 1) as nat).push(WifiEvent::ConnectSucceeded);
        assert(spec_failure_cycles(n).push(WifiEvent::ConnectSucceeded) =~= spec_failure_cycle()
            + rest);
        lemma_run_append(WifiState::Connecting, spec_failure_cycle(), rest);
        lemma_failure_cycle_returns();
        lemma_retry_liveness((n - 1) as nat);
    }
}

} // verus!
