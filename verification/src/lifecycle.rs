use vstd::prelude::*;

verus! {

/// Why an association attempt came to nothing.
#[derive(Clone, Copy, Debug, PartialEq, Eq, Structural)]
pub enum FailureReason {
    Timeout,
    Rejected,
}

/// The published connection status. The lifecycle manager is its only
/// writer; every other component holds a read-only reference to the cell
/// the embedding program keeps it in. `Failed` and `Connected` both loop
/// back to `Connecting` on the next event: there is no terminal state.
#[derive(Clone, Copy, Debug, PartialEq, Eq, Structural)]
pub enum ConnectionStatus {
    Disconnected,
    Connecting,
    Connected { addr: u32 },
    Failed { reason: FailureReason },
}

/// What the radio subsystem signalled. Events arrive asynchronously from
/// the hardware/OS network layer and from the manager's own timers; they
/// are never polled for.
#[derive(Clone, Copy, Debug, PartialEq, Eq, Structural)]
pub enum WifiEvent {
    StartRequested,
    AddressAcquired { addr: u32 },
    AssociationTimedOut,
    AssociationRejected,
    ConnectionLost,
    CooldownElapsed,
}

/// What the embedding program must do next with the radio: request an
/// association and await an address under a bounded timeout, do the same
/// after a short delay (so a lost link never turns into a tight retry
/// storm), block on the disconnect signal, start the failure cooldown
/// timer, or nothing.
#[derive(Clone, Copy, Debug, PartialEq, Eq, Structural)]
pub enum WifiAction {
    Associate,
    DelayThenAssociate,
    MonitorLink,
    BeginCooldown,
    Ignore,
}

/// One transition of the lifecycle state machine. Every recoverable
/// failure is turned into a retry; no pair of status and event is left
/// without a successor, so ordinary radio trouble can never stop the
/// machine. An event that makes no sense in the current status changes
/// nothing.
pub open spec fn step_spec(s: ConnectionStatus, e: WifiEvent) -> (ConnectionStatus, WifiAction) {
    match (s, e) {
        (ConnectionStatus::Disconnected, WifiEvent::StartRequested) => (
            ConnectionStatus::Connecting,
            WifiAction::Associate,
        ),
        (ConnectionStatus::Connecting, WifiEvent::AddressAcquired { addr }) => (
            ConnectionStatus::Connected { addr },
            WifiAction::MonitorLink,
        ),
        (ConnectionStatus::Connecting, WifiEvent::AssociationTimedOut) => (
            ConnectionStatus::Failed { reason: FailureReason::Timeout },
            WifiAction::BeginCooldown,
        ),
        (ConnectionStatus::Connecting, WifiEvent::AssociationRejected) => (
            ConnectionStatus::Failed { reason: FailureReason::Rejected },
            WifiAction::BeginCooldown,
        ),
        (ConnectionStatus::Connected { .. }, WifiEvent::ConnectionLost) => (
            ConnectionStatus::Connecting,
            WifiAction::DelayThenAssociate,
        ),
        (ConnectionStatus::Failed { .. }, WifiEvent::CooldownElapsed) => (
            ConnectionStatus::Connecting,
            WifiAction::Associate,
        ),
        _ => (s, WifiAction::Ignore),
    }
}

/// The lifecycle manager's state. The embedding program owns the radio
/// handle, runs the event loop, performs each returned action, and feeds
/// the resulting signals back in; the decisions all live here.
pub struct WifiConnection {
    pub status: ConnectionStatus,
}

impl WifiConnection {
    /// A fresh manager, not yet asked to associate.
    pub fn new() -> (w: WifiConnection)
        ensures
            w.status == ConnectionStatus::Disconnected,
    {
        WifiConnection { status: ConnectionStatus::Disconnected }
    }

    /// Advances the machine by one event and tells the caller what to do
    /// with the radio next.
    pub fn on_event(&mut self, e: &WifiEvent) -> (a: WifiAction)
        ensures
            (final(self).status, a) == step_spec(old(self).status, *e),
    {
        let (next, action) = match (&self.status, e) {
            (ConnectionStatus::Disconnected, WifiEvent::StartRequested) => (
                ConnectionStatus::Connecting,
                WifiAction::Associate,
            ),
            (ConnectionStatus::Connecting, WifiEvent::AddressAcquired { addr }) => (
                ConnectionStatus::Connected { addr: *addr },
                WifiAction::MonitorLink,
            ),
            (ConnectionStatus::Connecting, WifiEvent::AssociationTimedOut) => (
                ConnectionStatus::Failed { reason: FailureReason::Timeout },
                WifiAction::BeginCooldown,
            ),
            (ConnectionStatus::Connecting, WifiEvent::AssociationRejected) => (
                ConnectionStatus::Failed { reason: FailureReason::Rejected },
                WifiAction::BeginCooldown,
            ),
            (ConnectionStatus::Connected { .. }, WifiEvent::ConnectionLost) => (
                ConnectionStatus::Connecting,
                WifiAction::DelayThenAssociate,
            ),
            (ConnectionStatus::Failed { .. }, WifiEvent::CooldownElapsed) => (
                ConnectionStatus::Connecting,
                WifiAction::Associate,
            ),
            _ => (self.status, WifiAction::Ignore),
        };
        self.status = next;
        action
    }
}

/// The status after a whole sequence of events, oldest first.
pub open spec fn run_spec(s: ConnectionStatus, events: Seq<WifiEvent>) -> ConnectionStatus
    decreases events.len(),
{
    if events.len() == 0 {
        s
    } else {
        run_spec(step_spec(s, events[0]).0, events.drop_first())
    }
}

/// Running a sequence splits at any point.
pub proof fn lemma_run_append(s: ConnectionStatus, a: Seq<WifiEvent>, b: Seq<WifiEvent>)
    ensures
        run_spec(s, a + b) == run_spec(run_spec(s, a), b),
    decreases a.len(),
{
    if a.len() == 0 {
        assert(a + b =~= b);
    } else {
        assert((a + b).drop_first() =~= a.drop_first() + b);
        lemma_run_append(step_spec(s, a[0]).0, a.drop_first(), b);
    }
}

/// The statuses the machine publishes while it consumes a sequence of
/// events, one after each event, oldest first.
pub open spec fn trace_spec(s: ConnectionStatus, events: Seq<WifiEvent>) -> Seq<ConnectionStatus>
    decreases events.len(),
{
    if events.len() == 0 {
        Seq::empty()
    } else {
        seq![step_spec(s, events[0]).0] + trace_spec(step_spec(s, events[0]).0,
            events.drop_first())
    }
}

/// A trace splits at any point.
pub proof fn lemma_trace_append(s: ConnectionStatus, a: Seq<WifiEvent>, b: Seq<WifiEvent>)
    ensures
        trace_spec(s, a + b) =~= trace_spec(s, a) + trace_spec(run_spec(s, a), b),
    decreases a.len(),
{
    if a.len() == 0 {
        assert(a + b =~= b);
    } else {
        assert((a + b).drop_first() =~= a.drop_first() + b);
        lemma_trace_append(step_spec(s, a[0]).0, a.drop_first(), b);
    }
}

/// A failure is never terminal: once the cooldown elapses, the machine
/// always leaves `Failed` and requests a fresh association, whatever the
/// failure's reason was.
pub proof fn lemma_failed_retries(reason: FailureReason)
    ensures
        step_spec(ConnectionStatus::Failed { reason }, WifiEvent::CooldownElapsed) == (
            ConnectionStatus::Connecting,
            WifiAction::Associate,
        ),
{
}

/// `n` association attempts that each time out and cool down, seen from
/// `Connecting`.
pub open spec fn repeated_failures(n: nat) -> Seq<WifiEvent>
    decreases n,
{
    if n == 0 {
        Seq::empty()
    } else {
        seq![WifiEvent::AssociationTimedOut, WifiEvent::CooldownElapsed] + repeated_failures(
            (n - 1) as nat,
        )
    }
}

/// However many association attempts fail, the machine is back in
/// `Connecting` after each cooldown, so the status runs
/// `Connecting`, `Failed`, `Connecting`, ... and never sticks.
pub proof fn lemma_failures_keep_connecting(n: nat)
    ensures
        run_spec(ConnectionStatus::Connecting, repeated_failures(n))
            == ConnectionStatus::Connecting,
    decreases n,
{
    if n != 0 {
        let burst = seq![WifiEvent::AssociationTimedOut, WifiEvent::CooldownElapsed];
        lemma_run_append(ConnectionStatus::Connecting, burst, repeated_failures((n - 1) as nat));
        lemma_one_burst();
        lemma_failures_keep_connecting((n - 1) as nat);
    }
}

/// The statuses published over `n` failed attempts: `Failed`, back to
/// `Connecting`, over and over.
pub open spec fn failure_trace(n: nat) -> Seq<ConnectionStatus>
    decreases n,
{
    if n == 0 {
        Seq::empty()
    } else {
        seq![
            ConnectionStatus::Failed { reason: FailureReason::Timeout },
            ConnectionStatus::Connecting,
        ] + failure_trace((n - 1) as nat)
    }
}

proof fn lemma_one_burst()
    ensures
        run_spec(ConnectionStatus::Connecting, seq![WifiEvent::AssociationTimedOut,
            WifiEvent::CooldownElapsed]) == ConnectionStatus::Connecting,
        trace_spec(ConnectionStatus::Connecting, seq![WifiEvent::AssociationTimedOut,
            WifiEvent::CooldownElapsed]) =~= seq![
            ConnectionStatus::Failed { reason: FailureReason::Timeout },
            ConnectionStatus::Connecting,
        ],
{
    let burst = seq![WifiEvent::AssociationTimedOut, WifiEvent::CooldownElapsed];
    let failed = ConnectionStatus::Failed { reason: FailureReason::Timeout };
    assert(burst.drop_first() =~= seq![WifiEvent::CooldownElapsed]);
    assert(seq![WifiEvent::CooldownElapsed].drop_first() =~= Seq::<WifiEvent>::empty());
    assert(run_spec(failed, seq![WifiEvent::CooldownElapsed]) == run_spec(
        ConnectionStatus::Connecting,
        Seq::<WifiEvent>::empty(),
    ));
    assert(trace_spec(ConnectionStatus::Connecting, Seq::<WifiEvent>::empty())
        =~= Seq::<ConnectionStatus>::empty());
    assert(trace_spec(failed, seq![WifiEvent::CooldownElapsed]) =~= seq![
        ConnectionStatus::Connecting,
    ]);
}

/// The full recovery picture: however many attempts fail before one is
/// granted an address, the published status sequence is exactly
/// `Failed`, `Connecting`, `Failed`, `Connecting`, ..., `Connected` — the
/// machine alternates out of every failure and lands in `Connected` the
/// moment the failures stop.
pub proof fn lemma_recovery_trace(n: nat, addr: u32)
    ensures
        trace_spec(
            ConnectionStatus::Connecting,
            repeated_failures(n) + seq![WifiEvent::AddressAcquired { addr }],
        ) =~= failure_trace(n) + seq![ConnectionStatus::Connected { addr }],
    decreases n,
{
    let arrival = seq![WifiEvent::AddressAcquired { addr }];
    lemma_trace_append(ConnectionStatus::Connecting, repeated_failures(n), arrival);
    lemma_failures_keep_connecting(n);
    assert(arrival.drop_first() =~= Seq::<WifiEvent>::empty());
    assert(trace_spec(ConnectionStatus::Connected { addr }, Seq::<WifiEvent>::empty())
        =~= Seq::<ConnectionStatus>::empty());
    assert(trace_spec(ConnectionStatus::Connecting, arrival) =~= seq![
        ConnectionStatus::Connected { addr },
    ]);
    lemma_failure_trace_shape(n);
}

proof fn lemma_failure_trace_shape(n: nat)
    ensures
        trace_spec(ConnectionStatus::Connecting, repeated_failures(n)) =~= failure_trace(n),
    decreases n,
{
    if n != 0 {
        let burst = seq![WifiEvent::AssociationTimedOut, WifiEvent::CooldownElapsed];
        lemma_trace_append(ConnectionStatus::Connecting, burst, repeated_failures((n - 1) as nat));
        lemma_one_burst();
        lemma_failure_trace_shape((n - 1) as nat);
    }
}

/// Self-healing: after any number of failed attempts, the first attempt
/// that is granted an address ends in `Connected` with that address.
pub proof fn lemma_eventual_connection(n: nat, addr: u32)
    ensures
        run_spec(
            ConnectionStatus::Connecting,
            repeated_failures(n) + seq![WifiEvent::AddressAcquired { addr }],
        ) == (ConnectionStatus::Connected { addr }),
{
    lemma_run_append(
        ConnectionStatus::Connecting,
        repeated_failures(n),
        seq![WifiEvent::AddressAcquired { addr }],
    );
    lemma_failures_keep_connecting(n);
    assert(seq![WifiEvent::AddressAcquired { addr }].drop_first() =~= Seq::<WifiEvent>::empty());
    assert(run_spec(ConnectionStatus::Connecting, seq![WifiEvent::AddressAcquired { addr }])
        == run_spec(ConnectionStatus::Connected { addr }, Seq::<WifiEvent>::empty()));
}

} // verus!
