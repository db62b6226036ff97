//! Target values, the balancing-strategy capability, and the dispatcher.

use vstd::prelude::*;

verus! {

/// One backend network address, held as plain values so that every field is
/// visible to the contracts. The surrounding program converts to and from the
/// operating system's address types at the I/O boundary.
#[derive(Clone, Copy, PartialEq, Eq, Structural, Debug)]
pub enum IpAddress {
    /// An IPv4 address, one octet per field.
    V4(u8, u8, u8, u8),
    /// An IPv6 address, as its 128-bit value.
    V6(u128),
}

/// Represents a target server for load balancing: one backend endpoint,
/// immutable after construction, compared by value.
#[derive(Clone, Copy, PartialEq, Eq, Structural, Debug)]
pub struct Target {
    pub ip: IpAddress,
    pub port: u16,
}

impl Target {
    /// The address this target listens on.
    pub fn ip(&self) -> (r: IpAddress)
        ensures
            r == self.ip,
    {
        self.ip
    }

    /// The port this target listens on.
    pub fn port(&self) -> (r: u16)
        ensures
            r == self.port,
    {
        self.port
    }

    /// Builds a target from an address and a port; construction cannot fail.
    pub fn new(ip: IpAddress, port: u16) -> (t: Target)
        ensures
            t == (Target { ip, port }),
    {
        Target { ip, port }
    }
}

/// Defines the interface for a load balancing strategy.
///
/// A strategy owns an ordered pool of targets and hands one out per call. It
/// need not be internally thread-safe: the dispatcher serialises every call
/// through a mutual-exclusion boundary, so each call sees and leaves a
/// consistent state.
pub trait BalancingStrategy: Sized {
    /// The ordered pool of targets the strategy draws from.
    spec fn pool(&self) -> Seq<Target>;

    /// The strategy's internal invariant, established by its constructor and
    /// preserved by every call.
    spec fn wf(&self) -> bool;

    /// Selects the next target server based on the implemented strategy.
    ///
    /// Returns a target drawn from the pool, or `None` exactly when the pool
    /// is empty. The pool itself never changes during operation.
    fn next(&mut self) -> (r: Option<Target>)
        requires
            old(self).wf(),
        ensures
            final(self).wf(),
            final(self).pool() == old(self).pool(),
            r is None <==> old(self).pool().len() == 0,
            r matches Some(t) ==> old(self).pool().contains(t),
    ;
}

/// Terminal outcome of one connection-handling unit: the per-connection,
/// never-fatal part of the error taxonomy, plus normal completion. Whatever
/// the outcome, both sockets are closed before the unit terminates.
#[derive(Clone, Copy, PartialEq, Eq, Structural, Debug)]
pub enum ConnectionOutcome {
    /// Bytes flowed in both directions until one side closed its write end.
    Forwarded,
    /// `NoTargetsError`: the strategy had no target to offer; the client was
    /// closed without any data forwarded.
    NoTargets,
    /// `BackendConnectError`: the outbound connection to the chosen target
    /// could not be established; no failover to another target is attempted.
    BackendConnect,
    /// `ConnectionTimeoutError`: the copy phase exceeded its time budget.
    ConnectionTimeout,
    /// `ProxyError`: an I/O error occurred while copying bytes on an
    /// established pair.
    Proxy,
}

/// The life of one connection-handling unit between its I/O steps. The
/// surrounding program performs the I/O each phase calls for and reports
/// what it observed back as a `ConnectionEvent`.
#[derive(Clone, Copy, PartialEq, Eq, Structural, Debug)]
pub enum ConnectionPhase {
    /// Open an outbound connection to this target, keeping the copy budget
    /// (milliseconds) for the phase after it.
    Connecting { target: Target, timeout_ms: u64 },
    /// Copy bytes both ways between client and backend, racing a timeout
    /// clock of this many milliseconds armed when the copy begins.
    Copying { target: Target, timeout_ms: u64 },
    /// Close both sockets and report the outcome; terminal.
    Closed { outcome: ConnectionOutcome },
}

/// What the I/O layer observed while carrying out the work a phase asked
/// for.
#[derive(Clone, Copy, PartialEq, Eq, Structural, Debug)]
pub enum ConnectionEvent {
    /// The outbound connection to the target was established.
    BackendConnected,
    /// The outbound connection attempt failed (refused, unreachable, timed
    /// out at the transport level).
    BackendConnectFailed,
    /// The bidirectional copy finished before the clock: one side closed.
    CopyCompleted,
    /// The bidirectional copy hit an I/O error before the clock.
    CopyFailed,
    /// The timeout clock won the race against the copy.
    TimeoutElapsed,
}

/// Which events can answer which phase: connecting is answered by the
/// connection attempt's result, copying by the winner of the race between
/// the copy and the clock, and a closed unit awaits nothing.
pub open spec fn event_fits(phase: ConnectionPhase, event: ConnectionEvent) -> bool {
    match phase {
        ConnectionPhase::Connecting { .. } => event == ConnectionEvent::BackendConnected
            || event == ConnectionEvent::BackendConnectFailed,
        ConnectionPhase::Copying { .. } => event == ConnectionEvent::CopyCompleted
            || event == ConnectionEvent::CopyFailed || event == ConnectionEvent::TimeoutElapsed,
        ConnectionPhase::Closed { .. } => false,
    }
}

/// The transition table of a connection-handling unit.
pub open spec fn spec_advance(phase: ConnectionPhase, event: ConnectionEvent) -> ConnectionPhase {
    match phase {
        ConnectionPhase::Connecting { target, timeout_ms } => {
            if event == ConnectionEvent::BackendConnected {
                ConnectionPhase::Copying { target, timeout_ms }
            } else {
                ConnectionPhase::Closed { outcome: ConnectionOutcome::BackendConnect }
            }
        },
        ConnectionPhase::Copying { .. } => {
            if event == ConnectionEvent::CopyCompleted {
                ConnectionPhase::Closed { outcome: ConnectionOutcome::Forwarded }
            } else if event == ConnectionEvent::CopyFailed {
                ConnectionPhase::Closed { outcome: ConnectionOutcome::Proxy }
            } else {
                ConnectionPhase::Closed { outcome: ConnectionOutcome::ConnectionTimeout }
            }
        },
        ConnectionPhase::Closed { .. } => phase,
    }
}

/// Advances one connection-handling unit by one observed event: a failed
/// connection attempt or a lost race closes the unit with the matching
/// error, a successful attempt starts the copy, and a finished copy closes
/// the unit as forwarded.
pub fn advance(phase: ConnectionPhase, event: ConnectionEvent) -> (next: ConnectionPhase)
    requires
        event_fits(phase, event),
    ensures
        next == spec_advance(phase, event),
{
    match phase {
        ConnectionPhase::Connecting { target, timeout_ms } => {
            match event {
                ConnectionEvent::BackendConnected => ConnectionPhase::Copying { target, timeout_ms },
                _ => ConnectionPhase::Closed { outcome: ConnectionOutcome::BackendConnect },
            }
        },
        ConnectionPhase::Copying { .. } => {
            match event {
                ConnectionEvent::CopyCompleted => ConnectionPhase::Closed {
                    outcome: ConnectionOutcome::Forwarded,
                },
                ConnectionEvent::CopyFailed => ConnectionPhase::Closed {
                    outcome: ConnectionOutcome::Proxy,
                },
                _ => ConnectionPhase::Closed { outcome: ConnectionOutcome::ConnectionTimeout },
            }
        },
        ConnectionPhase::Closed { .. } => phase,
    }
}

/// A network load balancer that distributes incoming TCP connections to
/// backend servers according to a chosen balancing strategy.
///
/// The strategy is the only state shared across connection-handling units;
/// the surrounding program holds the whole value behind a mutual-exclusion
/// boundary and keeps each critical section to a single call.
pub struct LoadBalancer<S: BalancingStrategy> {
    /// The fixed total time budget for each connection's copy phase, in
    /// milliseconds.
    pub timeout_ms: u64,
    /// The shared selection strategy.
    pub strategy: S,
}

impl<S: BalancingStrategy> LoadBalancer<S> {
    /// The dispatcher is well-formed when its strategy is.
    pub open spec fn wf(&self) -> bool {
        self.strategy.wf()
    }

    /// Creates a new `LoadBalancer` instance with the specified balancing
    /// strategy and the fixed default budget of 6000 milliseconds per copy
    /// phase.
    pub fn new(strategy: S) -> (lb: LoadBalancer<S>)
        requires
            strategy.wf(),
        ensures
            lb.wf(),
            lb.timeout_ms == 6000,
            lb.strategy == strategy,
    {
        LoadBalancer { timeout_ms: 6000, strategy }
    }

    /// The first step of handling an accepted client: under the lock, ask
    /// the strategy for a target. With no target on offer the unit is over
    /// at once — the client is closed untouched and `NoTargetsError`
    /// reported, with no backend connection ever attempted; otherwise the
    /// unit proceeds to open the outbound connection, carrying this
    /// dispatcher's copy budget. The pool itself is never changed, so every
    /// later client is dispatched against the same pool.
    pub fn begin_connection(&mut self) -> (phase: ConnectionPhase)
        requires
            old(self).wf(),
        ensures
            final(self).wf(),
            final(self).timeout_ms == old(self).timeout_ms,
            final(self).strategy.pool() == old(self).strategy.pool(),
            old(self).strategy.pool().len() == 0 ==> phase == (ConnectionPhase::Closed {
                outcome: ConnectionOutcome::NoTargets,
            }),
            old(self).strategy.pool().len() > 0 ==> match phase {
                ConnectionPhase::Connecting { target, timeout_ms } => {
                    &&& old(self).strategy.pool().contains(target)
                    &&& timeout_ms == old(self).timeout_ms
                },
                _ => false,
            },
    {
        match self.strategy.next() {
            Some(target) => ConnectionPhase::Connecting { target, timeout_ms: self.timeout_ms },
            None => ConnectionPhase::Closed { outcome: ConnectionOutcome::NoTargets },
        }
    }
}

/// Graceful no-target behaviour: a client that arrives while the pool is
/// empty is closed at once with `NoTargetsError` and no backend connection
/// is ever attempted; dispatching never changes the pool, so a second
/// client arriving afterwards is answered identically. The hypotheses are
/// exactly what `begin_connection` guarantees of two successive dispatches.
pub proof fn lemma_empty_pool_graceful(
    pool_before: Seq<Target>,
    pool_between: Seq<Target>,
    first_phase: ConnectionPhase,
    second_phase: ConnectionPhase,
)
    requires
        pool_before.len() == 0,
        pool_between == pool_before,
        pool_before.len() == 0 ==> first_phase == (ConnectionPhase::Closed {
            outcome: ConnectionOutcome::NoTargets,
        }),
        pool_between.len() == 0 ==> second_phase == (ConnectionPhase::Closed {
            outcome: ConnectionOutcome::NoTargets,
        }),
    ensures
        first_phase == (ConnectionPhase::Closed { outcome: ConnectionOutcome::NoTargets }),
        second_phase == first_phase,
        !(first_phase is Connecting),
        !(second_phase is Connecting),
{
}

/// Why `run` stopped: the fatal part of the error taxonomy. Only these two
/// surface to the dispatcher's caller; every connection-level failure is
/// absorbed by its own unit.
#[derive(Clone, Copy, PartialEq, Eq, Structural, Debug)]
pub enum FatalError {
    /// `BindError`: the listening address/port could not be acquired.
    Bind,
    /// The fatal subset of `AcceptError`: the listener itself is unusable.
    Accept,
}

/// What the accept loop observed in one iteration.
#[derive(Clone, Copy, PartialEq, Eq, Structural, Debug)]
pub enum AcceptEvent {
    /// A client connection arrived.
    Accepted,
    /// A transient accept failure, such as one connection reset before
    /// acceptance completed.
    TransientFailure,
    /// A failure showing the listener itself is unusable.
    FatalFailure,
}

/// The dispatcher's reaction to one accept-loop iteration.
#[derive(Clone, Copy, PartialEq, Eq, Structural, Debug)]
pub enum AcceptAction {
    /// Spawn an independent connection-handling unit for the accepted
    /// client, then resume accepting without waiting for it.
    SpawnHandler,
    /// Report the failure and keep accepting.
    KeepServing,
    /// Terminate `run`, surfacing the fatal accept error.
    Stop,
}

/// The accept loop's policy, as a value the contracts can speak of.
pub open spec fn spec_accept_step(event: AcceptEvent) -> AcceptAction {
    match event {
        AcceptEvent::Accepted => AcceptAction::SpawnHandler,
        AcceptEvent::TransientFailure => AcceptAction::KeepServing,
        AcceptEvent::FatalFailure => AcceptAction::Stop,
    }
}

/// Decides how the accept loop answers one iteration: every accepted client
/// gets its own concurrent handling unit, a transient failure is only
/// reported, and only a fatal listener failure stops `run`.
pub fn accept_step(event: AcceptEvent) -> (action: AcceptAction)
    ensures
        action == spec_accept_step(event),
{
    match event {
        AcceptEvent::Accepted => AcceptAction::SpawnHandler,
        AcceptEvent::TransientFailure => AcceptAction::KeepServing,
        AcceptEvent::FatalFailure => AcceptAction::Stop,
    }
}

/// Propagation policy: the accept loop stops exactly on a fatal listener
/// failure — no connection-level event can stop it, so the dispatcher's
/// availability never depends on any single connection's fate.
pub proof fn lemma_only_listener_failure_stops(event: AcceptEvent)
    ensures
        spec_accept_step(event) == AcceptAction::Stop <==> event == AcceptEvent::FatalFailure,
{
}

/// A closed unit is terminal: once a connection-handling unit has closed its
/// sockets and reported its outcome, no further event moves it.
pub proof fn lemma_closed_is_terminal(outcome: ConnectionOutcome, event: ConnectionEvent)
    ensures
        spec_advance(ConnectionPhase::Closed { outcome }, event) == (ConnectionPhase::Closed {
            outcome,
        }),
{
}

/// Each way a unit can end is classified as exactly one outcome: the clock
/// winning the race yields `ConnectionTimeoutError` (the fixed budget is
/// enforced), an I/O error on an established pair yields `ProxyError`, a
/// finished copy is normal completion, and a refused backend yields
/// `BackendConnectError`.
pub proof fn lemma_outcome_classification(phase: ConnectionPhase, event: ConnectionEvent)
    requires
        event_fits(phase, event),
    ensures
        phase is Copying && event == ConnectionEvent::TimeoutElapsed ==> spec_advance(phase, event)
            == (ConnectionPhase::Closed { outcome: ConnectionOutcome::ConnectionTimeout }),
        phase is Copying && event == ConnectionEvent::CopyFailed ==> spec_advance(phase, event)
            == (ConnectionPhase::Closed { outcome: ConnectionOutcome::Proxy }),
        phase is Copying && event == ConnectionEvent::CopyCompleted ==> spec_advance(phase, event)
            == (ConnectionPhase::Closed { outcome: ConnectionOutcome::Forwarded }),
        phase is Connecting && event == ConnectionEvent::BackendConnectFailed ==> spec_advance(
            phase,
            event,
        ) == (ConnectionPhase::Closed { outcome: ConnectionOutcome::BackendConnect }),
{
}

/// Dispatcher availability under partial failure: a unit whose chosen
/// backend refused the connection closes with `BackendConnectError`; a unit
/// never touches the dispatcher, and dispatching preserves the pool, so a
/// later unit over the same non-empty pool is still handed a target. The
/// hypotheses are exactly what `begin_connection` guarantees of the later
/// dispatch.
pub proof fn lemma_partial_failure_isolated(
    target: Target,
    timeout_ms: u64,
    later_pool: Seq<Target>,
    later_phase: ConnectionPhase,
)
    requires
        later_pool.len() > 0,
        match later_phase {
            ConnectionPhase::Connecting { target: t2, .. } => later_pool.contains(t2),
            _ => false,
        },
    ensures
        spec_advance(
            ConnectionPhase::Connecting { target, timeout_ms },
            ConnectionEvent::BackendConnectFailed,
        ) == (ConnectionPhase::Closed { outcome: ConnectionOutcome::BackendConnect }),
        later_phase matches ConnectionPhase::Connecting { target: t2, .. } && later_pool.contains(
            t2,
        ),
{
}

/// A configuration builder: accumulates a strategy and a timeout through
/// independent, order-insensitive calls, then produces a dispatcher.
pub struct LoadBalancerBuilder<S: BalancingStrategy> {
    /// The copy-phase budget the dispatcher will get, in milliseconds.
    pub timeout_ms: u64,
    /// The strategy the dispatcher will get; there is no default.
    pub strategy: Option<S>,
}

impl<S: BalancingStrategy> LoadBalancerBuilder<S> {
    /// Whatever strategy has been set so far is well-formed.
    pub open spec fn wf(&self) -> bool {
        self.strategy matches Some(s) ==> s.wf()
    }

    /// A fresh builder: no strategy yet, and the fixed default budget of
    /// 30000 milliseconds.
    pub fn new() -> (b: LoadBalancerBuilder<S>)
        ensures
            b.wf(),
            b.timeout_ms == 30000,
            b.strategy is None,
    {
        LoadBalancerBuilder { timeout_ms: 30000, strategy: None }
    }

    /// Sets the balancing strategy, leaving the timeout as it was.
    pub fn strategy(self, strategy: S) -> (b: LoadBalancerBuilder<S>)
        requires
            strategy.wf(),
        ensures
            b.wf(),
            b.strategy == Some(strategy),
            b.timeout_ms == self.timeout_ms,
    {
        LoadBalancerBuilder { strategy: Some(strategy), ..self }
    }

    /// Sets the copy-phase budget in milliseconds, leaving the strategy as
    /// it was.
    pub fn timeout(self, timeout_ms: u64) -> (b: LoadBalancerBuilder<S>)
        ensures
            b.wf() == self.wf(),
            b.timeout_ms == timeout_ms,
            b.strategy == self.strategy,
    {
        LoadBalancerBuilder { timeout_ms, ..self }
    }

    /// Produces the dispatcher. There is no default strategy — a dispatcher
    /// with no selection logic has no defined behaviour — so building
    /// without one is a programming error, ruled out by the precondition.
    pub fn build(self) -> (lb: LoadBalancer<S>)
        requires
            self.wf(),
            self.strategy is Some,
        ensures
            lb.wf(),
            lb.timeout_ms == self.timeout_ms,
            Some(lb.strategy) == self.strategy,
    {
        match self.strategy {
            Some(strategy) => LoadBalancer { timeout_ms: self.timeout_ms, strategy },
            None => vstd::pervasive::unreached(),
        }
    }
}

} // verus!
