use load_balancer::network::{
    accept_step, advance, AcceptAction, AcceptEvent, ConnectionEvent, ConnectionOutcome,
    ConnectionPhase, IpAddress, LoadBalancer, LoadBalancerBuilder, Target,
};
use load_balancer::strategy::RoundRobin;

fn local_target(port: u16) -> Target {
    Target::new(IpAddress::V4(127, 0, 0, 1), port)
}

#[test]
fn dispatch_hands_out_the_next_target_with_the_budget() {
    let pool = vec![local_target(3001), local_target(3002)];
    let mut lb = LoadBalancer::new(RoundRobin::new(pool.clone()));

    match lb.begin_connection() {
        ConnectionPhase::Connecting { target, timeout_ms } => {
            assert_eq!(target, pool[0]);
            assert_eq!(timeout_ms, 6000);
        }
        other => panic!("expected a connecting phase, got {:?}", other),
    }
    match lb.begin_connection() {
        ConnectionPhase::Connecting { target, .. } => assert_eq!(target, pool[1]),
        other => panic!("expected a connecting phase, got {:?}", other),
    }
}

#[test]
fn empty_pool_closes_client_without_backend_attempt() {
    let mut lb = LoadBalancer::new(RoundRobin::new(Vec::new()));

    // The first client is turned away with NoTargets, no connecting phase.
    let first = lb.begin_connection();
    assert_eq!(first, ConnectionPhase::Closed { outcome: ConnectionOutcome::NoTargets });

    // A second client afterwards is still served according to the same rule.
    let second = lb.begin_connection();
    assert_eq!(second, ConnectionPhase::Closed { outcome: ConnectionOutcome::NoTargets });
}

#[test]
fn connection_unit_transitions() {
    let t = local_target(3001);
    let connecting = ConnectionPhase::Connecting { target: t, timeout_ms: 500 };

    // A successful backend connection starts the copy, keeping the budget.
    assert_eq!(
        advance(connecting, ConnectionEvent::BackendConnected),
        ConnectionPhase::Copying { target: t, timeout_ms: 500 }
    );
    // A refused backend closes the unit with BackendConnectError.
    assert_eq!(
        advance(connecting, ConnectionEvent::BackendConnectFailed),
        ConnectionPhase::Closed { outcome: ConnectionOutcome::BackendConnect }
    );

    let copying = ConnectionPhase::Copying { target: t, timeout_ms: 500 };
    // The copy finishing first is normal completion.
    assert_eq!(
        advance(copying, ConnectionEvent::CopyCompleted),
        ConnectionPhase::Closed { outcome: ConnectionOutcome::Forwarded }
    );
    // An I/O error on either leg is a ProxyError, not escalated further.
    assert_eq!(
        advance(copying, ConnectionEvent::CopyFailed),
        ConnectionPhase::Closed { outcome: ConnectionOutcome::Proxy }
    );
    // The clock winning the race is a ConnectionTimeoutError.
    assert_eq!(
        advance(copying, ConnectionEvent::TimeoutElapsed),
        ConnectionPhase::Closed { outcome: ConnectionOutcome::ConnectionTimeout }
    );
}

#[test]
fn one_failed_backend_does_not_affect_the_next_connection() {
    let refusing = local_target(3001);
    let healthy = local_target(3002);
    let mut lb = LoadBalancer::new(RoundRobin::new(vec![refusing, healthy]));

    // First unit: dispatched to the refusing target, its connection attempt
    // fails, the unit closes with BackendConnectError.
    let phase = lb.begin_connection();
    let phase = match phase {
        ConnectionPhase::Connecting { target, .. } => {
            assert_eq!(target, refusing);
            advance(phase, ConnectionEvent::BackendConnectFailed)
        }
        other => panic!("expected a connecting phase, got {:?}", other),
    };
    assert_eq!(phase, ConnectionPhase::Closed { outcome: ConnectionOutcome::BackendConnect });

    // Second unit: still dispatched, to the healthy target, and proceeds.
    match lb.begin_connection() {
        ConnectionPhase::Connecting { target, .. } => assert_eq!(target, healthy),
        other => panic!("expected a connecting phase, got {:?}", other),
    }
}

#[test]
fn accept_loop_policy() {
    assert_eq!(accept_step(AcceptEvent::Accepted), AcceptAction::SpawnHandler);
    assert_eq!(accept_step(AcceptEvent::TransientFailure), AcceptAction::KeepServing);
    assert_eq!(accept_step(AcceptEvent::FatalFailure), AcceptAction::Stop);
}

#[test]
fn builder_accumulates_in_any_order() {
    let pool = vec![local_target(3001)];

    let a = LoadBalancerBuilder::new()
        .strategy(RoundRobin::new(pool.clone()))
        .timeout(60_000)
        .build();
    let b = LoadBalancerBuilder::new()
        .timeout(60_000)
        .strategy(RoundRobin::new(pool.clone()))
        .build();

    assert_eq!(a.timeout_ms, 60_000);
    assert_eq!(b.timeout_ms, 60_000);
    assert_eq!(a.strategy.targets, pool);
    assert_eq!(b.strategy.targets, pool);
    assert_eq!(a.strategy.current, 0);
    assert_eq!(b.strategy.current, 0);
}

#[test]
fn builder_and_dispatcher_defaults() {
    let builder: LoadBalancerBuilder<RoundRobin> = LoadBalancerBuilder::new();
    assert_eq!(builder.timeout_ms, 30_000);
    assert!(builder.strategy.is_none());

    let lb = LoadBalancer::new(RoundRobin::new(vec![local_target(3001)]));
    assert_eq!(lb.timeout_ms, 6000);
}
