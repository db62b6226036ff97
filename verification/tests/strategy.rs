use load_balancer::network::{BalancingStrategy, IpAddress, Target};
use load_balancer::strategy::RoundRobin;

fn local_target(port: u16) -> Target {
    Target::new(IpAddress::V4(127, 0, 0, 1), port)
}

#[test]
fn should_rotate_targets_in_finite_order() {
    // given
    let targets = vec![
        Target::new(IpAddress::V4(127, 0, 0, 1), 3000),
        Target::new(IpAddress::V4(127, 0, 0, 1), 3001),
        Target::new(IpAddress::V4(127, 0, 0, 1), 3002),
    ];

    let mut strategy = RoundRobin::new(targets);

    // when
    // then
    let expected_targets = vec![
        Target::new(IpAddress::V4(127, 0, 0, 1), 3000),
        Target::new(IpAddress::V4(127, 0, 0, 1), 3001),
        Target::new(IpAddress::V4(127, 0, 0, 1), 3002),
        Target::new(IpAddress::V4(127, 0, 0, 1), 3000),
        Target::new(IpAddress::V4(127, 0, 0, 1), 3001),
    ];

    for i in 0..5 {
        let target = strategy.next().unwrap();
        assert_eq!(expected_targets[i].ip(), target.ip());
        assert_eq!(expected_targets[i].port(), target.port());
    }
}

#[test]
fn full_cycle_returns_each_target_once_then_wraps() {
    let pool = vec![local_target(3000), local_target(3001), local_target(3002)];
    let mut strategy = RoundRobin::new(pool.clone());

    let first_cycle: Vec<Target> = (0..3).map(|_| strategy.next().unwrap()).collect();
    assert_eq!(first_cycle, pool);
    assert_ne!(first_cycle[0], first_cycle[1]);
    assert_ne!(first_cycle[1], first_cycle[2]);
    assert_ne!(first_cycle[0], first_cycle[2]);

    // The call one full cycle after the first returns the first target again.
    assert_eq!(strategy.next().unwrap(), pool[0]);
    assert_eq!(strategy.next().unwrap(), pool[1]);
}

#[test]
fn empty_pool_returns_none_on_every_call() {
    let mut strategy = RoundRobin::new(Vec::new());
    for _ in 0..10 {
        assert_eq!(strategy.next(), None);
    }
}

#[test]
fn single_target_pool_always_returns_it() {
    let only = local_target(4000);
    let mut strategy = RoundRobin::new(vec![only]);
    for _ in 0..4 {
        assert_eq!(strategy.next(), Some(only));
    }
}

#[test]
fn balanced_counts_over_whole_cycles() {
    let pool = vec![local_target(3000), local_target(3001), local_target(3002)];
    let mut strategy = RoundRobin::new(pool.clone());

    let mut counts = [0usize; 3];
    for _ in 0..9 {
        let t = strategy.next().unwrap();
        let idx = pool.iter().position(|p| *p == t).unwrap();
        counts[idx] += 1;
    }
    // M = 9 calls over N = 3 targets: each target exactly M/N = 3 times.
    assert_eq!(counts, [3, 3, 3]);
}

#[test]
fn balanced_counts_hold_from_any_cursor() {
    let pool = vec![local_target(3000), local_target(3001)];
    let mut strategy = RoundRobin::new(pool.clone());
    // Advance by one call so the window starts mid-cycle.
    strategy.next().unwrap();

    let mut counts = [0usize; 2];
    for _ in 0..6 {
        let t = strategy.next().unwrap();
        let idx = pool.iter().position(|p| *p == t).unwrap();
        counts[idx] += 1;
    }
    assert_eq!(counts, [3, 3]);
}

#[test]
fn select_many_walks_whole_cycles() {
    let pool = vec![local_target(3000), local_target(3001), local_target(3002)];
    let mut strategy = RoundRobin::new(pool.clone());

    let picks = strategy.select_many(6);
    let mut expected = pool.clone();
    expected.extend(pool.clone());
    assert_eq!(picks, expected);
    // Two whole cycles leave the cursor back at the front.
    assert_eq!(strategy.current, 0);

    // A window that stops mid-cycle leaves the cursor just past it.
    let picks = strategy.select_many(4);
    assert_eq!(picks, vec![pool[0], pool[1], pool[2], pool[0]]);
    assert_eq!(strategy.current, 1);
}

#[test]
fn target_is_compared_by_value() {
    let a = Target::new(IpAddress::V4(10, 0, 0, 1), 80);
    let b = Target::new(IpAddress::V4(10, 0, 0, 1), 80);
    let c = Target::new(IpAddress::V4(10, 0, 0, 2), 80);
    let d = Target::new(IpAddress::V4(10, 0, 0, 1), 81);
    assert_eq!(a, b);
    assert_ne!(a, c);
    assert_ne!(a, d);
    assert_eq!(a.ip(), IpAddress::V4(10, 0, 0, 1));
    assert_eq!(a.port(), 80);
    let v6 = Target::new(IpAddress::V6(1), 443);
    assert_ne!(v6.ip(), a.ip());
    assert_eq!(v6.port(), 443);
}
