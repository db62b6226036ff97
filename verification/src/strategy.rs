//! The round-robin reference strategy.

use vstd::prelude::*;
use vstd::arithmetic::div_mod::*;
use crate::network::{BalancingStrategy, Target};

verus! {

/// Cycles over a fixed, ordered pool of targets. The cursor always points at
/// the target the next call hands out; it wraps at the end of the pool.
pub struct RoundRobin {
    /// The index of the currently active target.
    pub current: usize,
    /// The targets, which are used for load balancing.
    pub targets: Vec<Target>,
}

impl RoundRobin {
    /// Creates a new `RoundRobin` instance over the provided targets,
    /// starting at the front of the pool.
    pub fn new(targets: Vec<Target>) -> (s: RoundRobin)
        ensures
            s.targets@ == targets@,
            s.current == 0,
            s.wf(),
    {
        RoundRobin { current: 0, targets }
    }
}

impl BalancingStrategy for RoundRobin {
    open spec fn pool(&self) -> Seq<Target> {
        self.targets@
    }

    open spec fn wf(&self) -> bool {
        self.targets@.len() > 0 ==> self.current < self.targets@.len()
    }

    /// Returns the next target in the round-robin cycle, or `None` if no
    /// targets are available: the target under the cursor leaves, and the
    /// cursor advances by one, wrapping at the end of the pool.
    fn next(&mut self) -> (r: Option<Target>)
        ensures
            old(self).targets@.len() == 0 ==> {
                &&& r is None
                &&& final(self).current == old(self).current
                &&& final(self).targets@ == old(self).targets@
            },
            old(self).targets@.len() > 0 ==> {
                &&& r == Some(old(self).targets@[old(self).current as int])
                &&& final(self).current == (old(self).current + 1) % old(self).targets@.len() as int
                &&& final(self).targets@ == old(self).targets@
            },
    {
        if self.current < self.targets.len() {
            let target = self.targets[self.current];
            self.current = (self.current + 1) % self.targets.len();
            Some(target)
        } else {
            None
        }
    }
}

impl RoundRobin {
    /// Makes `m` consecutive calls and collects the returned targets: the
    /// executable strategy walks exactly the modelled cycle, so everything
    /// proved of `cycle_seq` — pool order, wrap-around, balanced counts —
    /// holds of what this returns.
    pub fn select_many(&mut self, m: usize) -> (picks: Vec<Target>)
        requires
            old(self).wf(),
            old(self).targets@.len() > 0,
        ensures
            final(self).wf(),
            final(self).targets@ == old(self).targets@,
            picks@ == cycle_seq(old(self).targets@, old(self).current as int, m as nat),
            final(self).current as int == cycle_index(
                old(self).current as int,
                m as int,
                old(self).targets@.len() as int,
            ),
    {
        let ghost c0 = self.current as int;
        let ghost pool = self.targets@;
        let ghost n = pool.len() as int;
        proof {
            lemma_small_mod(c0 as nat, n as nat);
        }
        let mut picks: Vec<Target> = Vec::new();
        let mut i: usize = 0;
        while i < m
            invariant
                self.targets@ == pool,
                pool.len() > 0,
                0 <= c0 < n,
                n == pool.len() as int,
                i <= m,
                picks@.len() == i,
                self.current as int == cycle_index(c0, i as int, n),
                self.current < pool.len(),
                forall|k: int| 0 <= k < i ==> picks@[k] == cycle_pick(pool, c0, k),
            decreases m - i,
        {
            let picked = self.next();
            match picked {
                Some(t) => picks.push(t),
                None => proof {
                    assert(false);
                },
            }
            proof {
                lemma_cursor_step(c0, i as int, n);
                lemma_mod_bound(c0 + i + 1, n);
            }
            i = i + 1;
        }
        proof {
            assert(picks@ =~= cycle_seq(pool, c0, m as nat));
        }
        picks
    }
}

/// The pool index the k-th consecutive call lands on, counting calls from 0
/// at a state whose cursor is `c`, over a pool of `n` targets.
pub open spec fn cycle_index(c: int, k: int, n: int) -> int {
    (c + k) % n
}

/// The target the k-th consecutive call returns, counting calls from 0 at a
/// state whose cursor is `c`.
pub open spec fn cycle_pick(pool: Seq<Target>, c: int, k: int) -> Target {
    pool[cycle_index(c, k, pool.len() as int)]
}

/// The targets handed out by the first `m` calls, oldest first.
pub open spec fn cycle_seq(pool: Seq<Target>, c: int, m: nat) -> Seq<Target> {
    Seq::new(m, |k: int| cycle_pick(pool, c, k))
}

/// How many of the first `m` calls, counting from cursor `c` over `n`
/// targets, land on pool index `t`.
pub open spec fn cycle_hits(c: int, n: int, m: nat, t: int) -> nat
    decreases m,
{
    if m == 0 {
        0
    } else {
        cycle_hits(c, n, (m - 1) as nat, t) + if cycle_index(c, m - 1, n) == t {
            1nat
        } else {
            0nat
        }
    }
}

/// Advancing the cursor by one after the k-th call lands on the position the
/// (k+1)-th call uses: consecutive calls walk the pool one step at a time.
pub proof fn lemma_cursor_step(c: int, k: int, n: int)
    requires
        0 < n,
        0 <= c,
        0 <= k,
    ensures
        (cycle_index(c, k, n) + 1) % n == cycle_index(c, k + 1, n),
{
    lemma_add_mod_noop_right(1, c + k, n);
}

/// Round-robin exhaustive cycle: counting calls from a fresh strategy
/// (cursor 0) over a non-empty pool, the k-th call returns `pool[k]`, and
/// the call one full cycle later returns the same target again.
pub proof fn lemma_round_robin_cycle(pool: Seq<Target>, k: int)
    requires
        pool.len() > 0,
        0 <= k < pool.len(),
    ensures
        cycle_pick(pool, 0, k) == pool[k],
        cycle_pick(pool, 0, k + pool.len()) == cycle_pick(pool, 0, k),
{
    let n = pool.len() as int;
    lemma_small_mod(k as nat, n as nat);
    lemma_mod_add_multiples_vanish(k, n);
}

/// Round-robin exhaustive cycle, whole-window form: from a fresh strategy,
/// one full cycle of calls returns exactly the pool, in pool order.
pub proof fn lemma_first_cycle_is_pool(pool: Seq<Target>)
    requires
        pool.len() > 0,
    ensures
        cycle_seq(pool, 0, pool.len()) == pool,
{
    assert forall|k: int| 0 <= k < pool.len() implies cycle_seq(pool, 0, pool.len())[k]
        == pool[k] by {
        lemma_round_robin_cycle(pool, k);
    }
    assert(cycle_seq(pool, 0, pool.len()) =~= pool);
}

/// Within any window of one full cycle, two distinct call positions land on
/// two distinct pool indices: no target is returned twice in a cycle.
pub proof fn lemma_cycle_injective(c: int, n: int, i: int, j: int)
    requires
        0 < n,
        0 <= c,
        0 <= i < j < n,
    ensures
        cycle_index(c, i, n) != cycle_index(c, j, n),
{
    if cycle_index(c, i, n) == cycle_index(c, j, n) {
        lemma_fundamental_div_mod(c + i, n);
        lemma_fundamental_div_mod(c + j, n);
        let qi = (c + i) / n;
        let qj = (c + j) / n;
        assert(j - i == n * (qj - qi)) by (nonlinear_arith)
            requires
                c + i == n * qi + (c + i) % n,
                c + j == n * qj + (c + j) % n,
                (c + i) % n == (c + j) % n,
        ;
        assert(false) by (nonlinear_arith)
            requires
                j - i == n * (qj - qi),
                0 < j - i < n,
        ;
    }
}

/// A call lands on index `t` exactly when its position within the cycle is
/// the distance from the cursor to `t`, walking forward around the pool.
proof fn lemma_lands_iff(c: int, n: int, m: int, t: int)
    requires
        0 < n,
        0 <= c < n,
        0 <= t < n,
        0 <= m,
    ensures
        cycle_index(c, m, n) == t <==> m % n == (t - c + n) % n,
{
    let d = (t - c + n) % n;
    lemma_mod_bound(t - c + n, n);
    // First: the call at position d lands on t.
    if t >= c {
        lemma_mod_add_multiples_vanish(t - c, n);
        lemma_small_mod((t - c) as nat, n as nat);
        assert(d == t - c);
        lemma_small_mod(t as nat, n as nat);
        assert(cycle_index(c, d, n) == t);
    } else {
        lemma_small_mod((t - c + n) as nat, n as nat);
        assert(d == t - c + n);
        lemma_mod_add_multiples_vanish(t, n);
        lemma_small_mod(t as nat, n as nat);
        assert(cycle_index(c, d, n) == t);
    }
    lemma_mod_bound(m, n);
    // If m lies d steps past a cycle boundary, it lands where d lands.
    if m % n == d {
        lemma_add_mod_noop_right(c, m, n);
        lemma_add_mod_noop_right(c, d, n);
        assert(cycle_index(c, m, n) == t);
    }
    // And nowhere else: positions within a cycle land injectively.
    if cycle_index(c, m, n) == t && m % n != d {
        lemma_add_mod_noop_right(c, m, n);
        lemma_add_mod_noop_right(c, d, n);
        if m % n < d {
            lemma_cycle_injective(c, n, m % n, d);
        } else {
            lemma_cycle_injective(c, n, d, m % n);
        }
    }
}

/// Closed form for `cycle_hits`: every full cycle lands on each index once,
/// and the leftover partial cycle adds one more hit exactly for the indices
/// it has already walked past.
proof fn lemma_cycle_hits_closed(c: int, n: int, m: nat, t: int)
    requires
        0 < n,
        0 <= c < n,
        0 <= t < n,
    ensures
        cycle_hits(c, n, m, t) == m as int / n + if (t - c + n) % n < m as int % n {
            1int
        } else {
            0int
        },
    decreases m,
{
    let d = (t - c + n) % n;
    lemma_mod_bound(t - c + n, n);
    if m == 0 {
        lemma_div_of0(n);
        lemma_small_mod(0, n as nat);
    } else {
        let m1 = (m - 1) as nat;
        lemma_cycle_hits_closed(c, n, m1, t);
        lemma_lands_iff(c, n, m1 as int, t);
        lemma_fundamental_div_mod(m1 as int, n);
        lemma_mod_bound(m1 as int, n);
        let q = m1 as int / n;
        let r = m1 as int % n;
        if r == n - 1 {
            assert(m as int == (q + 1) * n + 0) by (nonlinear_arith)
                requires
                    m1 as int == n * q + r,
                    r == n - 1,
                    m == m1 + 1,
            ;
            lemma_fundamental_div_mod_converse(m as int, n, q + 1, 0);
        } else {
            assert(m as int == q * n + (r + 1)) by (nonlinear_arith)
                requires
                    m1 as int == n * q + r,
                    m == m1 + 1,
            ;
            lemma_fundamental_div_mod_converse(m as int, n, q, r + 1);
        }
    }
}

/// Mutual exclusion, serialized view: across any window of `q * n`
/// consecutive calls — the dispatcher totally orders all calls — the cursor
/// lands on every pool index exactly `q` times: no index is skipped or
/// favoured.
pub proof fn lemma_balanced_distribution(c: int, n: int, q: nat, t: int)
    requires
        0 < n,
        0 <= c < n,
        0 <= t < n,
    ensures
        cycle_hits(c, n, (q * n as nat) as nat, t) == q,
{
    let m = (q * n as nat) as nat;
    lemma_cycle_hits_closed(c, n, m, t);
    lemma_mod_multiples_basic(q as int, n);
    lemma_div_by_multiple(q as int, n);
    lemma_mod_bound(t - c + n, n);
    assert(m as int == q as int * n);
}

/// With a pool of pairwise-distinct targets, the number of times one target
/// comes back across the first `m` calls equals the number of calls landing
/// on its index.
proof fn lemma_cycle_seq_count(pool: Seq<Target>, c: int, m: nat, t: int)
    requires
        pool.no_duplicates(),
        0 < pool.len(),
        0 <= c < pool.len(),
        0 <= t < pool.len(),
    ensures
        cycle_seq(pool, c, m).to_multiset().count(pool[t]) == cycle_hits(
            c,
            pool.len() as int,
            m,
            t,
        ),
    decreases m,
{
    let n = pool.len() as int;
    broadcast use vstd::seq_lib::group_to_multiset_ensures;

    if m == 0 {
        assert(cycle_seq(pool, c, 0) =~= Seq::<Target>::empty());
        assert(cycle_seq(pool, c, 0).to_multiset().count(pool[t]) == 0);
    } else {
        let m1 = (m - 1) as nat;
        lemma_cycle_seq_count(pool, c, m1, t);
        assert(cycle_seq(pool, c, m) =~= cycle_seq(pool, c, m1).push(
            cycle_pick(pool, c, m1 as int),
        ));
        lemma_mod_bound(c + m1, n);
        if cycle_index(c, m1 as int, n) != t {
            // Distinct indices hold distinct targets, so this call does not
            // add a hit for pool[t].
            assert(cycle_pick(pool, c, m1 as int) != pool[t]);
        }
    }
}

/// Balanced distribution over targets: with a pool of pairwise-distinct
/// targets, any window of `q * N` consecutive serialized calls returns every
/// target exactly `q` times.
pub proof fn lemma_balanced_target_counts(pool: Seq<Target>, c: int, q: nat, t: int)
    requires
        pool.no_duplicates(),
        0 < pool.len(),
        0 <= c < pool.len(),
        0 <= t < pool.len(),
    ensures
        cycle_seq(pool, c, (q * pool.len()) as nat).to_multiset().count(pool[t]) == q,
{
    let n = pool.len() as int;
    lemma_cycle_seq_count(pool, c, (q * pool.len()) as nat, t);
    lemma_balanced_distribution(c, n, q, t);
}

} // verus!
