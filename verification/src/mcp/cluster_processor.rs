//! Cluster-wide message bookkeeping: where each message has been replicated, which
//! nodes should receive further copies, and which transfers rebalance the load.

use crate::mcp::processor::ProcessorConfig;
use vstd::prelude::*;

verus! {

/// Configuration for cluster message processing. Intervals are in milliseconds.
#[derive(Debug, Clone, Copy)]
pub struct ClusterProcessorConfig {
    /// Local processor configuration
    pub processor_config: ProcessorConfig,
    /// Replication factor for messages
    pub replication_factor: usize,
    /// Message sync interval
    pub sync_interval_ms: u64,
    /// Message redistribution interval
    pub redistribution_interval_ms: u64,
}

impl Default for ClusterProcessorConfig {
    fn default() -> (c: Self)
        ensures
            c.processor_config.worker_count >= 1,
            c.processor_config.max_retries == 3,
            c.processor_config.retry_delay_ms == 5000,
            c.processor_config.timeout_ms == 30000,
            c.replication_factor == 2,
            c.sync_interval_ms == 5000,
            c.redistribution_interval_ms == 30000,
    {
        ClusterProcessorConfig {
            processor_config: ProcessorConfig::default(),
            replication_factor: 2,
            sync_interval_ms: 5000,
            redistribution_interval_ms: 30000,
        }
    }
}

/// Nodes holding a copy of message `msg`, in the order the copies were recorded.
pub open spec fn nodes_of(placements: Seq<(u128, u128)>, msg: u128) -> Seq<u128>
    decreases placements.len(),
{
    if placements.len() == 0 {
        Seq::empty()
    } else {
        let rest = nodes_of(placements.drop_last(), msg);
        if placements.last().0 == msg {
            rest.push(placements.last().1)
        } else {
            rest
        }
    }
}

/// Number of message copies recorded on `node`.
pub open spec fn count_on(placements: Seq<(u128, u128)>, node: u128) -> nat
    decreases placements.len(),
{
    if placements.len() == 0 {
        0
    } else {
        count_on(placements.drop_last(), node) + if placements.last().1 == node {
            1nat
        } else {
            0nat
        }
    }
}

/// Tracks message distribution across the cluster: each recorded placement says that
/// a node holds a copy of a message.
#[derive(Debug)]
pub struct MessageDistribution {
    pub placements: Vec<(u128, u128)>,
}

impl MessageDistribution {
    pub fn new() -> (d: Self)
        ensures
            d.placements@.len() == 0,
    {
        MessageDistribution { placements: Vec::new() }
    }

    /// Record that `node_id` holds a copy of `msg_id`.
    pub fn add_message(&mut self, msg_id: u128, node_id: u128)
        ensures
            final(self).placements@ == old(self).placements@.push((msg_id, node_id)),
    {
        self.placements.push((msg_id, node_id));
    }

    /// The nodes that hold a copy of `msg_id`.
    pub fn get_nodes_for_message(&self, msg_id: u128) -> (r: Vec<u128>)
        ensures
            r@ == nodes_of(self.placements@, msg_id),
    {
        let mut r: Vec<u128> = Vec::new();
        let mut i: usize = 0;
        while i < self.placements.len()
            invariant
                i <= self.placements@.len(),
                r@ == nodes_of(self.placements@.take(i as int), msg_id),
            decreases self.placements@.len() - i,
        {
            proof {
                assert(self.placements@.take(i as int + 1).drop_last() =~= self.placements@.take(
                    i as int,
                ));
            }
            let (m, n) = self.placements[i];
            if m == msg_id {
                r.push(n);
            }
            i = i + 1;
        }
        assert(self.placements@.take(self.placements@.len() as int) =~= self.placements@);
        r
    }

    /// The number of message copies recorded on `node_id`.
    pub fn get_node_message_count(&self, node_id: u128) -> (c: usize)
        ensures
            c == count_on(self.placements@, node_id),
    {
        let mut c: usize = 0;
        let mut i: usize = 0;
        while i < self.placements.len()
            invariant
                i <= self.placements@.len(),
                c == count_on(self.placements@.take(i as int), node_id),
                c <= i,
            decreases self.placements@.len() - i,
        {
            proof {
                assert(self.placements@.take(i as int + 1).drop_last() =~= self.placements@.take(
                    i as int,
                ));
            }
            if self.placements[i].1 == node_id {
                c = c + 1;
            }
            i = i + 1;
        }
        assert(self.placements@.take(self.placements@.len() as int) =~= self.placements@);
        c
    }

    /// The total number of copies recorded, summed over all nodes.
    pub fn total_messages(&self) -> (n: usize)
        ensures
            n == self.placements@.len(),
    {
        self.placements.len()
    }
}

/// The active nodes that do not yet hold a copy.
pub open spec fn candidates(active: Seq<u128>, current: Seq<u128>) -> Seq<u128> {
    active.filter(|n: u128| !current.contains(n))
}

/// The nodes that should receive a further copy of a message now held by `current`,
/// so that it reaches `replication_factor` copies: the first active nodes not holding it.
pub open spec fn targets(active: Seq<u128>, current: Seq<u128>, replication_factor: int) -> Seq<
    u128,
> {
    if current.len() < replication_factor {
        let needed = replication_factor - current.len();
        let c = candidates(active, current);
        if c.len() <= needed {
            c
        } else {
            c.take(needed)
        }
    } else {
        Seq::empty()
    }
}

fn contains(v: &Vec<u128>, x: u128) -> (r: bool)
    ensures
        r == v@.contains(x),
{
    let mut i: usize = 0;
    while i < v.len()
        invariant
            i <= v@.len(),
            forall|j: int| 0 <= j < i ==> v@[j] != x,
        decreases v@.len() - i,
    {
        if v[i] == x {
            return true;
        }
        i = i + 1;
    }
    false
}

/// Choose the nodes that should receive one more copy of a message.
pub fn replication_targets(active: &Vec<u128>, current: &Vec<u128>, replication_factor: usize) -> (r: Vec<u128>)
    ensures
        r@ == targets(active@, current@, replication_factor as int),
        current@.len() >= replication_factor ==> r@.len() == 0,
        current@.len() < replication_factor ==> current@.len() + r@.len() <= replication_factor,
        forall|i: int| 0 <= i < r@.len() ==> active@.contains(#[trigger] r@[i]) && !current@.contains(r@[i]),
        current@.len() + r@.len() < replication_factor ==> forall|n: u128|
            active@.contains(n) && !current@.contains(n) ==> #[trigger] r@.contains(n),
{
    proof {
        law_replication_targets(active@, current@, replication_factor as int);
    }
    let mut r: Vec<u128> = Vec::new();
    if current.len() >= replication_factor {
        return r;
    }
    let needed = replication_factor - current.len();
    let ghost cand = candidates(active@, current@);
    let mut i: usize = 0;
    while i < active.len() && r.len() < needed
        invariant
            i <= active@.len(),
            needed == replication_factor - current@.len(),
            cand == candidates(active@, current@),
            r@ == candidates(active@.take(i as int), current@),
            r@.len() <= needed,
        decreases active@.len() - i,
    {
        proof {
            assert(active@.take(i as int + 1).drop_last() =~= active@.take(i as int));
            reveal_with_fuel(Seq::filter, 1);
        }
        let n = active[i];
        if !contains(current, n) {
            r.push(n);
        }
        i = i + 1;
    }
    proof {
        // the candidates among the first `i` nodes are a prefix of all candidates
        lemma_filter_prefix(active@, current@, i as int);
        if i == active@.len() {
            assert(active@.take(i as int) =~= active@);
        }
    }
    r
}

/// The candidates among a prefix of the active nodes form a prefix of all candidates.
proof fn lemma_filter_prefix(active: Seq<u128>, current: Seq<u128>, i: int)
    requires
        0 <= i <= active.len(),
    ensures
        candidates(active.take(i), current).len() <= candidates(active, current).len(),
        candidates(active, current).take(candidates(active.take(i), current).len() as int)
            == candidates(active.take(i), current),
    decreases active.len() - i,
{
    reveal_with_fuel(Seq::filter, 1);
    if i < active.len() {
        lemma_filter_prefix(active, current, i + 1);
        let a = candidates(active.take(i), current);
        let b = candidates(active.take(i + 1), current);
        assert(active.take(i + 1).drop_last() =~= active.take(i));
        if !current.contains(active[i]) {
            assert(b == a.push(active[i]));
            assert(b.take(a.len() as int) =~= a);
        } else {
            assert(b == a);
        }
        let all = candidates(active, current);
        assert(all.take(a.len() as int) =~= all.take(b.len() as int).take(a.len() as int));
    } else {
        assert(active.take(i) =~= active);
        let all = candidates(active, current);
        assert(all.take(all.len() as int) =~= all);
    }
}

/// The nodes chosen for further copies never take a message beyond
/// `replication_factor` holders, and when fewer than the missing number are chosen it
/// is because no other active node lacks a copy: each chosen node is active and does
/// not hold one yet.
pub proof fn law_replication_targets(active: Seq<u128>, current: Seq<u128>, replication_factor: int)
    ensures
        ({
            let r = targets(active, current, replication_factor);
            &&& current.len() >= replication_factor ==> r.len() == 0
            &&& current.len() < replication_factor ==> current.len() + r.len() <= replication_factor
            &&& forall|i: int|
                0 <= i < r.len() ==> active.contains(#[trigger] r[i]) && !current.contains(r[i])
            &&& current.len() + r.len() < replication_factor ==> forall|n: u128|
                active.contains(n) && !current.contains(n) ==> #[trigger] r.contains(n)
            &&& r == active.filter(|n: u128| !current.contains(n)).take(r.len() as int)
        }),
{
    let r = targets(active, current, replication_factor);
    let pred = |n: u128| !current.contains(n);
    let c = active.filter(pred);
    active.filter_lemma(pred);
    assert(c == candidates(active, current));
    assert forall|i: int| 0 <= i < r.len() implies active.contains(#[trigger] r[i]) && !current.contains(r[i]) by {
        assert(r[i] == c[i]);
        assert(pred(c[i]));
        assert(c.contains(c[i]));
        active.lemma_filter_contains_rev(pred, c[i]);
    }
    if current.len() < replication_factor && c.len() > replication_factor - current.len() {
        assert(r == c.take(replication_factor - current.len()));
    } else {
        assert(r.len() == 0 || r == c);
        assert(c.take(c.len() as int) =~= c);
        assert(c.take(0) =~= Seq::<u128>::empty());
    }
    if current.len() < replication_factor && current.len() + r.len() < replication_factor {
        assert(r == c);
        assert forall|n: u128| active.contains(n) && !current.contains(n) implies #[trigger] r.contains(n) by {
            let j = choose|j: int| 0 <= j < active.len() && active[j] == n;
            assert(pred(active[j]));
        }
    }
}

/// Messages moved by one transfer between two nodes.
pub const TRANSFER_BATCH: usize = 10;

/// The average load per node, as the integer quotient of all copies by the node count
/// (by one when there is no node).
pub open spec fn average_load(total: int, node_count: int) -> int {
    total / if node_count > 1 {
        node_count
    } else {
        1
    }
}

/// Nodes holding more than ten copies above the average, in order.
pub open spec fn overloaded(nodes: Seq<u128>, placements: Seq<(u128, u128)>, avg: int) -> Seq<u128> {
    nodes.filter(|n: u128| count_on(placements, n) > avg + 10)
}

/// Nodes holding more than ten copies below the average, in order.
pub open spec fn underloaded(nodes: Seq<u128>, placements: Seq<(u128, u128)>, avg: int) -> Seq<
    u128,
> {
    nodes.filter(|n: u128| count_on(placements, n) < avg - 10)
}

/// Transfers pairing the last overloaded node with the last underloaded one, then the
/// ones before them, until either list runs out.
pub open spec fn transfer_plan(over: Seq<u128>, under: Seq<u128>) -> Seq<(u128, u128)> {
    let k = if over.len() <= under.len() {
        over.len()
    } else {
        under.len()
    };
    Seq::new(k, |i: int| (over[over.len() - 1 - i], under[under.len() - 1 - i]))
}

/// Plan the transfers (from, to) of [`TRANSFER_BATCH`] messages each that balance the
/// load over the active `nodes`.
pub fn rebalance_plan(nodes: &Vec<u128>, dist: &MessageDistribution) -> (plan: Vec<(u128, u128)>)
    requires
        nodes@.len() > 0 ==> {
            let avg = average_load(dist.placements@.len() as int, nodes@.len() as int);
            10 <= avg && avg + 10 <= usize::MAX
        },
    ensures
        ({
            let avg = average_load(dist.placements@.len() as int, nodes@.len() as int);
            plan@ == transfer_plan(
                overloaded(nodes@, dist.placements@, avg),
                underloaded(nodes@, dist.placements@, avg),
            )
        }),
        ({
            let avg = average_load(dist.placements@.len() as int, nodes@.len() as int);
            forall|k: int|
                0 <= k < plan@.len() ==> {
                    &&& nodes@.contains((#[trigger] plan@[k]).0)
                    &&& count_on(dist.placements@, plan@[k].0) > avg + 10
                    &&& nodes@.contains(plan@[k].1)
                    &&& count_on(dist.placements@, plan@[k].1) < avg - 10
                }
        }),
{
    proof {
        law_rebalance_moves_from_over_to_under(nodes@, dist.placements@);
    }
    let total = dist.total_messages();
    let divisor = if nodes.len() > 1 {
        nodes.len()
    } else {
        1
    };
    let avg = total / divisor;
    let ghost avg_i = avg as int;
    let mut over: Vec<u128> = Vec::new();
    let mut under: Vec<u128> = Vec::new();
    let mut i: usize = 0;
    while i < nodes.len()
        invariant
            i <= nodes@.len(),
            nodes@.len() > 0 ==> 10 <= avg && avg + 10 <= usize::MAX,
            avg_i == avg,
            over@ == overloaded(nodes@.take(i as int), dist.placements@, avg_i),
            under@ == underloaded(nodes@.take(i as int), dist.placements@, avg_i),
        decreases nodes@.len() - i,
    {
        proof {
            assert(nodes@.take(i as int + 1).drop_last() =~= nodes@.take(i as int));
            reveal_with_fuel(Seq::filter, 1);
        }
        let n = nodes[i];
        let c = dist.get_node_message_count(n);
        if c > avg + 10 {
            over.push(n);
        }
        if c < avg - 10 {
            under.push(n);
        }
        i = i + 1;
    }
    assert(nodes@.take(nodes@.len() as int) =~= nodes@);
    let ghost o = over@;
    let ghost u = under@;
    let mut plan: Vec<(u128, u128)> = Vec::new();
    while over.len() > 0 && under.len() > 0
        invariant
            over@ == o.take(over@.len() as int),
            under@ == u.take(under@.len() as int),
            over@.len() <= o.len(),
            under@.len() <= u.len(),
            o.len() - over@.len() == u.len() - under@.len(),
            plan@.len() == o.len() - over@.len(),
            forall|k: int|
                0 <= k < plan@.len() ==> #[trigger] plan@[k] == (o[o.len() - 1 - k], u[u.len() - 1 - k]),
        decreases over@.len(),
    {
        let from = over.pop().unwrap();
        let to = under.pop().unwrap();
        plan.push((from, to));
        proof {
            assert(over@ =~= o.take(over@.len() as int));
            assert(under@ =~= u.take(under@.len() as int));
        }
    }
    assert(plan@ =~= transfer_plan(o, u));
    plan
}

/// Every planned transfer moves messages from an active node holding more than ten
/// copies above the average (all copies over the node count, or over one where there
/// is at most one node) to an active node holding more than ten below it; and some
/// transfer is planned whenever there is both such a source and such a destination.
pub proof fn law_rebalance_moves_from_over_to_under(nodes: Seq<u128>, placements: Seq<(u128, u128)>)
    ensures
        ({
            let avg = average_load(placements.len() as int, nodes.len() as int);
            let plan = transfer_plan(overloaded(nodes, placements, avg), underloaded(nodes, placements, avg));
            &&& avg == placements.len() as int / if nodes.len() > 1 {
                nodes.len() as int
            } else {
                1
            }
            &&& forall|k: int|
                0 <= k < plan.len() ==> {
                    &&& nodes.contains((#[trigger] plan[k]).0)
                    &&& count_on(placements, plan[k].0) > avg + 10
                    &&& nodes.contains(plan[k].1)
                    &&& count_on(placements, plan[k].1) < avg - 10
                }
            &&& (exists|i: int| 0 <= i < nodes.len() && count_on(placements, #[trigger] nodes[i]) > avg + 10)
                && (exists|j: int| 0 <= j < nodes.len() && count_on(placements, #[trigger] nodes[j]) < avg - 10)
                ==> plan.len() > 0
            &&& {
                let no = nodes.filter(|n: u128| count_on(placements, n) > avg + 10).len();
                let nu = nodes.filter(|n: u128| count_on(placements, n) < avg - 10).len();
                plan.len() == if no <= nu {
                    no
                } else {
                    nu
                }
            }
        }),
{
    let avg = average_load(placements.len() as int, nodes.len() as int);
    let po = |n: u128| count_on(placements, n) > avg + 10;
    let pu = |n: u128| count_on(placements, n) < avg - 10;
    let o = nodes.filter(po);
    let u = nodes.filter(pu);
    nodes.filter_lemma(po);
    nodes.filter_lemma(pu);
    assert(o == overloaded(nodes, placements, avg));
    assert(u == underloaded(nodes, placements, avg));
    let plan = transfer_plan(o, u);
    assert forall|k: int| 0 <= k < plan.len() implies {
        &&& nodes.contains((#[trigger] plan[k]).0)
        &&& count_on(placements, plan[k].0) > avg + 10
        &&& nodes.contains(plan[k].1)
        &&& count_on(placements, plan[k].1) < avg - 10
    } by {
        let a = o[o.len() - 1 - k];
        let b = u[u.len() - 1 - k];
        assert(plan[k] == (a, b));
        assert(po(a));
        assert(pu(b));
        assert(o.contains(a));
        assert(u.contains(b));
        nodes.lemma_filter_contains_rev(po, a);
        nodes.lemma_filter_contains_rev(pu, b);
    }
    if (exists|i: int| 0 <= i < nodes.len() && count_on(placements, #[trigger] nodes[i]) > avg + 10)
        && (exists|j: int| 0 <= j < nodes.len() && count_on(placements, #[trigger] nodes[j]) < avg - 10) {
        let i = choose|i: int| 0 <= i < nodes.len() && count_on(placements, #[trigger] nodes[i]) > avg + 10;
        let j = choose|j: int| 0 <= j < nodes.len() && count_on(placements, #[trigger] nodes[j]) < avg - 10;
        assert(po(nodes[i]));
        assert(pu(nodes[j]));
        assert(o.contains(nodes[i]));
        assert(u.contains(nodes[j]));
    }
}

} // verus!
