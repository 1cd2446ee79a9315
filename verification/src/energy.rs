//! Energy distribution over a Slimefun energy network.
//!
//! The order is Slimefun's: the consumption of a tick is first covered with what is
//! generated in that tick, and only the surplus charges capacitors. When generation
//! falls short, the difference is drawn from the capacitors.
//!
//! All sums saturate: a large network can add up productions beyond `u64`, and a
//! silent overflow would switch machines off for no visible reason.
use vstd::prelude::*;
use dashmap::DashMap;

verus! {

/// Grid coordinates of a node.
pub type NodeKey = (i32, i32, i32);

/// One visit order of the network: each node with its coordinates.
pub type NodeWalk = Seq<(NodeKey, EnergyNode)>;

#[derive(Debug, Clone, Copy, PartialEq, Eq, Hash)]
pub enum EnergyNodeType {
    Generator { production_per_tick: u64 },
    Capacitor { capacity: u64, stored: u64 },
    Consumer { demand_per_tick: u64 },
    Connector,
}

#[derive(Debug, Clone, Copy)]
pub struct EnergyNode {
    pub x: i32,
    pub y: i32,
    pub z: i32,
    pub node_type: EnergyNodeType,
}

/// What happened in one tick.
#[derive(Debug, Clone, Copy, PartialEq, Eq)]
pub struct EnergyReport {
    /// Produced by the generators in this tick.
    pub generated: u64,
    /// Total demand of the consumers.
    pub demanded: u64,
    /// Demand actually covered, by generation or by reserves.
    pub supplied: u64,
    /// What went into capacitors.
    pub charged: u64,
    /// What came out of capacitors to cover the deficit.
    pub discharged: u64,
    /// Surplus that fitted in no capacitor and is lost.
    pub wasted: u64,
    /// Demand that neither generation nor reserves could cover.
    pub unmet: u64,
}

impl EnergyReport {
    /// Whether the network falls short this tick.
    pub fn is_starved(&self) -> (r: bool)
        ensures
            r == (self.unmet > 0),
    {
        self.unmet > 0
    }
}

impl Default for EnergyReport {
    fn default() -> (r: Self)
        ensures
            r == empty_report(),
    {
        EnergyReport {
            generated: 0,
            demanded: 0,
            supplied: 0,
            charged: 0,
            discharged: 0,
            wasted: 0,
            unmet: 0,
        }
    }
}

/// The report of a tick in which nothing happens.
pub open spec fn empty_report() -> EnergyReport {
    EnergyReport {
        generated: 0,
        demanded: 0,
        supplied: 0,
        charged: 0,
        discharged: 0,
        wasted: 0,
        unmet: 0,
    }
}

/// A per-node amount that the solver adds up over the network.
pub enum Quantity {
    Production,
    Demand,
    Stored,
    Room,
}

/// The amount `q` of node `n`: its production, its demand, the energy it stores,
/// or the room left in it (zero for a capacitor at or above its capacity).
pub open spec fn quantity(q: Quantity, n: EnergyNode) -> nat {
    match n.node_type {
        EnergyNodeType::Generator { production_per_tick } => {
            if q is Production {
                production_per_tick as nat
            } else {
                0
            }
        },
        EnergyNodeType::Consumer { demand_per_tick } => {
            if q is Demand {
                demand_per_tick as nat
            } else {
                0
            }
        },
        EnergyNodeType::Capacitor { capacity, stored } => {
            if q is Stored {
                stored as nat
            } else if q is Room && capacity > stored {
                (capacity - stored) as nat
            } else {
                0
            }
        },
        EnergyNodeType::Connector => 0,
    }
}

/// `x`, capped at `u64::MAX`: what saturating additions of naturals come to.
pub open spec fn sat(x: nat) -> u64 {
    if x > u64::MAX {
        u64::MAX
    } else {
        x as u64
    }
}

pub open spec fn min_nat(a: nat, b: nat) -> nat {
    if a <= b {
        a
    } else {
        b
    }
}

/// The sum of `q` over the nodes of a walk.
pub open spec fn walk_total(w: NodeWalk, q: Quantity) -> nat
    decreases w.len(),
{
    if w.len() == 0 {
        0
    } else {
        walk_total(w.drop_last(), q) + quantity(q, w.last().1)
    }
}

pub open spec fn total_step(m: Map<NodeKey, EnergyNode>, q: Quantity) -> spec_fn(nat, NodeKey) -> nat {
    |acc: nat, k: NodeKey| acc + quantity(q, m[k])
}

/// The sum of `q` over the nodes of a network.
pub open spec fn table_total(m: Map<NodeKey, EnergyNode>, q: Quantity) -> nat {
    m.dom().fold(0nat, total_step(m, q))
}

/// `w` visits every node of `m` exactly once.
pub open spec fn is_walk_of(w: NodeWalk, m: Map<NodeKey, EnergyNode>) -> bool {
    &&& forall|i: int, j: int| 0 <= i < j < w.len() ==> #[trigger] w[i].0 != #[trigger] w[j].0
    &&& forall|i: int| 0 <= i < w.len() ==> m.contains_key(#[trigger] w[i].0) && m[w[i].0] == w[i].1
    &&& forall|k: NodeKey| m.contains_key(k) ==> exists|i: int| 0 <= i < w.len() && #[trigger] w[i].0 == k
}

/// The keys a walk visits.
pub open spec fn walk_keys(w: NodeWalk) -> Set<NodeKey> {
    Set::new(|k: NodeKey| exists|i: int| 0 <= i < w.len() && #[trigger] w[i].0 == k)
}

proof fn lemma_walk_total_is_fold(w: NodeWalk, m: Map<NodeKey, EnergyNode>, q: Quantity)
    requires
        forall|i: int, j: int| 0 <= i < j < w.len() ==> #[trigger] w[i].0 != #[trigger] w[j].0,
        forall|i: int| 0 <= i < w.len() ==> m.contains_key(#[trigger] w[i].0) && m[w[i].0] == w[i].1,
    ensures
        walk_keys(w).finite(),
        walk_total(w, q) == walk_keys(w).fold(0nat, total_step(m, q)),
    decreases w.len(),
{
    broadcast use vstd::set::group_set_axioms;
    let f = total_step(m, q);
    assert(vstd::set::fold::is_fun_commutative(f));
    if w.len() == 0 {
        assert(walk_keys(w) =~= Set::empty());
        vstd::set::fold::lemma_fold_empty(0nat, f);
    } else {
        let p = w.drop_last();
        let k = w.last().0;
        assert forall|i: int, j: int| 0 <= i < j < p.len() implies #[trigger] p[i].0 != #[trigger] p[j].0 by {
            assert(p[i] == w[i] && p[j] == w[j]);
        }
        assert forall|i: int| 0 <= i < p.len() implies m.contains_key(#[trigger] p[i].0) && m[p[i].0] == p[i].1 by {
            assert(p[i] == w[i]);
        }
        lemma_walk_total_is_fold(p, m, q);
        assert(walk_keys(w) =~= walk_keys(p).insert(k)) by {
            assert forall|x: NodeKey| walk_keys(w).contains(x) implies walk_keys(p).insert(k).contains(x) by {
                let i = choose|i: int| 0 <= i < w.len() && #[trigger] w[i].0 == x;
                if i < w.len() - 1 {
                    assert(p[i] == w[i]);
                }
            }
            assert forall|x: NodeKey| walk_keys(p).insert(k).contains(x) implies walk_keys(w).contains(x) by {
                if x == k {
                    assert(w[w.len() - 1].0 == x);
                } else {
                    let i = choose|i: int| 0 <= i < p.len() && #[trigger] p[i].0 == x;
                    assert(w[i] == p[i]);
                }
            }
        }
        assert(!walk_keys(p).contains(k)) by {
            if walk_keys(p).contains(k) {
                let i = choose|i: int| 0 <= i < p.len() && #[trigger] p[i].0 == k;
                assert(w[i] == p[i]);
                assert(w[i].0 != w[w.len() - 1].0);
            }
        }
        vstd::set::fold::lemma_fold_insert(walk_keys(p), 0nat, f, k);
        assert(m[k] == w.last().1);
    }
}

/// Adding up over any visit order of a network gives the network's total.
pub proof fn lemma_walk_total_is_table_total(w: NodeWalk, m: Map<NodeKey, EnergyNode>, q: Quantity)
    requires
        is_walk_of(w, m),
    ensures
        m.dom().finite(),
        walk_total(w, q) == table_total(m, q),
{
    lemma_walk_total_is_fold(w, m, q);
    assert(walk_keys(w) =~= m.dom()) by {
        assert forall|x: NodeKey| walk_keys(w).contains(x) implies m.dom().contains(x) by {
            let i = choose|i: int| 0 <= i < w.len() && #[trigger] w[i].0 == x;
        }
    }
}


/// What charging node `n` with `left` units of surplus gives: the node afterwards and
/// the surplus left over. A capacitor takes as much as fits, no more than is left;
/// any other node takes nothing.
pub open spec fn charge_node(n: EnergyNode, left: nat) -> (EnergyNode, nat) {
    match n.node_type {
        EnergyNodeType::Capacitor { capacity, stored } => {
            let take = min_nat(quantity(Quantity::Room, n), left);
            (
                EnergyNode {
                    node_type: EnergyNodeType::Capacitor { capacity, stored: (stored + take) as u64 },
                    ..n
                },
                (left - take) as nat,
            )
        },
        _ => (n, left),
    }
}

/// What drawing `left` units from node `n` gives: the node afterwards and what is
/// still owed. A capacitor gives as much as it stores, no more than is owed.
pub open spec fn discharge_node(n: EnergyNode, left: nat) -> (EnergyNode, nat) {
    match n.node_type {
        EnergyNodeType::Capacitor { capacity, stored } => {
            let take = min_nat(stored as nat, left);
            (
                EnergyNode {
                    node_type: EnergyNodeType::Capacitor { capacity, stored: (stored - take) as u64 },
                    ..n
                },
                (left - take) as nat,
            )
        },
        _ => (n, left),
    }
}

/// Charging the nodes of `w` one after the other with `amount`: the nodes afterwards
/// and the surplus that fitted nowhere.
pub open spec fn charge_walk(w: NodeWalk, amount: nat) -> (NodeWalk, nat)
    decreases w.len(),
{
    if w.len() == 0 {
        (Seq::empty(), amount)
    } else {
        let (p, left) = charge_walk(w.drop_last(), amount);
        let (n, rest) = charge_node(w.last().1, left);
        (p.push((w.last().0, n)), rest)
    }
}

/// Drawing `amount` from the nodes of `w` one after the other: the nodes afterwards
/// and the part of `amount` that no node could give.
pub open spec fn discharge_walk(w: NodeWalk, amount: nat) -> (NodeWalk, nat)
    decreases w.len(),
{
    if w.len() == 0 {
        (Seq::empty(), amount)
    } else {
        let (p, left) = discharge_walk(w.drop_last(), amount);
        let (n, rest) = discharge_node(w.last().1, left);
        (p.push((w.last().0, n)), rest)
    }
}

/// The report of a tick, from the network's total production, demand, free room and
/// stored energy.
pub open spec fn report_from_totals(production: nat, demand: nat, room: nat, stored: nat) -> EnergyReport {
    let generated = sat(production);
    let demanded = sat(demand);
    if generated >= demanded {
        let surplus = (generated - demanded) as nat;
        let charged = min_nat(surplus, room);
        EnergyReport {
            generated,
            demanded,
            supplied: demanded,
            charged: charged as u64,
            discharged: 0,
            wasted: (surplus - charged) as u64,
            unmet: 0,
        }
    } else {
        let deficit = (demanded - generated) as nat;
        let discharged = min_nat(deficit, stored);
        EnergyReport {
            generated,
            demanded,
            supplied: (generated + discharged) as u64,
            charged: 0,
            discharged: discharged as u64,
            wasted: 0,
            unmet: (deficit - discharged) as u64,
        }
    }
}

/// The report of a tick over the nodes of a walk.
pub open spec fn walk_report(w: NodeWalk) -> EnergyReport {
    report_from_totals(
        walk_total(w, Quantity::Production),
        walk_total(w, Quantity::Demand),
        walk_total(w, Quantity::Room),
        walk_total(w, Quantity::Stored),
    )
}

/// The report of a tick over a network.
pub open spec fn tick_report(m: Map<NodeKey, EnergyNode>) -> EnergyReport {
    report_from_totals(
        table_total(m, Quantity::Production),
        table_total(m, Quantity::Demand),
        table_total(m, Quantity::Room),
        table_total(m, Quantity::Stored),
    )
}

/// The nodes of `w` after a tick that visits them in the order of `w`: the surplus
/// charges capacitors in that order, or the deficit is drawn from them in that order.
pub open spec fn tick_nodes(w: NodeWalk) -> NodeWalk {
    let r = walk_report(w);
    if r.generated >= r.demanded {
        charge_walk(w, (r.generated - r.demanded) as nat).0
    } else {
        discharge_walk(w, (r.demanded - r.generated) as nat).0
    }
}

/// Node `b` is node `a` after charging or discharging: same place and kind, and a
/// capacitor keeps its capacity.
pub open spec fn same_node_kind(a: EnergyNode, b: EnergyNode) -> bool {
    &&& a.x == b.x && a.y == b.y && a.z == b.z
    &&& match a.node_type {
        EnergyNodeType::Capacitor { capacity, stored } => b.node_type matches EnergyNodeType::Capacitor {
            capacity: c2,
            stored: s2,
        } && c2 == capacity,
        _ => b.node_type == a.node_type,
    }
}

/// `b` is `a` with its nodes recharged or drained: same keys in the same order.
pub open spec fn same_shape(a: NodeWalk, b: NodeWalk) -> bool {
    &&& a.len() == b.len()
    &&& forall|i: int| 0 <= i < a.len() ==> (#[trigger] a[i]).0 == b[i].0 && same_node_kind(a[i].1, b[i].1)
}


/// The stored energy of a node, or zero for a node that stores none.
pub open spec fn stored_of(n: EnergyNode) -> nat {
    quantity(Quantity::Stored, n)
}

/// Node `b` is node `a` after charging: a capacitor gains energy but ends no higher
/// than its capacity, or than it held before if it already sat above capacity; any
/// other node is unchanged.
pub open spec fn charged_within(a: EnergyNode, b: EnergyNode) -> bool {
    match a.node_type {
        EnergyNodeType::Capacitor { capacity, stored } => {
            &&& stored <= stored_of(b)
            &&& stored_of(b) <= capacity || stored_of(b) == stored
        },
        _ => b == a,
    }
}

/// Node `b` is node `a` after discharging: a capacitor loses energy; any other node
/// is unchanged.
pub open spec fn drained_within(a: EnergyNode, b: EnergyNode) -> bool {
    match a.node_type {
        EnergyNodeType::Capacitor { capacity, stored } => stored_of(b) <= stored,
        _ => b == a,
    }
}

proof fn lemma_charge_walk(w: NodeWalk, amount: nat)
    ensures
        ({
            let (w2, left) = charge_walk(w, amount);
            &&& same_shape(w, w2)
            &&& forall|i: int| 0 <= i < w.len() ==> charged_within(#[trigger] w[i].1, w2[i].1)
            &&& left <= amount
            &&& amount - left == min_nat(amount, walk_total(w, Quantity::Room))
            &&& walk_total(w2, Quantity::Stored) == walk_total(w, Quantity::Stored) + (amount - left)
            &&& walk_total(w2, Quantity::Production) == walk_total(w, Quantity::Production)
            &&& walk_total(w2, Quantity::Demand) == walk_total(w, Quantity::Demand)
        }),
    decreases w.len(),
{
    if w.len() > 0 {
        let p = w.drop_last();
        lemma_charge_walk(p, amount);
        let (pw, l) = charge_walk(p, amount);
        let (n, rest) = charge_node(w.last().1, l);
        let w2 = pw.push((w.last().0, n));
        assert(w2.drop_last() =~= pw);
        assert forall|i: int| 0 <= i < w.len() implies (#[trigger] w[i]).0 == w2[i].0 && same_node_kind(w[i].1, w2[i].1) by {
            if i < w.len() - 1 {
                assert(w[i] == p[i]);
            }
        }
        assert forall|i: int| 0 <= i < w.len() implies #[trigger] charged_within(w[i].1, w2[i].1) by {
            if i < w.len() - 1 {
                assert(w[i] == p[i]);
            }
        }
    }
}

proof fn lemma_discharge_walk(w: NodeWalk, amount: nat)
    ensures
        ({
            let (w2, left) = discharge_walk(w, amount);
            &&& same_shape(w, w2)
            &&& forall|i: int| 0 <= i < w.len() ==> drained_within(#[trigger] w[i].1, w2[i].1)
            &&& left <= amount
            &&& amount - left == min_nat(amount, walk_total(w, Quantity::Stored))
            &&& walk_total(w2, Quantity::Stored) + (amount - left) == walk_total(w, Quantity::Stored)
            &&& walk_total(w2, Quantity::Production) == walk_total(w, Quantity::Production)
            &&& walk_total(w2, Quantity::Demand) == walk_total(w, Quantity::Demand)
        }),
    decreases w.len(),
{
    if w.len() > 0 {
        let p = w.drop_last();
        lemma_discharge_walk(p, amount);
        let (pw, l) = discharge_walk(p, amount);
        let (n, rest) = discharge_node(w.last().1, l);
        let w2 = pw.push((w.last().0, n));
        assert(w2.drop_last() =~= pw);
        assert forall|i: int| 0 <= i < w.len() implies (#[trigger] w[i]).0 == w2[i].0 && same_node_kind(w[i].1, w2[i].1) by {
            if i < w.len() - 1 {
                assert(w[i] == p[i]);
            }
        }
        assert forall|i: int| 0 <= i < w.len() implies #[trigger] drained_within(w[i].1, w2[i].1) by {
            if i < w.len() - 1 {
                assert(w[i] == p[i]);
            }
        }
    }
}


proof fn lemma_charge_exhausted(w: NodeWalk, amount: nat, i: int, j: int)
    requires
        0 <= i <= j <= w.len(),
        charge_walk(w.take(i), amount).1 == 0,
    ensures
        charge_walk(w.take(j), amount) == (charge_walk(w.take(i), amount).0 + w.subrange(i, j), 0nat),
    decreases j,
{
    if j == i {
        assert(charge_walk(w.take(i), amount).0 + w.subrange(i, j) =~= charge_walk(w.take(i), amount).0);
    } else {
        lemma_charge_exhausted(w, amount, i, j - 1);
        assert(w.take(j).drop_last() =~= w.take(j - 1));
        let n = w[j - 1].1;
        let (m, l) = charge_node(n, 0);
        assert(m == n);
        assert((charge_walk(w.take(i), amount).0 + w.subrange(i, j - 1)).push((w[j - 1].0, m))
            =~= charge_walk(w.take(i), amount).0 + w.subrange(i, j));
    }
}

proof fn lemma_discharge_exhausted(w: NodeWalk, amount: nat, i: int, j: int)
    requires
        0 <= i <= j <= w.len(),
        discharge_walk(w.take(i), amount).1 == 0,
    ensures
        discharge_walk(w.take(j), amount) == (discharge_walk(w.take(i), amount).0 + w.subrange(i, j), 0nat),
    decreases j,
{
    if j == i {
        assert(discharge_walk(w.take(i), amount).0 + w.subrange(i, j) =~= discharge_walk(w.take(i), amount).0);
    } else {
        lemma_discharge_exhausted(w, amount, i, j - 1);
        assert(w.take(j).drop_last() =~= w.take(j - 1));
        let n = w[j - 1].1;
        let (m, l) = discharge_node(n, 0);
        assert(m == n);
        assert((discharge_walk(w.take(i), amount).0 + w.subrange(i, j - 1)).push((w[j - 1].0, m))
            =~= discharge_walk(w.take(i), amount).0 + w.subrange(i, j));
    }
}

/// Spreads `amount` over the capacitors of `walk` with room, in order. Returns what
/// actually went in.
fn charge(walk: &mut Vec<(NodeKey, EnergyNode)>, amount: u64) -> (charged: u64)
    ensures
        charged <= amount,
        charge_walk(old(walk)@, amount as nat) == (final(walk)@, (amount - charged) as nat),
{
    let ghost w0 = walk@;
    let mut left = amount;
    let n = walk.len();
    let mut i: usize = 0;
    while i < n && left > 0
        invariant
            n == walk.len(),
            w0.len() == n,
            i <= n,
            left <= amount,
            charge_walk(w0.take(i as int), amount as nat) == (walk@.take(i as int), left as nat),
            forall|j: int| i <= j < n ==> walk@[j] == w0[j],
        decreases n - i,
    {
        let (key, node) = walk[i];
        let ghost before = walk@;
        if let EnergyNodeType::Capacitor { capacity, stored } = node.node_type {
            // A capacitor can sit above its capacity if the capacity was lowered while
            // it was full; saturating keeps the subtraction from handing it energy.
            let room = capacity.saturating_sub(stored);
            let take = if room < left {
                room
            } else {
                left
            };
            walk.set(
                i,
                (key, EnergyNode { node_type: EnergyNodeType::Capacitor { capacity, stored: stored + take }, ..node }),
            );
            left = left - take;
        }
        proof {
            assert(w0.take(i + 1).drop_last() =~= w0.take(i as int));
            assert(walk@.take(i + 1) =~= before.take(i as int).push(walk@[i as int]));
        }
        i += 1;
    }
    proof {
        if i < n {
            lemma_charge_exhausted(w0, amount as nat, i as int, n as int);
            assert(walk@ =~= walk@.take(i as int) + w0.subrange(i as int, n as int));
        }
        assert(w0.take(n as int) =~= w0);
        assert(walk@.take(n as int) =~= walk@);
    }
    amount - left
}

/// Draws up to `amount` from the capacitors of `walk`, in order. Returns what actually
/// came out.
fn discharge(walk: &mut Vec<(NodeKey, EnergyNode)>, amount: u64) -> (discharged: u64)
    ensures
        discharged <= amount,
        discharge_walk(old(walk)@, amount as nat) == (final(walk)@, (amount - discharged) as nat),
{
    let ghost w0 = walk@;
    let mut left = amount;
    let n = walk.len();
    let mut i: usize = 0;
    while i < n && left > 0
        invariant
            n == walk.len(),
            w0.len() == n,
            i <= n,
            left <= amount,
            discharge_walk(w0.take(i as int), amount as nat) == (walk@.take(i as int), left as nat),
            forall|j: int| i <= j < n ==> walk@[j] == w0[j],
        decreases n - i,
    {
        let (key, node) = walk[i];
        let ghost before = walk@;
        if let EnergyNodeType::Capacitor { capacity, stored } = node.node_type {
            let take = if stored < left {
                stored
            } else {
                left
            };
            walk.set(
                i,
                (key, EnergyNode { node_type: EnergyNodeType::Capacitor { capacity, stored: stored - take }, ..node }),
            );
            left = left - take;
        }
        proof {
            assert(w0.take(i + 1).drop_last() =~= w0.take(i as int));
            assert(walk@.take(i + 1) =~= before.take(i as int).push(walk@[i as int]));
        }
        i += 1;
    }
    proof {
        if i < n {
            lemma_discharge_exhausted(w0, amount as nat, i as int, n as int);
            assert(walk@ =~= walk@.take(i as int) + w0.subrange(i as int, n as int));
        }
        assert(w0.take(n as int) =~= w0);
        assert(walk@.take(n as int) =~= walk@);
    }
    amount - left
}

/// Solves one tick over the nodes of `walk`, visited in its order: adds up generation
/// and demand, then charges capacitors with the surplus or covers the deficit from
/// them. The nodes are updated in place.
pub fn solve_walk(walk: &mut Vec<(NodeKey, EnergyNode)>) -> (report: EnergyReport)
    ensures
        report == walk_report(old(walk)@),
        final(walk)@ == tick_nodes(old(walk)@),
{
    let ghost w0 = walk@;
    let mut report = EnergyReport::default();
    let n = walk.len();
    let mut i: usize = 0;
    while i < n
        invariant
            n == walk.len(),
            walk@ == w0,
            i <= n,
            report.generated == sat(walk_total(w0.take(i as int), Quantity::Production)),
            report.demanded == sat(walk_total(w0.take(i as int), Quantity::Demand)),
            report == (EnergyReport { generated: report.generated, demanded: report.demanded, ..empty_report() }),
        decreases n - i,
    {
        proof {
            assert(w0.take(i + 1).drop_last() =~= w0.take(i as int));
        }
        match walk[i].1.node_type {
            EnergyNodeType::Generator { production_per_tick } => {
                report.generated = report.generated.saturating_add(production_per_tick);
            },
            EnergyNodeType::Consumer { demand_per_tick } => {
                report.demanded = report.demanded.saturating_add(demand_per_tick);
            },
            _ => {},
        }
        i += 1;
    }
    proof {
        assert(w0.take(n as int) =~= w0);
        lemma_charge_walk(w0, (report.generated - report.demanded) as nat);
        lemma_discharge_walk(w0, (report.demanded - report.generated) as nat);
    }
    if report.generated >= report.demanded {
        report.supplied = report.demanded;
        let surplus = report.generated - report.demanded;
        report.charged = charge(walk, surplus);
        report.wasted = surplus - report.charged;
    } else {
        let deficit = report.demanded - report.generated;
        report.discharged = discharge(walk, deficit);
        report.supplied = report.generated.saturating_add(report.discharged);
        report.unmet = deficit - report.discharged;
    }
    report
}


/// The network's nodes, by coordinates: what the node map of a solver holds.
pub uninterp spec fn node_table(m: DashMap<NodeKey, EnergyNode>) -> Map<NodeKey, EnergyNode>;

/// `DashMap::new`: an empty map.
#[verifier::external_body]
fn table_new() -> (res: DashMap<NodeKey, EnergyNode>)
    ensures
        (node_table(res) == Map::<NodeKey, EnergyNode>::empty()),
{
    DashMap::new()
}

/// `DashMap::insert`: the key now maps to the value; other keys are untouched.
#[verifier::external_body]
fn table_insert(m: &mut DashMap<NodeKey, EnergyNode>, key: NodeKey, node: EnergyNode)
    ensures
        node_table(*final(m)) == node_table(*old(m)).insert(key, node),
{
    m.insert(key, node);
}

/// `DashMap::remove`: the key is gone, and its node, if it had one, comes back.
#[verifier::external_body]
fn table_remove(m: &mut DashMap<NodeKey, EnergyNode>, key: NodeKey) -> (res: Option<EnergyNode>)
    ensures
        node_table(*final(m)) == node_table(*old(m)).remove(key),
        res == node_table(*old(m)).get(key),
{
    m.remove(&key).map(|(_, n)| n)
}

/// `DashMap::len`: the number of entries.
#[verifier::external_body]
fn table_len(m: &DashMap<NodeKey, EnergyNode>) -> (res: usize)
    ensures
        res as nat == node_table(*m).len(),
{
    m.len()
}

/// `DashMap::iter`, collected: every entry exactly once, in the map's own order,
/// which this contract leaves open.
#[verifier::external_body]
fn table_walk(m: &DashMap<NodeKey, EnergyNode>) -> (res: Vec<(NodeKey, EnergyNode)>)
    ensures
        is_walk_of(res@, node_table(*m)),
{
    m.iter().map(|r| (*r.key(), *r.value())).collect()
}

/// Solver for an energy network, keyed by the coordinates of its nodes.
pub struct EnergyNetGraphSolver {
    nodes: DashMap<NodeKey, EnergyNode>,
}

impl View for EnergyNetGraphSolver {
    type V = Map<NodeKey, EnergyNode>;

    closed spec fn view(&self) -> Map<NodeKey, EnergyNode> {
        node_table(self.nodes)
    }
}

impl Default for EnergyNetGraphSolver {
    fn default() -> (s: Self)
        ensures
            (s@ == Map::<NodeKey, EnergyNode>::empty()),
    {
        Self::new()
    }
}

impl EnergyNetGraphSolver {
    pub fn new() -> (s: Self)
        ensures
            (s@ == Map::<NodeKey, EnergyNode>::empty()),
    {
        Self { nodes: table_new() }
    }

    /// Places a node at `(x, y, z)`, replacing whatever was there.
    pub fn register_node(&mut self, x: i32, y: i32, z: i32, node_type: EnergyNodeType)
        ensures
            final(self)@ == old(self)@.insert((x, y, z), EnergyNode { x, y, z, node_type }),
    {
        let node = EnergyNode { x, y, z, node_type };
        table_insert(&mut self.nodes, (x, y, z), node);
    }

    /// Takes the node at `(x, y, z)` out of the network and returns it.
    pub fn remove_node(&mut self, x: i32, y: i32, z: i32) -> (res: Option<EnergyNode>)
        ensures
            final(self)@ == old(self)@.remove((x, y, z)),
            res == old(self)@.get((x, y, z)),
    {
        table_remove(&mut self.nodes, (x, y, z))
    }

    /// Energy held right now by all capacitors together, saturating at `u64::MAX`.
    pub fn stored_energy(&self) -> (total: u64)
        ensures
            total == sat(table_total(self@, Quantity::Stored)),
    {
        let walk = table_walk(&self.nodes);
        let mut total: u64 = 0;
        let n = walk.len();
        let mut i: usize = 0;
        while i < n
            invariant
                n == walk.len(),
                i <= n,
                total == sat(walk_total(walk@.take(i as int), Quantity::Stored)),
            decreases n - i,
        {
            proof {
                assert(walk@.take(i + 1).drop_last() =~= walk@.take(i as int));
            }
            if let EnergyNodeType::Capacitor { stored, .. } = walk[i].1.node_type {
                total = total.saturating_add(stored);
            }
            i += 1;
        }
        proof {
            assert(walk@.take(n as int) =~= walk@);
            lemma_walk_total_is_table_total(walk@, self@, Quantity::Stored);
        }
        total
    }

    /// Solves a whole tick: generates, supplies, charges and discharges.
    ///
    /// The totals of the report depend on the network alone. Which capacitors take
    /// or give the energy follows the order in which the map walks its nodes; that
    /// order is left open here, and the nodes end up as a tick in some visit order
    /// leaves them.
    pub fn solve_tick(&mut self) -> (report: EnergyReport)
        ensures
            report == tick_report(old(self)@),
            exists|w: NodeWalk| is_walk_of(w, old(self)@) && #[trigger] is_walk_of(tick_nodes(w), final(self)@),
    {
        let ghost before = self@;
        let mut walk = table_walk(&self.nodes);
        let ghost w0 = walk@;
        let report = solve_walk(&mut walk);
        proof {
            lemma_walk_report_is_tick_report(w0, before);
            lemma_tick_nodes_shape(w0);
        }
        let n = walk.len();
        let mut i: usize = 0;
        while i < n
            invariant
                n == walk.len(),
                i <= n,
                is_walk_of(w0, before),
                same_shape(w0, walk@),
                self@.dom() == before.dom(),
                forall|j: int| 0 <= j < i ==> self@.contains_key(#[trigger] walk@[j].0) && self@[walk@[j].0] == walk@[j].1,
            decreases n - i,
        {
            let (key, node) = walk[i];
            proof {
                assert(w0[i as int].0 == key);
            }
            table_insert(&mut self.nodes, key, node);
            proof {
                assert(self@.dom() =~= before.dom());
                assert forall|j: int| 0 <= j < i + 1 implies self@.contains_key(#[trigger] walk@[j].0) && self@[walk@[j].0] == walk@[j].1 by {
                    if j < i {
                        assert(w0[j].0 != w0[i as int].0);
                    }
                }
            }
            i += 1;
        }
        proof {
            assert forall|a: int, b: int| 0 <= a < b < walk@.len() implies #[trigger] walk@[a].0 != #[trigger] walk@[b].0 by {
                assert(w0[a].0 != w0[b].0);
            }
            assert forall|k: NodeKey| self@.contains_key(k) implies exists|j: int| 0 <= j < walk@.len() && #[trigger] walk@[j].0 == k by {
                let j = choose|j: int| 0 <= j < w0.len() && #[trigger] w0[j].0 == k;
                assert(walk@[j].0 == k);
            }
            assert forall|j: int| 0 <= j < walk@.len() implies self@.contains_key(#[trigger] walk@[j].0) && self@[walk@[j].0] == walk@[j].1 by {
                assert(w0[j].0 == walk@[j].0);
            }
            assert(is_walk_of(tick_nodes(w0), self@));
        }
        report
    }

    pub fn count_nodes(&self) -> (n: usize)
        ensures
            n as nat == self@.len(),
    {
        table_len(&self.nodes)
    }
}

/// Over any visit order of a network, the report is the network's report.
pub proof fn lemma_walk_report_is_tick_report(w: NodeWalk, m: Map<NodeKey, EnergyNode>)
    requires
        is_walk_of(w, m),
    ensures
        walk_report(w) == tick_report(m),
{
    lemma_walk_total_is_table_total(w, m, Quantity::Production);
    lemma_walk_total_is_table_total(w, m, Quantity::Demand);
    lemma_walk_total_is_table_total(w, m, Quantity::Room);
    lemma_walk_total_is_table_total(w, m, Quantity::Stored);
}

/// A tick keeps every node in its place and of its kind.
pub proof fn lemma_tick_nodes_shape(w: NodeWalk)
    ensures
        same_shape(w, tick_nodes(w)),
{
    let r = walk_report(w);
    lemma_charge_walk(w, (r.generated - r.demanded) as nat);
    lemma_discharge_walk(w, (r.demanded - r.generated) as nat);
}


proof fn lemma_fold_congruent(s: Set<NodeKey>, f: spec_fn(nat, NodeKey) -> nat, g: spec_fn(nat, NodeKey) -> nat)
    requires
        s.finite(),
        vstd::set::fold::is_fun_commutative(f),
        vstd::set::fold::is_fun_commutative(g),
        forall|b: nat, a: NodeKey| s.contains(a) ==> #[trigger] f(b, a) == g(b, a),
    ensures
        s.fold(0nat, f) == s.fold(0nat, g),
    decreases s.len(),
{
    broadcast use vstd::set::group_set_axioms;
    if s.len() == 0 {
        assert(s =~= Set::empty());
        vstd::set::fold::lemma_fold_empty(0nat, f);
        vstd::set::fold::lemma_fold_empty(0nat, g);
    } else {
        let a = s.choose();
        let r = s.remove(a);
        lemma_fold_congruent(r, f, g);
        assert(r.insert(a) =~= s);
        vstd::set::fold::lemma_fold_insert(r, 0nat, f, a);
        vstd::set::fold::lemma_fold_insert(r, 0nat, g, a);
        assert(f(r.fold(0nat, f), a) == g(r.fold(0nat, g), a));
    }
}

/// A network with no nodes adds up to nothing.
pub proof fn lemma_table_total_empty(q: Quantity)
    ensures
        table_total(Map::<NodeKey, EnergyNode>::empty(), q) == 0,
{
    let m = Map::<NodeKey, EnergyNode>::empty();
    assert(m.dom() =~= Set::empty());
    vstd::set::fold::lemma_fold_empty(0nat, total_step(m, q));
}

/// Adding a node at a free place adds its amount to the network's total.
pub proof fn lemma_table_total_insert(m: Map<NodeKey, EnergyNode>, k: NodeKey, n: EnergyNode, q: Quantity)
    requires
        m.dom().finite(),
        !m.contains_key(k),
    ensures
        table_total(m.insert(k, n), q) == table_total(m, q) + quantity(q, n),
{
    broadcast use vstd::set::group_set_axioms;
    let m2 = m.insert(k, n);
    let f = total_step(m2, q);
    let g = total_step(m, q);
    assert(vstd::set::fold::is_fun_commutative(f));
    assert(vstd::set::fold::is_fun_commutative(g));
    assert(m2.dom() =~= m.dom().insert(k));
    vstd::set::fold::lemma_fold_insert(m.dom(), 0nat, f, k);
    assert forall|b: nat, a: NodeKey| m.dom().contains(a) implies #[trigger] f(b, a) == g(b, a) by {
        assert(m2[a] == m[a]);
    }
    lemma_fold_congruent(m.dom(), f, g);
}


/// Every unit of demand is either supplied or reported unmet; on a surplus the
/// generation is used, stored or reported wasted and the reserves stay untouched; on
/// a deficit nothing is charged or wasted and the reserves make up what they can.
/// The network is starved exactly when generation and reserves together fall short.
pub proof fn lemma_tick_accounts_for_all_energy(m: Map<NodeKey, EnergyNode>)
    ensures
        tick_report(m).supplied + tick_report(m).unmet == tick_report(m).demanded,
        tick_report(m).generated >= tick_report(m).demanded ==> {
            &&& tick_report(m).supplied + tick_report(m).charged + tick_report(m).wasted == tick_report(m).generated
            &&& tick_report(m).discharged == 0
            &&& tick_report(m).unmet == 0
        },
        tick_report(m).generated < tick_report(m).demanded ==> {
            &&& tick_report(m).supplied == tick_report(m).generated + tick_report(m).discharged
            &&& tick_report(m).charged == 0
            &&& tick_report(m).wasted == 0
        },
        tick_report(m).charged <= table_total(m, Quantity::Room),
        tick_report(m).discharged <= table_total(m, Quantity::Stored),
        tick_report(m).unmet > 0 <==> tick_report(m).demanded > tick_report(m).generated + table_total(m, Quantity::Stored),
{
}

/// Over any two visit orders of a network a tick reports the same.
pub proof fn lemma_report_ignores_visit_order(m: Map<NodeKey, EnergyNode>, w1: NodeWalk, w2: NodeWalk)
    requires
        is_walk_of(w1, m),
        is_walk_of(w2, m),
    ensures
        walk_report(w1) == walk_report(w2),
{
    lemma_walk_report_is_tick_report(w1, m);
    lemma_walk_report_is_tick_report(w2, m);
}

/// A tick moves energy into or out of the capacitors and nowhere else: the stored
/// total grows by what was charged and shrinks by what was discharged, every node
/// keeps its place and kind, charged capacitors do not pass their capacity (one that
/// already sits above it gains nothing), and drained ones only lose energy.
pub proof fn lemma_tick_moves_stored_energy(before: Map<NodeKey, EnergyNode>, w: NodeWalk, after: Map<NodeKey, EnergyNode>)
    requires
        is_walk_of(w, before),
        is_walk_of(tick_nodes(w), after),
    ensures
        table_total(after, Quantity::Stored) + tick_report(before).discharged
            == table_total(before, Quantity::Stored) + tick_report(before).charged,
        after.dom() == before.dom(),
        forall|k: NodeKey| #[trigger] before.contains_key(k) ==> {
            &&& same_node_kind(before[k], after[k])
            &&& tick_report(before).generated >= tick_report(before).demanded ==> charged_within(before[k], after[k])
            &&& tick_report(before).generated < tick_report(before).demanded ==> drained_within(before[k], after[k])
        },
{
    let r = walk_report(w);
    lemma_walk_report_is_tick_report(w, before);
    lemma_walk_total_is_table_total(w, before, Quantity::Stored);
    lemma_walk_total_is_table_total(tick_nodes(w), after, Quantity::Stored);
    lemma_charge_walk(w, (r.generated - r.demanded) as nat);
    lemma_discharge_walk(w, (r.demanded - r.generated) as nat);
    let w2 = tick_nodes(w);
    assert forall|k: NodeKey| #[trigger] before.contains_key(k) implies {
        &&& same_node_kind(before[k], after[k])
        &&& r.generated >= r.demanded ==> charged_within(before[k], after[k])
        &&& r.generated < r.demanded ==> drained_within(before[k], after[k])
    } by {
        let i = choose|i: int| 0 <= i < w.len() && #[trigger] w[i].0 == k;
        assert(w2[i].0 == k);
    }
    assert(after.dom() =~= before.dom()) by {
        assert forall|k: NodeKey| after.contains_key(k) implies before.contains_key(k) by {
            let i = choose|i: int| 0 <= i < w2.len() && #[trigger] w2[i].0 == k;
            assert(w[i].0 == k);
        }
    }
}

proof fn lemma_charge_prefix(w: NodeWalk, amount: nat, i: int)
    requires
        0 <= i <= w.len(),
    ensures
        charge_walk(w, amount).0.len() == w.len(),
        charge_walk(w, amount).0.take(i) == charge_walk(w.take(i), amount).0,
        i < w.len() ==> charge_walk(w, amount).0[i] == (w[i].0, charge_node(w[i].1, charge_walk(w.take(i), amount).1).0),
    decreases w.len(),
{
    lemma_charge_walk(w, amount);
    if i == w.len() {
        assert(w.take(i) =~= w);
        assert(charge_walk(w, amount).0.take(i) =~= charge_walk(w, amount).0);
    } else {
        let p = w.drop_last();
        lemma_charge_prefix(p, amount, i);
        assert(p.take(i) =~= w.take(i));
        lemma_charge_walk(p, amount);
        assert(charge_walk(w, amount).0.take(i) =~= charge_walk(p, amount).0.take(i));
        if i < w.len() - 1 {
            assert(w[i] == p[i]);
        } else {
            assert(w.take(i) =~= p);
        }
    }
}

proof fn lemma_surplus_left_means_full(w: NodeWalk, amount: nat)
    requires
        charge_walk(w, amount).1 > 0,
    ensures
        forall|i: int| 0 <= i < w.len() ==> is_full(#[trigger] charge_walk(w, amount).0[i].1),
    decreases w.len(),
{
    lemma_charge_walk(w, amount);
    if w.len() > 0 {
        let p = w.drop_last();
        lemma_charge_walk(p, amount);
        lemma_surplus_left_means_full(p, amount);
        let w2 = charge_walk(w, amount).0;
        assert forall|i: int| 0 <= i < w.len() implies is_full(#[trigger] w2[i].1) by {
            if i < w.len() - 1 {
                assert(w2[i] == charge_walk(p, amount).0[i]);
            }
        }
    }
}

/// A capacitor at or above its capacity; other kinds of node count as full.
pub open spec fn is_full(n: EnergyNode) -> bool {
    n.node_type matches EnergyNodeType::Capacitor { capacity, stored } ==> stored >= capacity
}

/// Charging fills one capacitor before it moves on to the next: when a node gains
/// energy, every node visited before it ends the charge full.
pub proof fn lemma_capacitors_fill_in_visit_order(w: NodeWalk, amount: nat, i: int, j: int)
    requires
        0 <= j < i < w.len(),
        stored_of(charge_walk(w, amount).0[i].1) > stored_of(w[i].1),
    ensures
        is_full(charge_walk(w, amount).0[j].1),
{
    lemma_charge_prefix(w, amount, i);
    lemma_charge_walk(w.take(i), amount);
    let left = charge_walk(w.take(i), amount).1;
    assert(left > 0);
    lemma_surplus_left_means_full(w.take(i), amount);
    assert(charge_walk(w, amount).0[j] == charge_walk(w, amount).0.take(i)[j]);
}


proof fn lemma_discharge_prefix(w: NodeWalk, amount: nat, i: int)
    requires
        0 <= i <= w.len(),
    ensures
        discharge_walk(w, amount).0.len() == w.len(),
        discharge_walk(w, amount).0.take(i) == discharge_walk(w.take(i), amount).0,
        i < w.len() ==> discharge_walk(w, amount).0[i] == (w[i].0, discharge_node(w[i].1, discharge_walk(w.take(i), amount).1).0),
    decreases w.len(),
{
    lemma_discharge_walk(w, amount);
    if i == w.len() {
        assert(w.take(i) =~= w);
        assert(discharge_walk(w, amount).0.take(i) =~= discharge_walk(w, amount).0);
    } else {
        let p = w.drop_last();
        lemma_discharge_prefix(p, amount, i);
        assert(p.take(i) =~= w.take(i));
        lemma_discharge_walk(p, amount);
        assert(discharge_walk(w, amount).0.take(i) =~= discharge_walk(p, amount).0.take(i));
        if i < w.len() - 1 {
            assert(w[i] == p[i]);
        } else {
            assert(w.take(i) =~= p);
        }
    }
}

/// A node that holds no energy: an empty capacitor, or a node of another kind.
pub open spec fn is_empty_node(n: EnergyNode) -> bool {
    stored_of(n) == 0
}

proof fn lemma_deficit_left_means_empty(w: NodeWalk, amount: nat)
    requires
        discharge_walk(w, amount).1 > 0,
    ensures
        forall|i: int| 0 <= i < w.len() ==> is_empty_node(#[trigger] discharge_walk(w, amount).0[i].1),
    decreases w.len(),
{
    lemma_discharge_walk(w, amount);
    if w.len() > 0 {
        let p = w.drop_last();
        lemma_discharge_walk(p, amount);
        lemma_deficit_left_means_empty(p, amount);
        let w2 = discharge_walk(w, amount).0;
        assert forall|i: int| 0 <= i < w.len() implies is_empty_node(#[trigger] w2[i].1) by {
            if i < w.len() - 1 {
                assert(w2[i] == discharge_walk(p, amount).0[i]);
            }
        }
    }
}

/// Covering a deficit empties one capacitor before it draws on the next: when a node
/// gives energy, every node visited before it ends the tick empty.
pub proof fn lemma_capacitors_drain_in_visit_order(w: NodeWalk, amount: nat, i: int, j: int)
    requires
        0 <= j < i < w.len(),
        stored_of(discharge_walk(w, amount).0[i].1) < stored_of(w[i].1),
    ensures
        is_empty_node(discharge_walk(w, amount).0[j].1),
{
    lemma_discharge_prefix(w, amount, i);
    lemma_discharge_walk(w.take(i), amount);
    let left = discharge_walk(w.take(i), amount).1;
    assert(left > 0);
    lemma_deficit_left_means_empty(w.take(i), amount);
    assert(discharge_walk(w, amount).0[j] == discharge_walk(w, amount).0.take(i)[j]);
}


/// A tick that wastes energy leaves every capacitor full, and one that leaves demand
/// unmet leaves every capacitor empty: energy is lost or missing only once the
/// reserves can take or give no more.
pub proof fn lemma_waste_and_shortage_exhaust_capacitors(
    before: Map<NodeKey, EnergyNode>,
    w: NodeWalk,
    after: Map<NodeKey, EnergyNode>,
)
    requires
        is_walk_of(w, before),
        is_walk_of(tick_nodes(w), after),
    ensures
        tick_report(before).wasted > 0 ==> forall|k: NodeKey| #[trigger] after.contains_key(k) ==> is_full(after[k]),
        tick_report(before).unmet > 0 ==> forall|k: NodeKey| #[trigger] after.contains_key(k) ==> is_empty_node(after[k]),
{
    let r = walk_report(w);
    lemma_walk_report_is_tick_report(w, before);
    let surplus = (r.generated - r.demanded) as nat;
    let deficit = (r.demanded - r.generated) as nat;
    lemma_charge_walk(w, surplus);
    lemma_discharge_walk(w, deficit);
    let w2 = tick_nodes(w);
    if r.wasted > 0 {
        lemma_surplus_left_means_full(w, surplus);
        assert forall|k: NodeKey| #[trigger] after.contains_key(k) implies is_full(after[k]) by {
            let i = choose|i: int| 0 <= i < w2.len() && #[trigger] w2[i].0 == k;
            assert(is_full(charge_walk(w, surplus).0[i].1));
        }
    }
    if r.unmet > 0 {
        lemma_deficit_left_means_empty(w, deficit);
        assert forall|k: NodeKey| #[trigger] after.contains_key(k) implies is_empty_node(after[k]) by {
            let i = choose|i: int| 0 <= i < w2.len() && #[trigger] w2[i].0 == k;
            assert(is_empty_node(discharge_walk(w, deficit).0[i].1));
        }
    }
}

} // verus!
