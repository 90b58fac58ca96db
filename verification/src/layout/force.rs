//! Which forces act in a step, and in which order they are summed.
//!
//! The order matters to whoever evaluates the plan in floating point, where
//! a sum depends on the order of its terms.

use crate::graph::{
    lemma_out_degrees_add_up, links_in_range, out_degree, successors, total_out_degree, GraphView,
    LinkView, VowlGraph,
};
use vstd::prelude::*;

verus! {

/// One force of a step, between nodes named by handle.
#[derive(Debug, Clone, Copy, PartialEq, Eq, Structural)]
pub enum ForceTerm {
    /// The repulsion between two nodes: pushes on `a`, and with the opposite
    /// sign on `b`.
    Repulsion { a: usize, b: usize },
    /// The pull of an edge on its source `from` towards its target `to`.
    Attraction { from: usize, to: usize },
    /// The pull on a node towards the centre.
    Center { node: usize },
}

/// The repulsions between `a` and each later node, nearest handle first.
pub open spec fn repulsion_row(a: nat, node_count: nat) -> Seq<ForceTerm> {
    Seq::new(
        (node_count - a - 1) as nat,
        |d: int| ForceTerm::Repulsion { a: a as usize, b: (a + 1 + d) as usize },
    )
}

/// The repulsion rows of the first `rows` nodes, one after the other.
pub open spec fn repulsion_terms(rows: nat, node_count: nat) -> Seq<ForceTerm>
    decreases rows,
{
    if rows == 0 {
        Seq::empty()
    } else {
        repulsion_terms((rows - 1) as nat, node_count) + repulsion_row(
            (rows - 1) as nat,
            node_count,
        )
    }
}

/// The attractions on `from`: one for each edge that leaves it, the most
/// recently added edge first.
pub open spec fn attraction_row(links: Seq<LinkView>, from: nat) -> Seq<ForceTerm> {
    successors(links, from as int).map_values(
        |to: int| ForceTerm::Attraction { from: from as usize, to: to as usize },
    )
}

/// The attraction rows of the first `rows` nodes, one after the other.
pub open spec fn attraction_terms(links: Seq<LinkView>, rows: nat) -> Seq<ForceTerm>
    decreases rows,
{
    if rows == 0 {
        Seq::empty()
    } else {
        attraction_terms(links, (rows - 1) as nat) + attraction_row(links, (rows - 1) as nat)
    }
}

/// The pull towards the centre on each of the first `rows` nodes.
pub open spec fn center_terms(rows: nat) -> Seq<ForceTerm> {
    Seq::new(rows, |i: int| ForceTerm::Center { node: i as usize })
}

/// The forces of a step on a graph: the repulsion of every pair of nodes,
/// each pair once and the lower handle first; then the attraction along every
/// edge, on its source only; then the pull towards the centre on every node.
pub open spec fn force_terms(graph: GraphView) -> Seq<ForceTerm> {
    repulsion_terms(graph.nodes.len(), graph.nodes.len()) + attraction_terms(
        graph.links,
        graph.nodes.len(),
    ) + center_terms(graph.nodes.len())
}

/// The forces of a step on a graph, in the order in which they are summed.
/// The plan depends on the nodes' number and on the edges alone, so it stays
/// good while only positions change.
pub fn force_plan(graph: &VowlGraph) -> (plan: Vec<ForceTerm>)
    requires
        graph.wf(),
    ensures
        plan@ == force_terms(graph@),
{
    let node_count: usize = graph.node_count();
    let mut plan: Vec<ForceTerm> = Vec::new();
    let mut a: usize = 0;
    while a < node_count
        invariant
            a <= node_count,
            plan@ == repulsion_terms(a as nat, node_count as nat),
        decreases node_count - a,
    {
        let ghost done = plan@;
        let mut b: usize = a + 1;
        while b < node_count
            invariant
                a < node_count,
                a < b <= node_count,
                plan@ == done + repulsion_row(a as nat, node_count as nat).take(b - a - 1),
            decreases node_count - b,
        {
            let ghost row = repulsion_row(a as nat, node_count as nat);
            plan.push(ForceTerm::Repulsion { a, b });
            proof {
                assert(row.take(b - a) =~= row.take(b - a - 1).push(row[b - a - 1]));
                assert(plan@ =~= done + row.take(b - a));
            }
            b += 1;
        }
        proof {
            let row = repulsion_row(a as nat, node_count as nat);
            assert(row.take(node_count - a - 1) =~= row);
        }
        a += 1;
    }
    let ghost repulsions = plan@;
    let mut from: usize = 0;
    while from < node_count
        invariant
            from <= node_count,
            graph.wf(),
            node_count == graph@.nodes.len(),
            plan@ == repulsions + attraction_terms(graph@.links, from as nat),
        decreases node_count - from,
    {
        let ghost done = plan@;
        let targets = graph.successor_handles(from);
        let ghost row = attraction_row(graph@.links, from as nat);
        let mut t: usize = 0;
        while t < targets.len()
            invariant
                t <= targets.len(),
                targets@.map_values(|h: usize| h as int) == successors(graph@.links, from as int),
                row == attraction_row(graph@.links, from as nat),
                plan@ == done + row.take(t as int),
            decreases targets.len() - t,
        {
            plan.push(ForceTerm::Attraction { from, to: targets[t] });
            proof {
                assert(targets@.map_values(|h: usize| h as int)[t as int] == targets[t as int]);
                assert(row.take(t + 1) =~= row.take(t as int).push(row[t as int]));
                assert(plan@ =~= done + row.take(t + 1));
            }
            t += 1;
        }
        proof {
            assert(targets@.map_values(|h: usize| h as int).len() == targets.len());
            assert(row.take(t as int) =~= row);
            assert(plan@ =~= repulsions + attraction_terms(graph@.links, (from + 1) as nat));
        }
        from += 1;
    }
    let ghost pulls = plan@;
    let mut node: usize = 0;
    while node < node_count
        invariant
            node <= node_count,
            plan@ == pulls + center_terms(node as nat),
        decreases node_count - node,
    {
        plan.push(ForceTerm::Center { node });
        proof {
            assert(plan@ =~= pulls + center_terms((node + 1) as nat));
        }
        node += 1;
    }
    plan
}

/// The first `rows` rows hold `rows * (2 * node_count - rows - 1) / 2`
/// repulsions.
pub proof fn lemma_repulsion_rows_len(rows: nat, node_count: nat)
    requires
        rows <= node_count,
    ensures
        2 * repulsion_terms(rows, node_count).len() == rows * (2 * node_count - rows - 1),
    decreases rows,
{
    if rows > 0 {
        let before = (rows - 1) as nat;
        lemma_repulsion_rows_len(before, node_count);
        assert(repulsion_terms(rows, node_count).len() == repulsion_terms(before, node_count).len()
            + (node_count - before - 1));
        assert(before * (2 * node_count - before - 1) + 2 * (node_count - before - 1) == rows * (2
            * node_count - rows - 1)) by (nonlinear_arith)
            requires
                before + 1 == rows,
        ;
    } else {
        assert(rows * (2 * node_count - rows - 1) == 0) by (nonlinear_arith)
            requires
                rows == 0,
        ;
    }
}

/// A step has one repulsion for every pair of nodes: `n * (n - 1) / 2` of
/// them.
pub proof fn lemma_repulsion_count(node_count: nat)
    ensures
        2 * repulsion_terms(node_count, node_count).len() == node_count * (node_count - 1),
{
    lemma_repulsion_rows_len(node_count, node_count);
    assert(node_count * (2 * node_count - node_count - 1) == node_count * (node_count - 1))
        by (nonlinear_arith);
}

/// Every pair of distinct nodes repels: the repulsion of `a` and a later
/// node `b` is among those of the rows up to `a`.
pub proof fn lemma_repulsion_covers_pair(rows: nat, node_count: nat, a: nat, b: nat)
    requires
        a < b < node_count,
        a < rows <= node_count,
        node_count <= usize::MAX,
    ensures
        repulsion_terms(rows, node_count).contains(
            ForceTerm::Repulsion { a: a as usize, b: b as usize },
        ),
    decreases rows,
{
    let before = repulsion_terms((rows - 1) as nat, node_count);
    let row = repulsion_row((rows - 1) as nat, node_count);
    let wanted = ForceTerm::Repulsion { a: a as usize, b: b as usize };
    if a + 1 == rows {
        assert(row[b - a - 1] == wanted);
        assert((before + row)[before.len() + b - a - 1] == wanted);
    } else {
        lemma_repulsion_covers_pair((rows - 1) as nat, node_count, a, b);
        let i = choose|i: int| 0 <= i < before.len() && before[i] == wanted;
        assert((before + row)[i] == wanted);
    }
}

/// Nothing but pairs repels: every repulsion is between a node and a later
/// one.
pub proof fn lemma_repulsion_is_of_pairs(rows: nat, node_count: nat, i: int)
    requires
        rows <= node_count <= usize::MAX,
        0 <= i < repulsion_terms(rows, node_count).len(),
    ensures
        repulsion_terms(rows, node_count)[i] matches ForceTerm::Repulsion { a, b } && a < b
            < node_count,
    decreases rows,
{
    if rows > 0 {
        let before = repulsion_terms((rows - 1) as nat, node_count);
        if i < before.len() {
            lemma_repulsion_rows_len((rows - 1) as nat, node_count);
            lemma_repulsion_is_of_pairs((rows - 1) as nat, node_count, i);
        }
    }
}

/// The first `rows` rows hold as many attractions as their nodes have
/// outgoing edges.
pub proof fn lemma_attraction_rows_len(links: Seq<LinkView>, rows: nat)
    ensures
        attraction_terms(links, rows).len() == total_out_degree(links, rows),
    decreases rows,
{
    if rows > 0 {
        lemma_attraction_rows_len(links, (rows - 1) as nat);
    }
}

/// A step has one attraction for every edge, one pull to the centre for
/// every node, and one repulsion for every pair of nodes.
pub proof fn lemma_force_count(graph: GraphView)
    requires
        graph.valid(),
    ensures
        2 * force_terms(graph).len() == graph.nodes.len() * (graph.nodes.len() - 1) + 2
            * graph.links.len() + 2 * graph.nodes.len(),
{
    lemma_repulsion_count(graph.nodes.len());
    lemma_attraction_rows_len(graph.links, graph.nodes.len());
    lemma_out_degrees_add_up(graph.links, graph.nodes.len());
}

} // verus!
