//! The state of a layout run and what its steps may change.

use super::LayoutConfig;
use crate::error::VowlError;
use crate::graph::{NodeView, VisualView, VowlGraph};
use crate::scalar::Scalar;
use vstd::prelude::*;

verus! {

/// The position and velocity that a step gives a node.
#[derive(Debug, Clone, Copy, PartialEq, Eq, Structural)]
pub struct Motion {
    /// Horizontal position.
    pub x: Scalar,
    /// Vertical position.
    pub y: Scalar,
    /// Horizontal velocity.
    pub vx: Scalar,
    /// Vertical velocity.
    pub vy: Scalar,
}

/// The value of a simulation: its parameters, its energy and the number of
/// steps taken since it was last initialised.
pub struct SimulationState {
    pub config: LayoutConfig,
    pub alpha: Scalar,
    pub iteration: usize,
}

impl SimulationState {
    /// A run is over once its energy is below the threshold.
    pub open spec fn finished(self) -> bool {
        self.alpha.spec_lt(self.config.alpha_min)
    }
}

/// Whether a node still waits for a position: it sits exactly at the
/// origin, whatever the sign of its zeros. A node that was truly meant to be
/// at the origin cannot be told apart and is taken to wait as well.
pub open spec fn unplaced(node: NodeView) -> bool {
    node.visual.x.spec_is_zero() && node.visual.y.spec_is_zero()
}

/// The number of nodes that wait for a position.
pub open spec fn unplaced_count(nodes: Seq<NodeView>) -> nat
    decreases nodes.len(),
{
    if nodes.len() == 0 {
        0
    } else if unplaced(nodes.last()) {
        unplaced_count(nodes.drop_last()) + 1
    } else {
        unplaced_count(nodes.drop_last())
    }
}

/// The node moved to a point, all else as it was.
pub open spec fn placed_at(node: NodeView, point: (Scalar, Scalar)) -> NodeView {
    NodeView { visual: VisualView { x: point.0, y: point.1, ..node.visual }, ..node }
}

/// The nodes after placement on a ring of points: the nodes that wait for a
/// position take the points of the ring in order, the others stay.
pub open spec fn place_on_ring(nodes: Seq<NodeView>, ring: Seq<(Scalar, Scalar)>) -> Seq<
    NodeView,
> {
    Seq::new(
        nodes.len(),
        |i: int|
            if unplaced(nodes[i]) {
                placed_at(nodes[i], ring[unplaced_count(nodes.take(i)) as int])
            } else {
                nodes[i]
            },
    )
}

/// The node after a step: a fixed node stays as it is, any other takes the
/// position and velocity of its motion.
pub open spec fn moved(node: NodeView, motion: Motion) -> NodeView {
    if node.visual.fixed {
        node
    } else {
        NodeView {
            visual: VisualView {
                x: motion.x,
                y: motion.y,
                vx: motion.vx,
                vy: motion.vy,
                ..node.visual
            },
            ..node
        }
    }
}

/// The nodes after a step, each with the motion at its handle.
pub open spec fn apply_motions(nodes: Seq<NodeView>, motions: Seq<Motion>) -> Seq<NodeView> {
    Seq::new(nodes.len(), |i: int| moved(nodes[i], motions[i]))
}

/// Detail of the error for a ring with fewer points than nodes wait for.
pub open spec fn short_ring_detail() -> Seq<char> {
    "Fewer ring positions than unplaced nodes"@
}

/// Detail of the error for motions that are not one per node.
pub open spec fn motion_count_detail() -> Seq<char> {
    "A tick needs one motion per node"@
}

/// Detail of the error for a run that has counted all the steps it can.
pub open spec fn exhausted_detail() -> Seq<char> {
    "Tick counter exhausted"@
}

/// There are no more nodes that wait for a position than nodes.
pub proof fn lemma_unplaced_count_bounded(nodes: Seq<NodeView>)
    ensures
        unplaced_count(nodes) <= nodes.len(),
    decreases nodes.len(),
{
    if nodes.len() > 0 {
        lemma_unplaced_count_bounded(nodes.drop_last());
    }
}

/// Among the first nodes there are no more that wait than among them all.
pub proof fn lemma_unplaced_count_monotone(nodes: Seq<NodeView>, i: int)
    requires
        0 <= i <= nodes.len(),
    ensures
        unplaced_count(nodes.take(i)) <= unplaced_count(nodes),
    decreases nodes.len() - i,
{
    if i < nodes.len() {
        lemma_unplaced_count_monotone(nodes, i + 1);
        assert(nodes.take(i + 1).drop_last() =~= nodes.take(i));
    } else {
        assert(nodes.take(i) =~= nodes);
    }
}

/// Where no node waits for a position, none is counted.
pub proof fn lemma_none_unplaced(nodes: Seq<NodeView>)
    requires
        forall|i: int| 0 <= i < nodes.len() ==> !unplaced(#[trigger] nodes[i]),
    ensures
        unplaced_count(nodes) == 0,
    decreases nodes.len(),
{
    if nodes.len() > 0 {
        assert(!unplaced(nodes[nodes.len() - 1]));
        assert forall|i: int| 0 <= i < nodes.drop_last().len() implies !unplaced(
            #[trigger] nodes.drop_last()[i],
        ) by {
            assert(nodes.drop_last()[i] == nodes[i]);
        }
        lemma_none_unplaced(nodes.drop_last());
    }
}

/// Placement leaves no node waiting: on a ring that is long enough and has
/// no point at the origin, every node has a position afterwards.
pub proof fn lemma_ring_places_all(nodes: Seq<NodeView>, ring: Seq<(Scalar, Scalar)>)
    requires
        ring.len() >= unplaced_count(nodes),
        forall|k: int|
            0 <= k < ring.len() ==> !((#[trigger] ring[k]).0.spec_is_zero()
                && ring[k].1.spec_is_zero()),
    ensures
        forall|i: int| 0 <= i < nodes.len() ==> !unplaced(#[trigger] place_on_ring(nodes, ring)[i]),
        unplaced_count(place_on_ring(nodes, ring)) == 0,
{
    let placed = place_on_ring(nodes, ring);
    assert forall|i: int| 0 <= i < nodes.len() implies !unplaced(#[trigger] placed[i]) by {
        if unplaced(nodes[i]) {
            lemma_unplaced_count_monotone(nodes, i + 1);
            assert(nodes.take(i + 1).drop_last() =~= nodes.take(i));
            assert(nodes.take(i + 1).last() == nodes[i]);
            let k = unplaced_count(nodes.take(i)) as int;
            assert(k < ring.len());
            assert(!(ring[k].0.spec_is_zero() && ring[k].1.spec_is_zero()));
        }
    }
    lemma_none_unplaced(placed);
}

/// Placing again moves nothing once every node has a position: a second
/// placement touches only nodes that sit at the origin, and after a
/// placement on a ring without a point at the origin there are none.
pub proof fn lemma_placement_settles(
    nodes: Seq<NodeView>,
    ring: Seq<(Scalar, Scalar)>,
    again: Seq<(Scalar, Scalar)>,
)
    requires
        ring.len() >= unplaced_count(nodes),
        forall|k: int|
            0 <= k < ring.len() ==> !((#[trigger] ring[k]).0.spec_is_zero()
                && ring[k].1.spec_is_zero()),
    ensures
        place_on_ring(place_on_ring(nodes, ring), again) == place_on_ring(nodes, ring),
{
    lemma_ring_places_all(nodes, ring);
    assert(place_on_ring(place_on_ring(nodes, ring), again) =~= place_on_ring(nodes, ring));
}

/// A step changes nothing but positions and velocities, and those of fixed
/// nodes not at all.
pub proof fn lemma_step_keeps_identity(nodes: Seq<NodeView>, motions: Seq<Motion>, i: int)
    requires
        0 <= i < nodes.len(),
    ensures
        apply_motions(nodes, motions).len() == nodes.len(),
        apply_motions(nodes, motions)[i].id == nodes[i].id,
        apply_motions(nodes, motions)[i].label == nodes[i].label,
        apply_motions(nodes, motions)[i].node_type == nodes[i].node_type,
        apply_motions(nodes, motions)[i].semantic == nodes[i].semantic,
        apply_motions(nodes, motions)[i].visual.fixed == nodes[i].visual.fixed,
        apply_motions(nodes, motions)[i].visual.weight == nodes[i].visual.weight,
        apply_motions(nodes, motions)[i].visual.color == nodes[i].visual.color,
        nodes[i].visual.fixed ==> apply_motions(nodes, motions)[i] == nodes[i],
{
}

/// A run of the force-directed layout over a graph.
pub struct ForceSimulation {
    config: LayoutConfig,
    alpha: Scalar,
    iteration: usize,
}

impl View for ForceSimulation {
    type V = SimulationState;

    closed spec fn view(&self) -> SimulationState {
        SimulationState { config: self.config, alpha: self.alpha, iteration: self.iteration }
    }
}

impl ForceSimulation {
    /// A simulation with the default parameters, at their start energy.
    pub fn new() -> (s: ForceSimulation)
        ensures
            s@ == (SimulationState {
                config: LayoutConfig::standard(),
                alpha: LayoutConfig::standard().alpha,
                iteration: 0,
            }),
    {
        let config = LayoutConfig::default();
        ForceSimulation { config, alpha: config.alpha, iteration: 0 }
    }

    /// A simulation with the given parameters, at their start energy.
    pub fn with_config(config: LayoutConfig) -> (s: ForceSimulation)
        ensures
            s@ == (SimulationState { config: config, alpha: config.alpha, iteration: 0 }),
    {
        ForceSimulation { config, alpha: config.alpha, iteration: 0 }
    }

    /// Sets the centre. Like every setter it changes the parameters only:
    /// energy, step count and the graph stay, and the next step sees the new
    /// value.
    pub fn set_center(&mut self, x: Scalar, y: Scalar)
        ensures
            final(self)@ == (SimulationState {
                config: LayoutConfig { center: (x, y), ..old(self)@.config },
                ..old(self)@
            }),
    {
        self.config.center = (x, y);
    }

    /// Sets the length of a link at rest.
    pub fn set_link_distance(&mut self, distance: Scalar)
        ensures
            final(self)@ == (SimulationState {
                config: LayoutConfig { link_distance: distance, ..old(self)@.config },
                ..old(self)@
            }),
    {
        self.config.link_distance = distance;
    }

    /// Sets the charge of nodes.
    pub fn set_charge_strength(&mut self, strength: Scalar)
        ensures
            final(self)@ == (SimulationState {
                config: LayoutConfig { charge_strength: strength, ..old(self)@.config },
                ..old(self)@
            }),
    {
        self.config.charge_strength = strength;
    }

    /// The parameters.
    pub fn config(&self) -> (c: &LayoutConfig)
        ensures
            *c == self@.config,
    {
        &self.config
    }

    /// The current energy.
    pub fn alpha(&self) -> (a: Scalar)
        ensures
            a == self@.alpha,
    {
        self.alpha
    }

    /// The number of steps taken since the run was last initialised.
    pub fn iteration(&self) -> (n: usize)
        ensures
            n == self@.iteration,
    {
        self.iteration
    }

    /// Whether the run is over: the energy is below the threshold.
    pub fn is_finished(&self) -> (r: bool)
        ensures
            r == self@.finished(),
    {
        self.alpha.lt(self.config.alpha_min)
    }

    /// Starts a run: every node that sits exactly at the origin is placed on
    /// the next point of `ring`, the energy goes back to its start value and
    /// the step count to zero. Nodes with any non-zero coordinate stay where
    /// they are, so doing this again on a laid-out graph moves only the nodes
    /// that happen to sit at the origin.
    ///
    /// With fewer points than nodes to place nothing is changed and the call
    /// fails.
    pub fn initialize(&mut self, graph: &mut VowlGraph, ring: &Vec<(Scalar, Scalar)>) -> (r:
        Result<(), VowlError>)
        requires
            old(graph).wf(),
        ensures
            final(graph).wf(),
            final(graph)@.links == old(graph)@.links,
            final(graph)@.metadata == old(graph)@.metadata,
            ring.len() < unplaced_count(old(graph)@.nodes) ==> {
                &&& r matches Err(e)
                &&& e is LayoutError
                &&& e.detail() == short_ring_detail()
                &&& final(graph)@ == old(graph)@
                &&& final(self)@ == old(self)@
            },
            ring.len() >= unplaced_count(old(graph)@.nodes) ==> {
                &&& r is Ok
                &&& final(graph)@.nodes == place_on_ring(old(graph)@.nodes, ring@)
                &&& final(self)@ == (SimulationState {
                    alpha: old(self)@.config.alpha,
                    iteration: 0,
                    ..old(self)@
                })
            },
    {
        let waiting: usize = Self::count_unplaced(graph);
        if ring.len() < waiting {
            return Err(VowlError::LayoutError("Fewer ring positions than unplaced nodes".to_owned()));
        }
        let node_count: usize = graph.node_count();
        let ghost before = graph@.nodes;
        let mut placed: usize = 0;
        let mut i: usize = 0;
        proof {
            assert(before.take(0) =~= Seq::<NodeView>::empty());
        }
        while i < node_count
            invariant
                i <= node_count,
                node_count == before.len(),
                before == old(graph)@.nodes,
                graph.wf(),
                graph@.links == old(graph)@.links,
                graph@.metadata == old(graph)@.metadata,
                graph@.nodes.len() == node_count,
                placed == unplaced_count(before.take(i as int)),
                waiting == unplaced_count(before),
                waiting <= ring.len(),
                forall|j: int| 0 <= j < i ==> graph@.nodes[j] == place_on_ring(before, ring@)[j],
                forall|j: int| i <= j < node_count ==> graph@.nodes[j] == before[j],
            decreases node_count - i,
        {
            proof {
                assert(before.take(i + 1).drop_last() =~= before.take(i as int));
                assert(before.take(i + 1).last() == before[i as int]);
                lemma_unplaced_count_monotone(before, i + 1);
            }
            let ghost current = graph@.nodes;
            match graph.node_mut(i) {
                Some(node) => {
                    if node.visual.x.is_zero() && node.visual.y.is_zero() {
                        let point = ring[placed];
                        node.visual.x = point.0;
                        node.visual.y = point.1;
                        placed += 1;
                    }
                },
                None => {},
            }
            proof {
                assert(graph@.nodes =~= current.update(
                    i as int,
                    place_on_ring(before, ring@)[i as int],
                ));
            }
            i += 1;
        }
        proof {
            assert(graph@.nodes =~= place_on_ring(before, ring@));
        }
        self.alpha = self.config.alpha;
        self.iteration = 0;
        Ok(())
    }

    /// The number of nodes that wait for a position.
    pub fn count_unplaced(graph: &VowlGraph) -> (n: usize)
        ensures
            n == unplaced_count(graph@.nodes),
    {
        let nodes = graph.nodes();
        let mut n: usize = 0;
        let mut i: usize = 0;
        proof {
            assert(graph@.nodes.take(0) =~= Seq::<NodeView>::empty());
        }
        while i < nodes.len()
            invariant
                i <= nodes.len(),
                nodes@.map_values(|n: &crate::graph::Node| n@) == graph@.nodes,
                n <= i,
                n == unplaced_count(graph@.nodes.take(i as int)),
            decreases nodes.len() - i,
        {
            proof {
                assert(graph@.nodes.take(i + 1).drop_last() =~= graph@.nodes.take(i as int));
                assert(graph@.nodes.take(i + 1).last() == graph@.nodes[i as int]);
                assert(nodes@.map_values(|n: &crate::graph::Node| n@)[i as int] == nodes[i as int]@);
            }
            if nodes[i].visual.x.is_zero() && nodes[i].visual.y.is_zero() {
                n += 1;
            }
            i += 1;
        }
        proof {
            assert(nodes@.map_values(|n: &crate::graph::Node| n@).len() == nodes.len());
            assert(graph@.nodes.take(i as int) =~= graph@.nodes);
        }
        n
    }

    /// One step of a run, given what the forces of the step make of each
    /// node and of the energy.
    ///
    /// A run that is over takes no further step: nothing changes. Otherwise
    /// every node that is not fixed takes the position and velocity of the
    /// motion at its handle, fixed nodes stay as they are, the energy becomes
    /// `next_alpha` and the step is counted. Ids, labels, edges and
    /// statistics are never touched.
    ///
    /// The step is refused, and nothing changes, when the motions are not one
    /// per node or the step count cannot grow.
    pub fn tick(
        &mut self,
        graph: &mut VowlGraph,
        motions: &Vec<Motion>,
        next_alpha: Scalar,
    ) -> (r: Result<(), VowlError>)
        requires
            old(graph).wf(),
        ensures
            final(graph).wf(),
            final(graph)@.links == old(graph)@.links,
            final(graph)@.metadata == old(graph)@.metadata,
            old(self)@.finished() ==> {
                &&& r is Ok
                &&& final(graph)@ == old(graph)@
                &&& final(self)@ == old(self)@
            },
            !old(self)@.finished() && motions.len() != old(graph)@.nodes.len() ==> {
                &&& r matches Err(e)
                &&& e is LayoutError
                &&& e.detail() == motion_count_detail()
                &&& final(graph)@ == old(graph)@
                &&& final(self)@ == old(self)@
            },
            !old(self)@.finished() && motions.len() == old(graph)@.nodes.len() && old(
                self,
            )@.iteration == usize::MAX ==> {
                &&& r matches Err(e)
                &&& e is LayoutError
                &&& e.detail() == exhausted_detail()
                &&& final(graph)@ == old(graph)@
                &&& final(self)@ == old(self)@
            },
            !old(self)@.finished() && motions.len() == old(graph)@.nodes.len() && old(
                self,
            )@.iteration < usize::MAX ==> {
                &&& r is Ok
                &&& final(graph)@.nodes == apply_motions(old(graph)@.nodes, motions@)
                &&& final(self)@ == (SimulationState {
                    alpha: next_alpha,
                    iteration: (old(self)@.iteration + 1) as usize,
                    ..old(self)@
                })
            },
    {
        if self.is_finished() {
            return Ok(());
        }
        let node_count: usize = graph.node_count();
        if motions.len() != node_count {
            return Err(VowlError::LayoutError("A tick needs one motion per node".to_owned()));
        }
        if self.iteration == usize::MAX {
            return Err(VowlError::LayoutError("Tick counter exhausted".to_owned()));
        }
        let ghost before = graph@.nodes;
        let mut i: usize = 0;
        while i < node_count
            invariant
                i <= node_count,
                node_count == before.len(),
                motions.len() == node_count,
                before == old(graph)@.nodes,
                graph.wf(),
                graph@.links == old(graph)@.links,
                graph@.metadata == old(graph)@.metadata,
                graph@.nodes.len() == node_count,
                forall|j: int| 0 <= j < i ==> graph@.nodes[j] == moved(before[j], motions[j]),
                forall|j: int| i <= j < node_count ==> graph@.nodes[j] == before[j],
            decreases node_count - i,
        {
            let ghost current = graph@.nodes;
            let motion = motions[i];
            match graph.node_mut(i) {
                Some(node) => {
                    if !node.visual.fixed {
                        node.visual.vx = motion.vx;
                        node.visual.vy = motion.vy;
                        node.visual.x = motion.x;
                        node.visual.y = motion.y;
                    }
                },
                None => {},
            }
            proof {
                assert(graph@.nodes =~= current.update(i as int, moved(before[i as int], motion)));
            }
            i += 1;
        }
        proof {
            assert(graph@.nodes =~= apply_motions(before, motions@));
        }
        self.alpha = next_alpha;
        self.iteration = self.iteration + 1;
        Ok(())
    }
}

impl Default for ForceSimulation {
    fn default() -> (s: ForceSimulation)
        ensures
            s@ == (SimulationState {
                config: LayoutConfig::standard(),
                alpha: LayoutConfig::standard().alpha,
                iteration: 0,
            }),
    {
        ForceSimulation::new()
    }
}

} // verus!
