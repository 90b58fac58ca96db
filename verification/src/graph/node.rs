//! Building nodes step by step.

use super::{Node, NodeType, NodeTypeView, NodeView, SemanticAttributes, SemanticView, VisualAttributes, VisualView};
use crate::scalar::Scalar;
use vstd::prelude::*;

verus! {

/// Collects the parts of a [`Node`].
pub struct NodeBuilder {
    id: String,
    label: String,
    node_type: NodeType,
    visual: VisualAttributes,
    semantic: SemanticAttributes,
}

impl NodeBuilder {
    /// The node that [`NodeBuilder::build`] would make now.
    pub closed spec fn model(&self) -> NodeView {
        NodeView {
            id: self.id@,
            label: self.label@,
            node_type: self.node_type@,
            visual: self.visual@,
            semantic: self.semantic@,
        }
    }

    /// Starts a class node whose label is its id, at rest at the origin.
    pub fn new(id: &str) -> (b: NodeBuilder)
        ensures
            b.model() == (NodeView {
                id: id@,
                label: id@,
                node_type: NodeTypeView::Class,
                visual: VisualView::initial(),
                semantic: SemanticView::initial(),
            }),
    {
        NodeBuilder {
            id: id.to_owned(),
            label: id.to_owned(),
            node_type: NodeType::Class,
            visual: VisualAttributes::default(),
            semantic: SemanticAttributes::default(),
        }
    }

    /// Sets the label.
    pub fn label(self, label: &str) -> (b: NodeBuilder)
        ensures
            b.model() == (NodeView { label: label@, ..self.model() }),
    {
        let mut b = self;
        b.label = label.to_owned();
        b
    }

    /// Sets the kind of node.
    pub fn node_type(self, node_type: NodeType) -> (b: NodeBuilder)
        ensures
            b.model() == (NodeView { node_type: node_type@, ..self.model() }),
    {
        let mut b = self;
        b.node_type = node_type;
        b
    }

    /// Sets the position.
    pub fn position(self, x: Scalar, y: Scalar) -> (b: NodeBuilder)
        ensures
            b.model() == (NodeView {
                visual: VisualView { x: x, y: y, ..self.model().visual },
                ..self.model()
            }),
    {
        let mut b = self;
        b.visual.x = x;
        b.visual.y = y;
        b
    }

    /// Sets the IRI.
    pub fn iri(self, iri: &str) -> (b: NodeBuilder)
        ensures
            b.model() == (NodeView {
                semantic: SemanticView { iri: iri@, ..self.model().semantic },
                ..self.model()
            }),
    {
        let mut b = self;
        b.semantic.iri = iri.to_owned();
        b
    }

    /// Says whether the class is defined outside the ontology.
    pub fn external(self, external: bool) -> (b: NodeBuilder)
        ensures
            b.model() == (NodeView {
                semantic: SemanticView { external: external, ..self.model().semantic },
                ..self.model()
            }),
    {
        let mut b = self;
        b.semantic.external = external;
        b
    }

    /// Sets the visual weight.
    pub fn weight(self, weight: Scalar) -> (b: NodeBuilder)
        ensures
            b.model() == (NodeView {
                visual: VisualView { weight: weight, ..self.model().visual },
                ..self.model()
            }),
    {
        let mut b = self;
        b.visual.weight = weight;
        b
    }

    /// The node.
    pub fn build(self) -> (n: Node)
        ensures
            n@ == self.model(),
    {
        Node {
            id: self.id,
            label: self.label,
            node_type: self.node_type,
            visual: self.visual,
            semantic: self.semantic,
        }
    }
}

} // verus!
