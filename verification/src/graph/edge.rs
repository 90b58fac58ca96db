//! Building edges step by step.

use super::{Edge, EdgeCharacteristics, EdgeType, EdgeTypeView, EdgeView};
use vstd::prelude::*;

verus! {

/// Collects the parts of an [`Edge`].
pub struct EdgeBuilder {
    id: String,
    label: String,
    edge_type: EdgeType,
    characteristics: EdgeCharacteristics,
}

impl EdgeBuilder {
    /// The edge that [`EdgeBuilder::build`] would make now.
    pub closed spec fn model(&self) -> EdgeView {
        EdgeView {
            id: self.id@,
            label: self.label@,
            edge_type: self.edge_type@,
            characteristics: self.characteristics,
        }
    }

    /// Starts an object property whose label is its id, with no
    /// characteristic set.
    pub fn new(id: &str) -> (b: EdgeBuilder)
        ensures
            b.model() == (EdgeView {
                id: id@,
                label: id@,
                edge_type: EdgeTypeView::ObjectProperty,
                characteristics: EdgeCharacteristics::initial(),
            }),
    {
        EdgeBuilder {
            id: id.to_owned(),
            label: id.to_owned(),
            edge_type: EdgeType::ObjectProperty,
            characteristics: EdgeCharacteristics::default(),
        }
    }

    /// Sets the label.
    pub fn label(self, label: &str) -> (b: EdgeBuilder)
        ensures
            b.model() == (EdgeView { label: label@, ..self.model() }),
    {
        let mut b = self;
        b.label = label.to_owned();
        b
    }

    /// Sets the kind of edge.
    pub fn edge_type(self, edge_type: EdgeType) -> (b: EdgeBuilder)
        ensures
            b.model() == (EdgeView { edge_type: edge_type@, ..self.model() }),
    {
        let mut b = self;
        b.edge_type = edge_type;
        b
    }

    /// Marks the property as functional.
    pub fn functional(self) -> (b: EdgeBuilder)
        ensures
            b.model() == (EdgeView {
                characteristics: EdgeCharacteristics {
                    functional: true,
                    ..self.model().characteristics
                },
                ..self.model()
            }),
    {
        let mut b = self;
        b.characteristics.functional = true;
        b
    }

    /// Marks the property as inverse functional.
    pub fn inverse_functional(self) -> (b: EdgeBuilder)
        ensures
            b.model() == (EdgeView {
                characteristics: EdgeCharacteristics {
                    inverse_functional: true,
                    ..self.model().characteristics
                },
                ..self.model()
            }),
    {
        let mut b = self;
        b.characteristics.inverse_functional = true;
        b
    }

    /// Marks the property as transitive.
    pub fn transitive(self) -> (b: EdgeBuilder)
        ensures
            b.model() == (EdgeView {
                characteristics: EdgeCharacteristics {
                    transitive: true,
                    ..self.model().characteristics
                },
                ..self.model()
            }),
    {
        let mut b = self;
        b.characteristics.transitive = true;
        b
    }

    /// Marks the property as symmetric.
    pub fn symmetric(self) -> (b: EdgeBuilder)
        ensures
            b.model() == (EdgeView {
                characteristics: EdgeCharacteristics {
                    symmetric: true,
                    ..self.model().characteristics
                },
                ..self.model()
            }),
    {
        let mut b = self;
        b.characteristics.symmetric = true;
        b
    }

    /// Sets the cardinality bounds.
    pub fn cardinality(self, min: Option<u32>, max: Option<u32>) -> (b: EdgeBuilder)
        ensures
            b.model() == (EdgeView {
                characteristics: EdgeCharacteristics {
                    cardinality: Some((min, max)),
                    ..self.model().characteristics
                },
                ..self.model()
            }),
    {
        let mut b = self;
        b.characteristics.cardinality = Some((min, max));
        b
    }

    /// The edge.
    pub fn build(self) -> (e: Edge)
        ensures
            e@ == self.model(),
    {
        Edge {
            id: self.id,
            label: self.label,
            edge_type: self.edge_type,
            characteristics: self.characteristics,
        }
    }
}

} // verus!
