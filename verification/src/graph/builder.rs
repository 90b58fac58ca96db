//! From a validated ontology to its graph.
//!
//! The construction runs in two passes whose order matters: first every class
//! becomes a node, then every property becomes an edge between the nodes of
//! its domain and its range, which must both be there by then.

use super::edge::EdgeBuilder;
use super::node::NodeBuilder;
use super::{
    duplicate_node_detail, handle_of, has_id, metadata_of, unknown_node_detail, Edge,
    EdgeCharacteristics, EdgeType, EdgeTypeView, EdgeView, GraphMetadata, LinkView, Node,
    NodeType, NodeTypeView, NodeView, SemanticView, VisualView, VowlGraph,
};
use crate::error::VowlError;
use crate::ontology::{
    ClassNode, ClassNodeView, OntologyData, OntologyView, Property, PropertyType,
    PropertyTypeView, PropertyView,
};
use crate::text::{occurs_in, str_contains, str_eq};
use vstd::prelude::*;

verus! {

/// The kind of node for a class type as the ontology names it.
pub open spec fn node_type_of(class_type: Seq<char>) -> NodeTypeView {
    if class_type == "owl:Class"@ || class_type == "rdfs:Class"@ {
        NodeTypeView::Class
    } else if class_type == "rdfs:Datatype"@ || class_type == "xsd:*"@ {
        NodeTypeView::Datatype
    } else {
        NodeTypeView::Special(class_type)
    }
}

/// The kind of edge for a kind of property. A property of another kind is a
/// subclass edge when its name holds `subclass`.
pub open spec fn edge_type_of(property_type: PropertyTypeView) -> EdgeTypeView {
    match property_type {
        PropertyTypeView::ObjectProperty => EdgeTypeView::ObjectProperty,
        PropertyTypeView::DatatypeProperty => EdgeTypeView::DatatypeProperty,
        PropertyTypeView::AnnotationProperty => EdgeTypeView::Special("annotation"@),
        PropertyTypeView::SpecialProperty(name) => if occurs_in("subclass"@, name) {
            EdgeTypeView::SubClass
        } else {
            EdgeTypeView::Special(name)
        },
    }
}

/// The node that stands for a class: its id, label and IRI, the kind its
/// class type maps to and whether it is external; at rest at the origin.
pub open spec fn node_of_class(class: ClassNodeView) -> NodeView {
    NodeView {
        id: class.id,
        label: class.label,
        node_type: node_type_of(class.class_type),
        visual: VisualView::initial(),
        semantic: SemanticView {
            iri: class.iri,
            external: class.attributes.external,
            ..SemanticView::initial()
        },
    }
}

/// The edge that stands for a property: its id and label, the kind its
/// property type maps to, its four flags, and the lower and upper bound of
/// its cardinality.
pub open spec fn edge_of_property(property: PropertyView) -> EdgeView {
    EdgeView {
        id: property.id,
        label: property.label,
        edge_type: edge_type_of(property.property_type),
        characteristics: EdgeCharacteristics {
            functional: property.characteristics.functional,
            inverse_functional: property.characteristics.inverse_functional,
            transitive: property.characteristics.transitive,
            symmetric: property.characteristics.symmetric,
            cardinality: match property.characteristics.cardinality {
                Some(c) => Some((c.min, c.max)),
                None => None,
            },
        },
    }
}

/// The nodes of the classes, in order.
pub open spec fn nodes_of(classes: Seq<ClassNodeView>) -> Seq<NodeView> {
    classes.map_values(|c: ClassNodeView| node_of_class(c))
}

/// The link that stands for a property among the given nodes.
pub open spec fn link_of(nodes: Seq<NodeView>, property: PropertyView) -> LinkView {
    LinkView {
        source: handle_of(nodes, property.domain),
        target: handle_of(nodes, property.range),
        edge: edge_of_property(property),
    }
}

/// The links of the properties among the given nodes, in order.
pub open spec fn links_of(nodes: Seq<NodeView>, properties: Seq<PropertyView>) -> Seq<LinkView> {
    properties.map_values(|p: PropertyView| link_of(nodes, p))
}

/// Whether the class at `j` has the id of an earlier class.
pub open spec fn repeats(classes: Seq<ClassNodeView>, j: int) -> bool {
    exists|i: int| 0 <= i < j && (#[trigger] classes[i]).id == classes[j].id
}

/// Whether the domain or the range of a property is the id of no node.
pub open spec fn dangles(nodes: Seq<NodeView>, property: PropertyView) -> bool {
    !has_id(nodes, property.domain) || !has_id(nodes, property.range)
}

/// Why the construction of a graph from an ontology fails, if it does: the first class
/// that repeats an earlier id; failing that, the first property whose domain
/// or range names no class, the domain being looked at before the range.
pub open spec fn build_failure(data: OntologyView) -> Option<Seq<char>> {
    if exists|j: int| 0 <= j < data.classes.len() && repeats(data.classes, j) {
        let j = choose|j: int|
            0 <= j < data.classes.len() && repeats(data.classes, j) && forall|e: int|
                0 <= e < j ==> !repeats(data.classes, e);
        Some(duplicate_node_detail(data.classes[j].id))
    } else if exists|k: int|
        0 <= k < data.properties.len() && dangles(nodes_of(data.classes), data.properties[k]) {
        let nodes = nodes_of(data.classes);
        let k = choose|k: int|
            0 <= k < data.properties.len() && dangles(nodes, data.properties[k]) && forall|e: int|
                0 <= e < k ==> !dangles(nodes, data.properties[e]);
        if !has_id(nodes, data.properties[k].domain) {
            Some(unknown_node_detail(data.properties[k].domain))
        } else {
            Some(unknown_node_detail(data.properties[k].range))
        }
    } else {
        None
    }
}

/// Builds the graph of a validated ontology.
pub struct GraphBuilder {
    graph: VowlGraph,
}

impl GraphBuilder {
    /// The graph built so far.
    pub closed spec fn graph(&self) -> VowlGraph {
        self.graph
    }

    /// A builder that holds an empty graph.
    pub fn new() -> (b: GraphBuilder)
        ensures
            b.graph().wf(),
            b.graph()@.nodes.len() == 0,
            b.graph()@.links.len() == 0,
            b.graph()@.metadata == GraphMetadata::initial(),
    {
        GraphBuilder { graph: VowlGraph::new() }
    }

    /// The graph built so far.
    pub fn build(self) -> (g: VowlGraph)
        ensures
            g == self.graph(),
    {
        self.graph
    }

    /// The kind of node for a class type as the ontology names it.
    pub fn map_node_type(class_type: &str) -> (t: NodeType)
        ensures
            t@ == node_type_of(class_type@),
    {
        if str_eq(class_type, "owl:Class") || str_eq(class_type, "rdfs:Class") {
            NodeType::Class
        } else if str_eq(class_type, "rdfs:Datatype") || str_eq(class_type, "xsd:*") {
            NodeType::Datatype
        } else {
            NodeType::Special(class_type.to_owned())
        }
    }

    /// The kind of edge for a kind of property.
    pub fn map_edge_type(property_type: &PropertyType) -> (t: EdgeType)
        ensures
            t@ == edge_type_of(property_type@),
    {
        match property_type {
            PropertyType::ObjectProperty => EdgeType::ObjectProperty,
            PropertyType::DatatypeProperty => EdgeType::DatatypeProperty,
            PropertyType::AnnotationProperty => EdgeType::Special("annotation".to_owned()),
            PropertyType::SpecialProperty(name) => {
                if str_contains(name.as_str(), "subclass") {
                    EdgeType::SubClass
                } else {
                    EdgeType::Special(name.clone())
                }
            },
        }
    }

    /// The node that stands for a class.
    pub fn class_node(class: &ClassNode) -> (n: Node)
        ensures
            n@ == node_of_class(class@),
    {
        NodeBuilder::new(class.id.as_str()).label(class.label.as_str()).node_type(
            Self::map_node_type(class.class_type.as_str()),
        ).iri(class.iri.as_str()).external(class.attributes.external).build()
    }

    /// The edge that stands for a property.
    pub fn property_edge(property: &Property) -> (e: Edge)
        ensures
            e@ == edge_of_property(property@),
    {
        let edge = EdgeBuilder::new(property.id.as_str()).label(property.label.as_str()).edge_type(
            Self::map_edge_type(&property.property_type),
        );
        let edge = if property.characteristics.functional {
            edge.functional()
        } else {
            edge
        };
        let edge = if property.characteristics.transitive {
            edge.transitive()
        } else {
            edge
        };
        let edge = if property.characteristics.symmetric {
            edge.symmetric()
        } else {
            edge
        };
        let edge = if property.characteristics.inverse_functional {
            edge.inverse_functional()
        } else {
            edge
        };
        let edge = match property.characteristics.cardinality {
            Some(c) => edge.cardinality(c.min, c.max),
            None => edge,
        };
        edge.build()
    }

    /// Builds the graph of an ontology: a node for every class, then
    /// an edge for every property, then the statistics, computed once.
    ///
    /// The construction is all or nothing. It fails on the first class whose
    /// id is taken and on the first property whose domain or range is the id
    /// of no class, and then no graph is returned.
    pub fn from_ontology(data: &OntologyData) -> (r: Result<VowlGraph, VowlError>)
        ensures
            match r {
                Ok(g) => {
                    &&& build_failure(data@) is None
                    &&& g.wf()
                    &&& g@.nodes == nodes_of(data@.classes)
                    &&& g@.links == links_of(g@.nodes, data@.properties)
                    &&& g@.metadata == metadata_of(g@.nodes, g@.links)
                },
                Err(e) => {
                    &&& e is GraphError
                    &&& build_failure(data@) == Some(e.detail())
                },
            },
    {
        let mut builder = Self::new();
        let mut i: usize = 0;
        while i < data.classes.len()
            invariant
                i <= data.classes.len(),
                builder.graph.wf(),
                builder.graph@.nodes == nodes_of(data@.classes.take(i as int)),
                builder.graph@.links.len() == 0,
                forall|j: int| 0 <= j < i ==> !repeats(data@.classes, j),
            decreases data.classes.len() - i,
        {
            let class = &data.classes[i];
            let node = Self::class_node(class);
            let ghost before = builder.graph@.nodes;
            proof {
                assert(data@.classes[i as int] == class@);
                if has_id(before, node@.id) {
                    let h = handle_of(before, node@.id);
                    assert(data@.classes[h].id == data@.classes[i as int].id);
                    assert(repeats(data@.classes, i as int));
                }
                if repeats(data@.classes, i as int) {
                    let h = choose|h: int|
                        0 <= h < i && (#[trigger] data@.classes[h]).id == data@.classes[i as int].id;
                    assert(before[h].id == node@.id);
                    assert(has_id(before, node@.id));
                }
            }
            match builder.graph.add_node(node) {
                Ok(_) => {},
                Err(e) => {
                    proof {
                        lemma_first_repeat(data@, i as int);
                    }
                    return Err(e);
                },
            }
            proof {
                assert(data@.classes.take(i + 1) =~= data@.classes.take(i as int).push(class@));
                assert(builder.graph@.nodes =~= nodes_of(data@.classes.take(i + 1)));
            }
            i += 1;
        }
        proof {
            assert(data@.classes.take(i as int) =~= data@.classes);
        }
        let mut k: usize = 0;
        while k < data.properties.len()
            invariant
                k <= data.properties.len(),
                builder.graph.wf(),
                builder.graph@.nodes == nodes_of(data@.classes),
                builder.graph@.links == links_of(
                    builder.graph@.nodes,
                    data@.properties.take(k as int),
                ),
                forall|j: int| 0 <= j < data@.classes.len() ==> !repeats(data@.classes, j),
                forall|e: int|
                    0 <= e < k ==> !dangles(nodes_of(data@.classes), data@.properties[e]),
            decreases data.properties.len() - k,
        {
            let property = &data.properties[k];
            let edge = Self::property_edge(property);
            proof {
                assert(data@.properties[k as int] == property@);
            }
            match builder.graph.add_edge(property.domain.as_str(), property.range.as_str(), edge) {
                Ok(_) => {},
                Err(e) => {
                    proof {
                        lemma_first_dangling(data@, k as int);
                    }
                    return Err(e);
                },
            }
            proof {
                assert(data@.properties.take(k + 1) =~= data@.properties.take(k as int).push(
                    property@,
                ));
                assert(builder.graph@.links =~= links_of(
                    builder.graph@.nodes,
                    data@.properties.take(k + 1),
                ));
            }
            k += 1;
        }
        proof {
            assert(data@.properties.take(k as int) =~= data@.properties);
        }
        builder.graph.update_metadata();
        Ok(builder.graph)
    }
}

/// When the class at `j` repeats an earlier id and none before it does, the
/// construction fails on the id of that class.
pub proof fn lemma_first_repeat(data: OntologyView, j: int)
    requires
        0 <= j < data.classes.len(),
        repeats(data.classes, j),
        forall|e: int| 0 <= e < j ==> !repeats(data.classes, e),
    ensures
        build_failure(data) == Some(duplicate_node_detail(data.classes[j].id)),
{
    let chosen = choose|c: int|
        0 <= c < data.classes.len() && repeats(data.classes, c) && forall|e: int|
            0 <= e < c ==> !repeats(data.classes, e);
    assert(chosen == j);
}

/// When no class repeats an id, the property at `k` dangles and none before
/// it does, the construction fails on the domain of that property if it names
/// no class, and on its range otherwise.
pub proof fn lemma_first_dangling(data: OntologyView, k: int)
    requires
        forall|j: int| 0 <= j < data.classes.len() ==> !repeats(data.classes, j),
        0 <= k < data.properties.len(),
        dangles(nodes_of(data.classes), data.properties[k]),
        forall|e: int| 0 <= e < k ==> !dangles(nodes_of(data.classes), data.properties[e]),
    ensures
        build_failure(data) == Some(
            unknown_node_detail(
                if !has_id(nodes_of(data.classes), data.properties[k].domain) {
                    data.properties[k].domain
                } else {
                    data.properties[k].range
                },
            ),
        ),
{
    let nodes = nodes_of(data.classes);
    let chosen = choose|c: int|
        0 <= c < data.properties.len() && dangles(nodes, data.properties[c]) && forall|e: int|
            0 <= e < c ==> !dangles(nodes, data.properties[e]);
    assert(chosen == k);
}

/// The construction succeeds exactly when no class repeats an id and every
/// property joins two classes.
pub proof fn lemma_build_succeeds_iff(data: OntologyView)
    ensures
        build_failure(data) is None <==> {
            &&& forall|j: int| 0 <= j < data.classes.len() ==> !repeats(data.classes, j)
            &&& forall|k: int|
                0 <= k < data.properties.len() ==> !dangles(
                    nodes_of(data.classes),
                    #[trigger] data.properties[k],
                )
        },
{
}

/// The first property that joins no two nodes, when the one at `witness`
/// joins none.
proof fn first_dangling(nodes: Seq<NodeView>, properties: Seq<PropertyView>, witness: int) -> (least:
    int)
    requires
        0 <= witness < properties.len(),
        dangles(nodes, properties[witness]),
    ensures
        0 <= least <= witness,
        dangles(nodes, properties[least]),
        forall|e: int| 0 <= e < least ==> !dangles(nodes, #[trigger] properties[e]),
    decreases witness,
{
    if exists|e: int| 0 <= e < witness && dangles(nodes, #[trigger] properties[e]) {
        let e = choose|e: int| 0 <= e < witness && dangles(nodes, #[trigger] properties[e]);
        first_dangling(nodes, properties, e)
    } else {
        witness
    }
}

/// A property whose domain is the id of no class fails the whole
/// construction, with an unknown-node error, as long as the class ids are
/// unique: the error names the domain or the range of the first property
/// that joins no two classes, which is that property or an earlier one.
pub proof fn lemma_missing_domain_fails(data: OntologyView, k: int)
    requires
        forall|j: int| 0 <= j < data.classes.len() ==> !repeats(data.classes, j),
        0 <= k < data.properties.len(),
        forall|i: int|
            0 <= i < data.classes.len() ==> (#[trigger] data.classes[i]).id
                != data.properties[k].domain,
    ensures
        build_failure(data) matches Some(detail) && exists|e: int|
            0 <= e <= k && (detail == unknown_node_detail((#[trigger] data.properties[e]).domain)
                || detail == unknown_node_detail(data.properties[e].range)),
{
    let nodes = nodes_of(data.classes);
    if has_id(nodes, data.properties[k].domain) {
        let h = handle_of(nodes, data.properties[k].domain);
        assert(data.classes[h].id == data.properties[k].domain);
    }
    assert(dangles(nodes, data.properties[k]));
    let first = first_dangling(nodes, data.properties, k);
    lemma_first_dangling(data, first);
}

} // verus!
