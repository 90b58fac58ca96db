use webvowl_wasm::graph::edge::EdgeBuilder;
use webvowl_wasm::graph::node::NodeBuilder;
use webvowl_wasm::graph::{EdgeCharacteristics, EdgeType, NodeType, SemanticAttributes, VisualAttributes};
use webvowl_wasm::scalar::Scalar;

fn scalar(value: f64) -> Scalar {
    Scalar::from_bits(value.to_bits())
}

fn number(value: Scalar) -> f64 {
    f64::from_bits(value.to_bits())
}

#[test]
fn test_node_builder_basic() {
    let node = NodeBuilder::new("test_node").label("Test Node").build();

    assert_eq!(node.id, "test_node");
    assert_eq!(node.label, "Test Node");
}

#[test]
fn test_node_builder_with_position() {
    let node = NodeBuilder::new("test")
        .position(scalar(100.0), scalar(200.0))
        .build();

    assert_eq!(number(node.visual.x), 100.0);
    assert_eq!(number(node.visual.y), 200.0);
}

#[test]
fn test_node_builder_external() {
    let node = NodeBuilder::new("external")
        .external(true)
        .iri("http://example.org/External")
        .build();

    assert!(node.semantic.external);
    assert_eq!(node.semantic.iri, "http://example.org/External");
}

#[test]
fn test_edge_builder_basic() {
    let edge = EdgeBuilder::new("test_edge").label("Test Edge").build();

    assert_eq!(edge.id, "test_edge");
    assert_eq!(edge.label, "Test Edge");
}

#[test]
fn test_edge_builder_functional() {
    let edge = EdgeBuilder::new("functional_prop").functional().build();

    assert!(edge.characteristics.functional);
    assert!(!edge.characteristics.transitive);
}

#[test]
fn test_edge_builder_cardinality() {
    let edge = EdgeBuilder::new("card_prop")
        .cardinality(Some(1), Some(1))
        .build();

    assert_eq!(edge.characteristics.cardinality, Some((Some(1), Some(1))));
}

#[test]
fn test_edge_builder_multiple_characteristics() {
    let edge = EdgeBuilder::new("complex")
        .functional()
        .transitive()
        .symmetric()
        .build();

    assert!(edge.characteristics.functional);
    assert!(edge.characteristics.transitive);
    assert!(edge.characteristics.symmetric);
}

#[test]
fn node_builder_defaults() {
    let node = NodeBuilder::new("plain").build();
    assert_eq!(node.id, "plain");
    assert_eq!(node.label, "plain");
    assert_eq!(node.node_type, NodeType::Class);
    assert_eq!(node.visual, VisualAttributes::default());
    assert_eq!(node.semantic, SemanticAttributes::default());
    assert_eq!(number(node.visual.x), 0.0);
    assert!(!node.visual.fixed);
    assert_eq!(node.visual.color, None);
    assert_eq!(node.semantic.individuals, None);
    assert!(node.semantic.equivalent.is_empty());
}

#[test]
fn node_builder_sets_each_part() {
    let node = NodeBuilder::new("n")
        .node_type(NodeType::Special("owl:Thing".to_string()))
        .weight(scalar(2.5))
        .position(scalar(-1.0), scalar(4.0))
        .label("first")
        .label("second")
        .build();
    assert_eq!(node.node_type, NodeType::Special("owl:Thing".to_string()));
    assert_eq!(number(node.visual.weight), 2.5);
    assert_eq!(number(node.visual.x), -1.0);
    assert_eq!(number(node.visual.y), 4.0);
    assert_eq!(node.label, "second");
    assert_eq!(node.id, "n");
}

#[test]
fn edge_builder_defaults_and_parts() {
    let edge = EdgeBuilder::new("e").build();
    assert_eq!(edge.label, "e");
    assert_eq!(edge.edge_type, EdgeType::ObjectProperty);
    assert_eq!(edge.characteristics, EdgeCharacteristics::default());
    assert_eq!(edge.characteristics.cardinality, None);

    let edge = EdgeBuilder::new("e")
        .edge_type(EdgeType::SubClass)
        .inverse_functional()
        .cardinality(None, Some(3))
        .build();
    assert_eq!(edge.edge_type, EdgeType::SubClass);
    assert!(edge.characteristics.inverse_functional);
    assert!(!edge.characteristics.functional);
    assert!(!edge.characteristics.symmetric);
    assert_eq!(edge.characteristics.cardinality, Some((None, Some(3))));
}
