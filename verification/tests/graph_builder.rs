use webvowl_wasm::graph::builder::GraphBuilder;
use webvowl_wasm::graph::{EdgeType, NodeType, Ratio};
use webvowl_wasm::ontology::{
    Cardinality, ClassAttributes, ClassNode, OntologyData, OntologyMetadata, Property,
    PropertyCharacteristics, PropertyType,
};
use webvowl_wasm::VowlError;

fn class(id: &str, label: &str, class_type: &str) -> ClassNode {
    ClassNode {
        id: id.to_string(),
        iri: format!("http://test.org/{}", id),
        label: label.to_string(),
        class_type: class_type.to_string(),
        equivalent: vec![],
        attributes: ClassAttributes::default(),
    }
}

fn property(id: &str, property_type: PropertyType, domain: &str, range: &str) -> Property {
    Property {
        id: id.to_string(),
        iri: format!("http://test.org/{}", id),
        label: id.to_string(),
        property_type,
        domain: domain.to_string(),
        range: range.to_string(),
        characteristics: PropertyCharacteristics::default(),
    }
}

fn ontology(classes: Vec<ClassNode>, properties: Vec<Property>) -> OntologyData {
    OntologyData {
        metadata: OntologyMetadata {
            iri: "http://test.org/onto".to_string(),
            version: None,
            title: None,
            description: None,
        },
        classes,
        properties,
        namespaces: vec![],
    }
}

fn create_test_ontology() -> OntologyData {
    OntologyData {
        metadata: OntologyMetadata {
            iri: "http://test.org/onto".to_string(),
            version: None,
            title: None,
            description: None,
        },
        classes: vec![
            ClassNode {
                id: "class1".to_string(),
                iri: "http://test.org/Class1".to_string(),
                label: "Class 1".to_string(),
                class_type: "owl:Class".to_string(),
                equivalent: vec![],
                attributes: ClassAttributes::default(),
            },
            ClassNode {
                id: "class2".to_string(),
                iri: "http://test.org/Class2".to_string(),
                label: "Class 2".to_string(),
                class_type: "owl:Class".to_string(),
                equivalent: vec![],
                attributes: ClassAttributes::default(),
            },
        ],
        properties: vec![Property {
            id: "prop1".to_string(),
            iri: "http://test.org/prop1".to_string(),
            label: "Property 1".to_string(),
            property_type: PropertyType::ObjectProperty,
            domain: "class1".to_string(),
            range: "class2".to_string(),
            characteristics: PropertyCharacteristics {
                functional: true,
                ..Default::default()
            },
        }],
        namespaces: vec![],
    }
}

fn graph_error_detail(error: VowlError) -> String {
    match error {
        VowlError::GraphError(detail) => detail,
        other => panic!("expected a graph error, got {:?}", other),
    }
}

#[test]
fn test_build_from_ontology() {
    let ontology = create_test_ontology();
    let result = GraphBuilder::from_ontology(&ontology);

    assert!(result.is_ok());
    let graph = result.unwrap();

    assert_eq!(graph.node_count(), 2);
    assert_eq!(graph.edge_count(), 1);
}

#[test]
fn test_node_mapping() {
    let ontology = create_test_ontology();
    let graph = GraphBuilder::from_ontology(&ontology).unwrap();

    let node = graph.get_node("class1");
    assert!(node.is_some());
    assert_eq!(node.unwrap().label, "Class 1");
}

#[test]
fn test_edge_characteristics() {
    let ontology = create_test_ontology();
    let graph = GraphBuilder::from_ontology(&ontology).unwrap();

    let edges = graph.edges();
    assert_eq!(edges.len(), 1);
    assert!(edges[0].characteristics.functional);
}

#[test]
fn test_metadata_update() {
    let ontology = create_test_ontology();
    let graph = GraphBuilder::from_ontology(&ontology).unwrap();

    assert_eq!(graph.metadata().class_count, 2);
    assert_eq!(graph.metadata().property_count, 1);
}

#[test]
fn class_types_map_to_node_types() {
    assert_eq!(GraphBuilder::map_node_type("owl:Class"), NodeType::Class);
    assert_eq!(GraphBuilder::map_node_type("rdfs:Class"), NodeType::Class);
    assert_eq!(GraphBuilder::map_node_type("rdfs:Datatype"), NodeType::Datatype);
    assert_eq!(GraphBuilder::map_node_type("xsd:*"), NodeType::Datatype);
    assert_eq!(
        GraphBuilder::map_node_type("owl:Thing"),
        NodeType::Special("owl:Thing".to_string())
    );
    assert_eq!(
        GraphBuilder::map_node_type("owl:class"),
        NodeType::Special("owl:class".to_string())
    );
    assert_eq!(GraphBuilder::map_node_type(""), NodeType::Special(String::new()));
}

#[test]
fn property_types_map_to_edge_types() {
    assert_eq!(
        GraphBuilder::map_edge_type(&PropertyType::ObjectProperty),
        EdgeType::ObjectProperty
    );
    assert_eq!(
        GraphBuilder::map_edge_type(&PropertyType::DatatypeProperty),
        EdgeType::DatatypeProperty
    );
    assert_eq!(
        GraphBuilder::map_edge_type(&PropertyType::AnnotationProperty),
        EdgeType::Special("annotation".to_string())
    );
    assert_eq!(
        GraphBuilder::map_edge_type(&PropertyType::SpecialProperty("rdfs:subclassOf".to_string())),
        EdgeType::SubClass
    );
    assert_eq!(
        GraphBuilder::map_edge_type(&PropertyType::SpecialProperty("subclass".to_string())),
        EdgeType::SubClass
    );
    assert_eq!(
        GraphBuilder::map_edge_type(&PropertyType::SpecialProperty("rdfs:subClassOf".to_string())),
        EdgeType::Special("rdfs:subClassOf".to_string())
    );
    assert_eq!(
        GraphBuilder::map_edge_type(&PropertyType::SpecialProperty("owl:disjointWith".to_string())),
        EdgeType::Special("owl:disjointWith".to_string())
    );
}

#[test]
fn class_becomes_node_with_iri_and_external_flag() {
    let mut external = class("ext", "External", "rdfs:Datatype");
    external.attributes.external = true;
    external.attributes.individuals = Some(7);
    external.equivalent = vec!["other".to_string()];
    let graph = GraphBuilder::from_ontology(&ontology(vec![external], vec![])).unwrap();
    let node = graph.get_node("ext").unwrap();
    assert_eq!(node.label, "External");
    assert_eq!(node.node_type, NodeType::Datatype);
    assert_eq!(node.semantic.iri, "http://test.org/ext");
    assert!(node.semantic.external);
    assert_eq!(node.semantic.individuals, None);
    assert!(node.semantic.equivalent.is_empty());
    assert_eq!(graph.metadata().class_count, 0);
}

#[test]
fn property_becomes_edge_with_flags_and_cardinality() {
    let mut p = property("p", PropertyType::SpecialProperty("subclassOf".to_string()), "a", "b");
    p.label = "is a".to_string();
    p.characteristics = PropertyCharacteristics {
        functional: false,
        inverse_functional: true,
        transitive: true,
        symmetric: false,
        cardinality: Some(Cardinality { min: Some(1), max: None, exact: Some(9) }),
    };
    let data = ontology(vec![class("a", "A", "owl:Class"), class("b", "B", "owl:Class")], vec![p]);
    let graph = GraphBuilder::from_ontology(&data).unwrap();
    let edges = graph.edges();
    assert_eq!(edges[0].id, "p");
    assert_eq!(edges[0].label, "is a");
    assert_eq!(edges[0].edge_type, EdgeType::SubClass);
    assert!(!edges[0].characteristics.functional);
    assert!(edges[0].characteristics.inverse_functional);
    assert!(edges[0].characteristics.transitive);
    assert!(!edges[0].characteristics.symmetric);
    assert_eq!(edges[0].characteristics.cardinality, Some((Some(1), None)));
    assert_eq!(graph.neighbors("a").unwrap()[0].id, "b");
    assert_eq!(graph.degree("b").unwrap(), 0);
}

#[test]
fn unknown_domain_fails_the_whole_build() {
    let data = ontology(
        vec![class("a", "A", "owl:Class"), class("b", "B", "owl:Class")],
        vec![
            property("ok", PropertyType::ObjectProperty, "a", "b"),
            property("bad", PropertyType::ObjectProperty, "missing", "b"),
        ],
    );
    let error = GraphBuilder::from_ontology(&data).err().unwrap();
    assert_eq!(graph_error_detail(error), "Node 'missing' not found");
}

#[test]
fn unknown_range_fails_the_whole_build() {
    let data = ontology(
        vec![class("a", "A", "owl:Class")],
        vec![property("bad", PropertyType::DatatypeProperty, "a", "xsd:string")],
    );
    let error = GraphBuilder::from_ontology(&data).err().unwrap();
    assert_eq!(graph_error_detail(error), "Node 'xsd:string' not found");
}

#[test]
fn repeated_class_id_fails_the_whole_build() {
    let data = ontology(
        vec![
            class("a", "A", "owl:Class"),
            class("b", "B", "owl:Class"),
            class("a", "A again", "owl:Class"),
        ],
        vec![property("bad", PropertyType::ObjectProperty, "missing", "b")],
    );
    let error = GraphBuilder::from_ontology(&data).err().unwrap();
    assert_eq!(graph_error_detail(error), "Node with id 'a' already exists");
}

#[test]
fn empty_ontology_builds_an_empty_graph() {
    let graph = GraphBuilder::from_ontology(&ontology(vec![], vec![])).unwrap();
    assert_eq!(graph.node_count(), 0);
    assert_eq!(graph.edge_count(), 0);
    assert_eq!(graph.metadata().density, Ratio { numerator: 0, denominator: 1 });
    let built = GraphBuilder::new().build();
    assert_eq!(built.node_count(), 0);
    assert_eq!(built.edge_count(), 0);
}

#[test]
fn build_computes_statistics_once_at_the_end() {
    let data = ontology(
        vec![
            class("a", "A", "owl:Class"),
            class("b", "B", "rdfs:Class"),
            class("c", "C", "rdfs:Datatype"),
        ],
        vec![
            property("p1", PropertyType::ObjectProperty, "a", "b"),
            property("p2", PropertyType::ObjectProperty, "b", "c"),
            property("p3", PropertyType::ObjectProperty, "a", "c"),
        ],
    );
    let graph = GraphBuilder::from_ontology(&data).unwrap();
    assert_eq!(graph.metadata().class_count, 2);
    assert_eq!(graph.metadata().property_count, 3);
    assert_eq!(graph.metadata().max_degree, 2);
    assert_eq!(graph.metadata().density, Ratio { numerator: 3, denominator: 6 });
}
