use webvowl_wasm::ontology::json::JsonValue;
use webvowl_wasm::ontology::model::{OwlClassType, OwlPropertyType, SetOperator};
use webvowl_wasm::ontology::parser::{ParserConfig, StandardParser};
use webvowl_wasm::ontology::{
    Cardinality, ClassAttributes, ClassNode, Namespace, OntologyData, OntologyMetadata,
    OntologyParser, Property, PropertyCharacteristics, PropertyType,
};
use webvowl_wasm::VowlError;

fn text(s: &str) -> JsonValue {
    JsonValue::Text(s.to_string())
}

fn object(members: Vec<(&str, JsonValue)>) -> JsonValue {
    JsonValue::Object(members.into_iter().map(|(k, v)| (k.to_string(), v)).collect())
}

fn parse_error_detail(error: VowlError) -> String {
    match error {
        VowlError::ParseError(detail) => detail,
        other => panic!("expected a parse error, got {:?}", other),
    }
}

#[test]
fn test_ontology_data_creation() {
    let metadata = OntologyMetadata {
        iri: "http://example.org/ontology".to_string(),
        version: Some("1.0".to_string()),
        title: Some("Test Ontology".to_string()),
        description: None,
    };

    let data = OntologyData {
        metadata,
        classes: vec![],
        properties: vec![],
        namespaces: vec![],
    };

    assert_eq!(data.classes.len(), 0);
    assert_eq!(data.metadata.iri, "http://example.org/ontology");
}

#[test]
fn test_class_node_with_attributes() {
    let class = ClassNode {
        id: "class1".to_string(),
        iri: "http://example.org/Class1".to_string(),
        label: "Class 1".to_string(),
        class_type: "owl:Class".to_string(),
        equivalent: vec![],
        attributes: ClassAttributes {
            external: false,
            individuals: Some(10),
            properties: Vec::new(),
        },
    };

    assert_eq!(class.attributes.individuals, Some(10));
    assert!(!class.attributes.external);
}

#[test]
fn test_property_with_characteristics() {
    let prop = Property {
        id: "prop1".to_string(),
        iri: "http://example.org/prop1".to_string(),
        label: "Property 1".to_string(),
        property_type: PropertyType::ObjectProperty,
        domain: "class1".to_string(),
        range: "class2".to_string(),
        characteristics: PropertyCharacteristics {
            functional: true,
            transitive: false,
            symmetric: false,
            inverse_functional: false,
            cardinality: Some(Cardinality {
                min: Some(1),
                max: Some(1),
                exact: None,
            }),
        },
    };

    assert!(prop.characteristics.functional);
    assert_eq!(prop.characteristics.cardinality.as_ref().unwrap().min, Some(1));
}

#[test]
fn test_class_types() {
    assert_ne!(OwlClassType::Class, OwlClassType::Thing);
    assert_eq!(OwlClassType::Nothing, OwlClassType::Nothing);
}

#[test]
fn test_property_types() {
    let prop = OwlPropertyType::ObjectProperty;
    assert_eq!(prop, OwlPropertyType::ObjectProperty);
}

#[test]
fn set_operators_differ() {
    assert_ne!(SetOperator::Union, SetOperator::Intersection);
    assert_eq!(SetOperator::Complement, SetOperator::Complement);
    assert_ne!(OwlPropertyType::SubClassOf, OwlPropertyType::DisjointWith);
}

#[test]
fn test_parse_simple_ontology() {
    let json = r#"
        {
            "header": {
                "iri": "http://example.org/test",
                "title": "Test Ontology",
                "version": "1.0"
            },
            "namespace": {
                "owl": "http://www.w3.org/2002/07/owl#"
            },
            "class": [
                {
                    "id": "class1",
                    "iri": "http://example.org/Class1",
                    "label": "Class 1",
                    "type": "owl:Class"
                }
            ],
            "property": [
                {
                    "id": "prop1",
                    "iri": "http://example.org/prop1",
                    "label": "Property 1",
                    "type": "owl:ObjectProperty",
                    "domain": "class1",
                    "range": "class1"
                }
            ]
        }
        "#;

    let parser = StandardParser::new();
    let result = parser.parse(json);

    assert!(result.is_ok());
    let data = result.unwrap();
    assert_eq!(data.classes.len(), 1);
    assert_eq!(data.properties.len(), 1);
    assert_eq!(data.metadata.title, Some("Test Ontology".to_string()));
}

#[test]
fn test_parse_class_with_attributes() {
    let json = r#"
        {
            "class": [
                {
                    "id": "class1",
                    "label": "Class 1",
                    "external": true,
                    "individuals": 42
                }
            ],
            "property": []
        }
        "#;

    let parser = StandardParser::new();
    let result = parser.parse(json);

    assert!(result.is_ok());
    let data = result.unwrap();
    assert_eq!(data.classes.len(), 1);
    assert!(data.classes[0].attributes.external);
    assert_eq!(data.classes[0].attributes.individuals, Some(42));
}

#[test]
fn test_validate_invalid_domain() {
    let data = OntologyData {
        metadata: OntologyMetadata {
            iri: "test".to_string(),
            version: None,
            title: None,
            description: None,
        },
        classes: vec![ClassNode {
            id: "class1".to_string(),
            iri: "test".to_string(),
            label: "Test".to_string(),
            class_type: "owl:Class".to_string(),
            equivalent: vec![],
            attributes: ClassAttributes::default(),
        }],
        properties: vec![Property {
            id: "prop1".to_string(),
            iri: "test".to_string(),
            label: "Test".to_string(),
            property_type: PropertyType::ObjectProperty,
            domain: "invalid_class".to_string(),
            range: "class1".to_string(),
            characteristics: PropertyCharacteristics::default(),
        }],
        namespaces: vec![],
    };

    let parser = StandardParser::new();
    let result = parser.validate(&data);

    assert!(result.is_err());
}

#[test]
fn test_parser_config() {
    let config = ParserConfig {
        validate_iris: false,
        allow_empty_labels: true,
        max_classes: 10,
    };

    let parser = StandardParser::with_config(config.clone());
    assert!(!parser.config().validate_iris);
    assert!(parser.config().allow_empty_labels);
    assert_eq!(parser.config().max_classes, 10);
}

#[test]
fn test_graph_statistics() {
    let json = r#"
    {
        "class": [
            {"id": "a", "label": "A", "type": "owl:Class"},
            {"id": "b", "label": "B", "type": "owl:Class"},
            {"id": "c", "label": "C", "type": "owl:Class"}
        ],
        "property": [
            {"id": "p1", "label": "P1", "type": "owl:ObjectProperty", "domain": "a", "range": "b"},
            {"id": "p2", "label": "P2", "type": "owl:ObjectProperty", "domain": "b", "range": "c"},
            {"id": "p3", "label": "P3", "type": "owl:ObjectProperty", "domain": "a", "range": "c"}
        ]
    }
    "#;

    let parser = StandardParser::new();
    let ontology = parser.parse(json).expect("Parse failed");
    let graph = webvowl_wasm::graph::builder::GraphBuilder::from_ontology(&ontology)
        .expect("Build failed");

    let metadata = graph.metadata();
    assert_eq!(metadata.class_count, 3);
    assert_eq!(metadata.property_count, 3);
    let density = metadata.density.numerator as f64 / metadata.density.denominator as f64;
    assert!(density > 0.0);
    assert_eq!(density, 0.5);
}

#[test]
fn test_error_handling() {
    let parser = StandardParser::new();

    // Test invalid JSON
    let result = parser.parse("invalid json");
    assert!(result.is_err());

    // Test empty ontology (valid - empty arrays allowed)
    let json = r#"{"class": [], "property": []}"#;
    let result = parser.parse(json);
    assert!(result.is_ok(), "Empty ontology should be valid"); // Empty arrays are valid

    // Test invalid property reference
    let json = r#"
    {
        "class": [{"id": "a", "label": "A"}],
        "property": [{"id": "p1", "domain": "invalid", "range": "a"}]
    }
    "#;

    let ontology = parser.parse(json).unwrap();
    let result = parser.validate(&ontology);
    assert!(result.is_err());
}

#[test]
fn default_parser_config() {
    let config = ParserConfig::default();
    assert!(config.validate_iris);
    assert!(!config.allow_empty_labels);
    assert_eq!(config.max_classes, 0);
    assert_eq!(StandardParser::new().config(), config);
    assert_eq!(StandardParser::default().config(), config);
}

#[test]
fn invalid_json_is_a_parse_error() {
    let parser = StandardParser::new();
    for bad in ["", "{", "[1, 2", "{\"class\": [], \"property\": []} trailing", "nul"] {
        match parser.parse(bad) {
            Err(VowlError::ParseError(detail)) => assert!(!detail.is_empty()),
            other => panic!("expected a parse error for {:?}, got {:?}", bad, other),
        }
    }
}

#[test]
fn parse_reads_every_part_of_a_document() {
    let json = r#"
    {
        "header": {"iri": "http://example.org/o", "version": "2", "description": "D"},
        "namespaces": {"rdfs": "http://www.w3.org/2000/01/rdf-schema#", "bad": 5},
        "classes": [
            {"id": "a", "equivalent": ["b", 3, "c"], "attributes": {"colour": "red", "n": 1, "shape": "round"}},
            {"id": "b", "iri": "http://example.org/b", "label": "Bee", "type": "rdfs:Datatype", "individuals": -4}
        ],
        "properties": [
            {"id": "p", "type": "owl:DatatypeProperty", "domain": "a", "range": "b",
             "functional": true, "inverseFunctional": true, "symmetric": "yes",
             "cardinality": 2, "minCardinality": 1},
            {"id": "q", "type": "rdfs:subClassOf", "domain": "b", "range": "a", "minCardinality": 1},
            {"id": "r", "type": "owl:AnnotationProperty", "domain": "a", "range": "a", "cardinality": "many"}
        ]
    }
    "#;
    let data = StandardParser::new().parse(json).unwrap();

    assert_eq!(data.metadata.iri, "http://example.org/o");
    assert_eq!(data.metadata.version, Some("2".to_string()));
    assert_eq!(data.metadata.title, None);
    assert_eq!(data.metadata.description, Some("D".to_string()));

    assert_eq!(
        data.namespaces,
        vec![
            Namespace { prefix: "bad".to_string(), iri: String::new() },
            Namespace {
                prefix: "rdfs".to_string(),
                iri: "http://www.w3.org/2000/01/rdf-schema#".to_string()
            },
        ]
    );

    let a = &data.classes[0];
    assert_eq!(a.id, "a");
    assert_eq!(a.iri, "a");
    assert_eq!(a.label, "a");
    assert_eq!(a.class_type, "owl:Class");
    assert_eq!(a.equivalent, vec!["b".to_string(), "c".to_string()]);
    assert!(!a.attributes.external);
    assert_eq!(a.attributes.individuals, None);
    assert_eq!(
        a.attributes.properties,
        vec![
            ("colour".to_string(), "red".to_string()),
            ("shape".to_string(), "round".to_string())
        ]
    );
    let b = &data.classes[1];
    assert_eq!(b.iri, "http://example.org/b");
    assert_eq!(b.label, "Bee");
    assert_eq!(b.class_type, "rdfs:Datatype");
    assert_eq!(b.attributes.individuals, None);
    assert!(b.equivalent.is_empty());
    assert!(b.attributes.properties.is_empty());

    let p = &data.properties[0];
    assert_eq!(p.property_type, PropertyType::DatatypeProperty);
    assert_eq!(p.iri, "p");
    assert_eq!(p.label, "p");
    assert_eq!(p.domain, "a");
    assert_eq!(p.range, "b");
    assert!(p.characteristics.functional);
    assert!(p.characteristics.inverse_functional);
    assert!(!p.characteristics.transitive);
    assert!(!p.characteristics.symmetric);
    assert_eq!(
        p.characteristics.cardinality,
        Some(Cardinality { min: Some(1), max: None, exact: Some(2) })
    );
    let q = &data.properties[1];
    assert_eq!(q.property_type, PropertyType::SpecialProperty("rdfs:subClassOf".to_string()));
    assert_eq!(q.characteristics.cardinality, None);
    let r = &data.properties[2];
    assert_eq!(r.property_type, PropertyType::AnnotationProperty);
    assert_eq!(r.characteristics.cardinality, None);
}

#[test]
fn header_defaults() {
    let data = StandardParser::new().parse(r#"{"class": [], "property": []}"#).unwrap();
    assert_eq!(data.metadata.iri, "http://example.org/ontology");
    assert_eq!(data.metadata.version, None);
    assert_eq!(data.metadata.title, None);
    assert_eq!(data.metadata.description, None);
    assert!(data.namespaces.is_empty());
}

#[test]
fn class_is_preferred_over_classes() {
    let json = r#"{"class": [{"id": "one"}], "classes": [{"id": "x"}, {"id": "y"}], "property": []}"#;
    let data = StandardParser::new().parse(json).unwrap();
    assert_eq!(data.classes.len(), 1);
    assert_eq!(data.classes[0].id, "one");

    let json = r#"{"class": 3, "classes": [{"id": "x"}], "property": []}"#;
    let error = StandardParser::new().parse(json).unwrap_err();
    assert_eq!(parse_error_detail(error), "Missing 'class' array");
}

#[test]
fn missing_parts_are_parse_errors() {
    let parser = StandardParser::new();
    let cases = [
        (r#"{"property": []}"#, "Missing 'class' array"),
        (r#"{"class": []}"#, "Missing 'property' array"),
        (r#"{"class": [], "property": {}}"#, "Missing 'property' array"),
        (r#"[]"#, "Missing 'class' array"),
        (r#"{"class": [{"label": "L"}], "property": []}"#, "Missing class id"),
        (r#"{"class": [{"id": 7}], "property": []}"#, "Missing class id"),
        (r#"{"class": [{"id": "c", "label": ""}], "property": []}"#, "Empty label for class: c"),
        (r#"{"class": [{"id": ""}], "property": []}"#, "Empty label for class: "),
        (r#"{"class": [], "property": [{"domain": "a"}]}"#, "Missing property id"),
        (r#"{"class": [], "property": [{"id": "p", "range": "a"}]}"#, "Missing domain for property: p"),
        (r#"{"class": [], "property": [{"id": "p", "domain": "a"}]}"#, "Missing range for property: p"),
        (r#"{"class": [{"id": "a"}, {}], "property": [{}]}"#, "Missing class id"),
    ];
    for (json, expected) in cases {
        let error = parser.parse(json).unwrap_err();
        assert_eq!(parse_error_detail(error), expected, "for {}", json);
    }
}

#[test]
fn empty_labels_can_be_allowed() {
    let parser = StandardParser::with_config(ParserConfig {
        validate_iris: true,
        allow_empty_labels: true,
        max_classes: 0,
    });
    let data = parser
        .parse(r#"{"class": [{"id": "c", "label": ""}], "property": []}"#)
        .unwrap();
    assert_eq!(data.classes[0].label, "");
}

#[test]
fn max_classes_limits_what_is_read() {
    let json = r#"{"class": [{"id": "a"}, {"id": "b"}, {"label": "broken"}], "property": []}"#;
    let limited = StandardParser::with_config(ParserConfig {
        validate_iris: true,
        allow_empty_labels: false,
        max_classes: 2,
    });
    let data = limited.parse(json).unwrap();
    assert_eq!(data.classes.len(), 2);
    assert_eq!(data.classes[1].id, "b");

    let wide = StandardParser::with_config(ParserConfig {
        validate_iris: true,
        allow_empty_labels: false,
        max_classes: 5,
    });
    assert_eq!(parse_error_detail(wide.parse(json).unwrap_err()), "Missing class id");
    assert_eq!(
        parse_error_detail(StandardParser::new().parse(json).unwrap_err()),
        "Missing class id"
    );
}

#[test]
fn cardinalities_are_cut_to_32_bits() {
    let json = r#"{"class": [], "property": [
        {"id": "p", "domain": "a", "range": "b", "cardinality": 4294967297, "maxCardinality": 4294967296}
    ]}"#;
    let data = StandardParser::new().parse(json).unwrap();
    assert_eq!(
        data.properties[0].characteristics.cardinality,
        Some(Cardinality { min: None, max: Some(0), exact: Some(1) })
    );
    assert_eq!(data.properties[0].property_type, PropertyType::ObjectProperty);
}

#[test]
fn parse_document_reads_a_hand_built_tree() {
    let doc = object(vec![
        (
            "class",
            JsonValue::List(vec![object(vec![
                ("id", text("first")),
                ("id", text("second")),
                ("external", JsonValue::Bool(true)),
                ("individuals", JsonValue::Number(Some(3))),
            ])]),
        ),
        ("property", JsonValue::List(vec![])),
        ("header", JsonValue::Null),
    ]);
    let data = StandardParser::new().parse_document(&doc).unwrap();
    assert_eq!(data.classes[0].id, "first");
    assert!(data.classes[0].attributes.external);
    assert_eq!(data.classes[0].attributes.individuals, Some(3));
    assert_eq!(data.metadata.iri, "http://example.org/ontology");

    assert_eq!(doc.get("class").unwrap().as_array().unwrap().len(), 1);
    assert!(doc.get("missing").is_none());
    assert!(JsonValue::Null.get("class").is_none());
    assert_eq!(text("t").as_str(), Some("t"));
    assert_eq!(JsonValue::Bool(false).as_bool(), Some(false));
    assert_eq!(JsonValue::Number(None).as_u64(), None);
    assert_eq!(JsonValue::Number(Some(8)).as_u64(), Some(8));
    assert!(text("t").as_object().is_none());
    assert_eq!(doc.as_object().unwrap().len(), 3);
}

#[test]
fn validate_accepts_known_domains_and_any_range() {
    let parser = StandardParser::new();
    let json = r#"
    {
        "class": [{"id": "a"}, {"id": "b"}],
        "property": [
            {"id": "p1", "domain": "a", "range": "xsd:string"},
            {"id": "p2", "domain": "b", "range": "nowhere"}
        ]
    }
    "#;
    let data = parser.parse(json).unwrap();
    assert!(parser.validate(&data).is_ok());
}

#[test]
fn validate_reports_the_first_unknown_domain() {
    let parser = StandardParser::new();
    let json = r#"
    {
        "class": [{"id": "a"}],
        "property": [
            {"id": "p1", "domain": "a", "range": "a"},
            {"id": "p2", "domain": "x", "range": "a"},
            {"id": "p3", "domain": "y", "range": "a"}
        ]
    }
    "#;
    let data = parser.parse(json).unwrap();
    match parser.validate(&data) {
        Err(VowlError::InvalidData(detail)) => {
            assert_eq!(detail, "Property 'p2' references unknown domain class: x")
        }
        other => panic!("expected invalid data, got {:?}", other),
    }
}

#[test]
fn range_warnings_name_doubtful_ranges_before_the_first_unknown_domain() {
    let parser = StandardParser::new();
    let json = r#"
    {
        "class": [{"id": "a"}, {"id": "xsd"}],
        "property": [
            {"id": "p1", "domain": "a", "range": "a"},
            {"id": "p2", "domain": "a", "range": "xsd:string"},
            {"id": "p3", "domain": "a", "range": "xsd"},
            {"id": "p4", "domain": "a", "range": "xs:string"},
            {"id": "p5", "domain": "xsd", "range": "Xsd:int"},
            {"id": "p6", "domain": "a", "range": "xsd:"},
            {"id": "p7", "domain": "a", "range": ""},
            {"id": "p8", "domain": "nowhere", "range": "nowhere"},
            {"id": "p9", "domain": "a", "range": "later"}
        ]
    }
    "#;
    let data = parser.parse(json).unwrap();
    assert_eq!(
        parser.range_warnings(&data),
        vec![
            "Warning: Property 'p4' references possibly unknown range: xs:string".to_string(),
            "Warning: Property 'p5' references possibly unknown range: Xsd:int".to_string(),
            "Warning: Property 'p7' references possibly unknown range: ".to_string(),
        ]
    );
    assert!(parser.validate(&data).is_err());

    let clean = parser
        .parse(r#"{"class": [{"id": "a"}], "property": [{"id": "p", "domain": "a", "range": "b"}]}"#)
        .unwrap();
    assert_eq!(
        parser.range_warnings(&clean),
        vec!["Warning: Property 'p' references possibly unknown range: b".to_string()]
    );
    assert!(parser.validate(&clean).is_ok());
    let none = parser.parse(r#"{"class": [], "property": []}"#).unwrap();
    assert!(parser.range_warnings(&none).is_empty());
}
