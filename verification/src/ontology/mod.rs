//! A validated ontology: its classes, its properties and what is known of
//! the document they came from.

pub mod json;
pub mod model;
pub mod parser;

use crate::error::VowlError;
use crate::text::{option_text, texts};
use vstd::prelude::*;

verus! {

/// Something that reads ontologies from JSON text and checks them.
pub trait OntologyParser {
    /// Reads an ontology from JSON text.
    fn parse(&self, json: &str) -> Result<OntologyData, VowlError>;

    /// Checks that an ontology is consistent.
    fn validate(&self, data: &OntologyData) -> Result<(), VowlError>;
}

/// What the document says of itself.
#[derive(Debug, Clone, PartialEq)]
pub struct OntologyMetadata {
    /// The ontology's IRI.
    pub iri: String,
    /// Its version.
    pub version: Option<String>,
    /// Its title.
    pub title: Option<String>,
    /// Its description.
    pub description: Option<String>,
}

/// The mathematical value of an [`OntologyMetadata`].
pub struct OntologyMetadataView {
    pub iri: Seq<char>,
    pub version: Option<Seq<char>>,
    pub title: Option<Seq<char>>,
    pub description: Option<Seq<char>>,
}

impl View for OntologyMetadata {
    type V = OntologyMetadataView;

    open spec fn view(&self) -> OntologyMetadataView {
        OntologyMetadataView {
            iri: self.iri@,
            version: option_text(self.version),
            title: option_text(self.title),
            description: option_text(self.description),
        }
    }
}

/// What is known of a class beyond its name.
#[derive(Debug, Clone, PartialEq)]
pub struct ClassAttributes {
    /// Whether the class is defined outside the ontology.
    pub external: bool,
    /// How many individuals the class has, when known.
    pub individuals: Option<usize>,
    /// Further properties, as pairs of name and value.
    pub properties: Vec<(String, String)>,
}

/// The mathematical value of a [`ClassAttributes`].
pub struct ClassAttributesView {
    pub external: bool,
    pub individuals: Option<usize>,
    pub properties: Seq<(Seq<char>, Seq<char>)>,
}

impl View for ClassAttributes {
    type V = ClassAttributesView;

    open spec fn view(&self) -> ClassAttributesView {
        ClassAttributesView {
            external: self.external,
            individuals: self.individuals,
            properties: self.properties@.map_values(|p: (String, String)| (p.0@, p.1@)),
        }
    }
}

impl ClassAttributesView {
    /// Internal, with nothing else known.
    pub open spec fn initial() -> ClassAttributesView {
        ClassAttributesView { external: false, individuals: None, properties: Seq::empty() }
    }
}

impl Default for ClassAttributes {
    fn default() -> (a: ClassAttributes)
        ensures
            a@ == ClassAttributesView::initial(),
    {
        let a = ClassAttributes { external: false, individuals: None, properties: Vec::new() };
        assert(a@.properties =~= Seq::empty());
        a
    }
}

/// A class of the ontology.
#[derive(Debug, Clone, PartialEq)]
pub struct ClassNode {
    /// Unique identifier.
    pub id: String,
    /// The class's IRI.
    pub iri: String,
    /// Display label.
    pub label: String,
    /// The kind of class, as the ontology names it.
    pub class_type: String,
    /// Ids of equivalent classes.
    pub equivalent: Vec<String>,
    /// What else is known of the class.
    pub attributes: ClassAttributes,
}

/// The mathematical value of a [`ClassNode`].
pub struct ClassNodeView {
    pub id: Seq<char>,
    pub iri: Seq<char>,
    pub label: Seq<char>,
    pub class_type: Seq<char>,
    pub equivalent: Seq<Seq<char>>,
    pub attributes: ClassAttributesView,
}

impl View for ClassNode {
    type V = ClassNodeView;

    open spec fn view(&self) -> ClassNodeView {
        ClassNodeView {
            id: self.id@,
            iri: self.iri@,
            label: self.label@,
            class_type: self.class_type@,
            equivalent: texts(self.equivalent@),
            attributes: self.attributes@,
        }
    }
}

/// The kind of a property.
#[derive(Debug, Clone, PartialEq)]
pub enum PropertyType {
    /// A property between two classes.
    ObjectProperty,
    /// A property from a class to a datatype.
    DatatypeProperty,
    /// An annotation.
    AnnotationProperty,
    /// Anything else, under the name the ontology gave it.
    SpecialProperty(String),
}

/// The mathematical value of a [`PropertyType`].
pub enum PropertyTypeView {
    ObjectProperty,
    DatatypeProperty,
    AnnotationProperty,
    SpecialProperty(Seq<char>),
}

impl View for PropertyType {
    type V = PropertyTypeView;

    open spec fn view(&self) -> PropertyTypeView {
        match self {
            PropertyType::ObjectProperty => PropertyTypeView::ObjectProperty,
            PropertyType::DatatypeProperty => PropertyTypeView::DatatypeProperty,
            PropertyType::AnnotationProperty => PropertyTypeView::AnnotationProperty,
            PropertyType::SpecialProperty(name) => PropertyTypeView::SpecialProperty(name@),
        }
    }
}

/// Bounds on the number of values of a property.
#[derive(Debug, Clone, Copy, PartialEq, Eq, Structural)]
pub struct Cardinality {
    /// Lower bound.
    pub min: Option<u32>,
    /// Upper bound.
    pub max: Option<u32>,
    /// Exact number.
    pub exact: Option<u32>,
}

/// The characteristics of a property.
#[derive(Debug, Clone, Copy, PartialEq, Eq, Structural)]
pub struct PropertyCharacteristics {
    /// At most one value per subject.
    pub functional: bool,
    /// At most one subject per value.
    pub inverse_functional: bool,
    /// Closed under composition with itself.
    pub transitive: bool,
    /// Holds in both directions.
    pub symmetric: bool,
    /// Bounds on the number of values.
    pub cardinality: Option<Cardinality>,
}

impl PropertyCharacteristics {
    /// No characteristic set and no cardinality.
    pub open spec fn initial() -> PropertyCharacteristics {
        PropertyCharacteristics {
            functional: false,
            inverse_functional: false,
            transitive: false,
            symmetric: false,
            cardinality: None,
        }
    }
}

impl Default for PropertyCharacteristics {
    fn default() -> (c: PropertyCharacteristics)
        ensures
            c == PropertyCharacteristics::initial(),
    {
        PropertyCharacteristics {
            functional: false,
            inverse_functional: false,
            transitive: false,
            symmetric: false,
            cardinality: None,
        }
    }
}

/// A property of the ontology, from a domain class to a range.
#[derive(Debug, Clone, PartialEq)]
pub struct Property {
    /// Unique identifier.
    pub id: String,
    /// The property's IRI.
    pub iri: String,
    /// Display label.
    pub label: String,
    /// Kind of property.
    pub property_type: PropertyType,
    /// Id of the domain class.
    pub domain: String,
    /// Id of the range class or datatype.
    pub range: String,
    /// Characteristics of the property.
    pub characteristics: PropertyCharacteristics,
}

/// The mathematical value of a [`Property`].
pub struct PropertyView {
    pub id: Seq<char>,
    pub iri: Seq<char>,
    pub label: Seq<char>,
    pub property_type: PropertyTypeView,
    pub domain: Seq<char>,
    pub range: Seq<char>,
    pub characteristics: PropertyCharacteristics,
}

impl View for Property {
    type V = PropertyView;

    open spec fn view(&self) -> PropertyView {
        PropertyView {
            id: self.id@,
            iri: self.iri@,
            label: self.label@,
            property_type: self.property_type@,
            domain: self.domain@,
            range: self.range@,
            characteristics: self.characteristics,
        }
    }
}

/// A namespace prefix and the IRI it abbreviates.
#[derive(Debug, Clone, PartialEq)]
pub struct Namespace {
    /// The prefix.
    pub prefix: String,
    /// The IRI.
    pub iri: String,
}

/// The mathematical value of a [`Namespace`].
pub struct NamespaceView {
    pub prefix: Seq<char>,
    pub iri: Seq<char>,
}

impl View for Namespace {
    type V = NamespaceView;

    open spec fn view(&self) -> NamespaceView {
        NamespaceView { prefix: self.prefix@, iri: self.iri@ }
    }
}

/// An ontology as read from a document.
#[derive(Debug, Clone, PartialEq)]
pub struct OntologyData {
    /// What the document says of itself.
    pub metadata: OntologyMetadata,
    /// The classes.
    pub classes: Vec<ClassNode>,
    /// The properties.
    pub properties: Vec<Property>,
    /// The namespaces.
    pub namespaces: Vec<Namespace>,
}

/// The mathematical value of an [`OntologyData`].
pub struct OntologyView {
    pub metadata: OntologyMetadataView,
    pub classes: Seq<ClassNodeView>,
    pub properties: Seq<PropertyView>,
    pub namespaces: Seq<NamespaceView>,
}

impl View for OntologyData {
    type V = OntologyView;

    open spec fn view(&self) -> OntologyView {
        OntologyView {
            metadata: self.metadata@,
            classes: self.classes@.map_values(|c: ClassNode| c@),
            properties: self.properties@.map_values(|p: Property| p@),
            namespaces: self.namespaces@.map_values(|n: Namespace| n@),
        }
    }
}

} // verus!
