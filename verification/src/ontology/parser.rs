//! Reading an ontology from a JSON document.

use super::json::{json_error_text, parsed_json, read_json, JsonValue};
use super::{
    Cardinality, ClassAttributes, ClassAttributesView, ClassNode, ClassNodeView, Namespace,
    NamespaceView, OntologyData, OntologyMetadata, OntologyMetadataView, OntologyParser,
    OntologyView, Property, PropertyCharacteristics, PropertyType, PropertyTypeView, PropertyView,
};
use crate::error::VowlError;
use crate::text::{str_eq, texts};
use vstd::hash_map::StringHashMap;
use vstd::prelude::*;
use vstd::string::{StrSliceExecFns, StringExecFns};

verus! {

/// How a document is read.
#[derive(Debug, Clone, Copy, PartialEq, Eq, Structural)]
pub struct ParserConfig {
    /// Whether IRIs are to be checked.
    pub validate_iris: bool,
    /// Whether a class may have an empty label.
    pub allow_empty_labels: bool,
    /// How many classes are read at most; zero for all of them.
    pub max_classes: usize,
}

impl ParserConfig {
    /// IRIs checked, no empty labels, all classes read.
    pub open spec fn standard() -> ParserConfig {
        ParserConfig { validate_iris: true, allow_empty_labels: false, max_classes: 0 }
    }
}

impl Default for ParserConfig {
    fn default() -> (c: ParserConfig)
        ensures
            c == ParserConfig::standard(),
    {
        ParserConfig { validate_iris: true, allow_empty_labels: false, max_classes: 0 }
    }
}

/// The string under a name in an object, if there is one.
pub open spec fn text_member(v: JsonValue, key: Seq<char>) -> Option<Seq<char>> {
    match v.member(key) {
        Some(m) => m.text(),
        None => None,
    }
}

/// The boolean under a name in an object; false when there is none.
pub open spec fn flag_member(v: JsonValue, key: Seq<char>) -> bool {
    match v.member(key) {
        Some(m) => match m.boolean() {
            Some(b) => b,
            None => false,
        },
        None => false,
    }
}

/// The unsigned integer under a name in an object, if there is one.
pub open spec fn unsigned_member(v: JsonValue, key: Seq<char>) -> Option<u64> {
    match v.member(key) {
        Some(m) => m.unsigned(),
        None => None,
    }
}

/// The member under the first name, or, when the object has none, under the
/// second.
pub open spec fn either_member(v: JsonValue, first: Seq<char>, second: Seq<char>) -> Option<
    JsonValue,
> {
    match v.member(first) {
        Some(m) => Some(m),
        None => v.member(second),
    }
}

/// The strings among the items, in order.
pub open spec fn strings_among(items: Seq<JsonValue>) -> Seq<Seq<char>>
    decreases items.len(),
{
    if items.len() == 0 {
        Seq::empty()
    } else {
        match items.last().text() {
            Some(t) => strings_among(items.drop_last()).push(t),
            None => strings_among(items.drop_last()),
        }
    }
}

/// The members whose value is a string, as pairs of name and value, in
/// order.
pub open spec fn text_pairs(members: Seq<(String, JsonValue)>) -> Seq<(Seq<char>, Seq<char>)>
    decreases members.len(),
{
    if members.len() == 0 {
        Seq::empty()
    } else {
        match members.last().1.text() {
            Some(t) => text_pairs(members.drop_last()).push((members.last().0@, t)),
            None => text_pairs(members.drop_last()),
        }
    }
}

/// What a class object says beyond the class's name: `external`,
/// `individuals`, and the string members of `attributes`.
pub open spec fn attributes_model(v: JsonValue) -> ClassAttributesView {
    ClassAttributesView {
        external: flag_member(v, "external"@),
        individuals: match unsigned_member(v, "individuals"@) {
            Some(n) => Some(n as usize),
            None => None,
        },
        properties: match v.member("attributes"@) {
            Some(a) => match a.members() {
                Some(members) => text_pairs(members),
                None => Seq::empty(),
            },
            None => Seq::empty(),
        },
    }
}

/// The class that a class object describes, or why it describes none. The
/// IRI and the label default to the id, the type to `owl:Class`.
pub open spec fn class_model(v: JsonValue, config: ParserConfig) -> Result<
    ClassNodeView,
    Seq<char>,
> {
    match text_member(v, "id"@) {
        None => Err("Missing class id"@),
        Some(id) => {
            let label = match text_member(v, "label"@) {
                Some(l) => l,
                None => id,
            };
            if !config.allow_empty_labels && label.len() == 0 {
                Err("Empty label for class: "@ + id)
            } else {
                Ok(
                    ClassNodeView {
                        id: id,
                        iri: match text_member(v, "iri"@) {
                            Some(i) => i,
                            None => id,
                        },
                        label: label,
                        class_type: match text_member(v, "type"@) {
                            Some(t) => t,
                            None => "owl:Class"@,
                        },
                        equivalent: match v.member("equivalent"@) {
                            Some(e) => match e.items() {
                                Some(items) => strings_among(items),
                                None => Seq::empty(),
                            },
                            None => Seq::empty(),
                        },
                        attributes: attributes_model(v),
                    },
                )
            }
        },
    }
}

/// The classes of the items in order, or the reason of the first item that
/// describes none.
pub open spec fn class_list_model(items: Seq<JsonValue>, config: ParserConfig) -> Result<
    Seq<ClassNodeView>,
    Seq<char>,
>
    decreases items.len(),
{
    if items.len() == 0 {
        Ok(Seq::empty())
    } else {
        match class_list_model(items.drop_last(), config) {
            Err(e) => Err(e),
            Ok(done) => match class_model(items.last(), config) {
                Err(e) => Err(e),
                Ok(c) => Ok(done.push(c)),
            },
        }
    }
}

/// The items that are read when at most `max` are wanted, zero meaning all.
pub open spec fn limited(items: Seq<JsonValue>, max: usize) -> Seq<JsonValue> {
    if max > 0 && items.len() > max {
        items.take(max as int)
    } else {
        items
    }
}

/// The classes of a document: those of the array under `class`, or under
/// `classes` when there is no `class`, up to the configured number.
pub open spec fn classes_model(doc: JsonValue, config: ParserConfig) -> Result<
    Seq<ClassNodeView>,
    Seq<char>,
> {
    match either_member(doc, "class"@, "classes"@) {
        None => Err("Missing 'class' array"@),
        Some(m) => match m.items() {
            None => Err("Missing 'class' array"@),
            Some(items) => class_list_model(limited(items, config.max_classes), config),
        },
    }
}

/// The kind of property that a property object names; an object property
/// when it names none.
pub open spec fn property_type_model(v: JsonValue) -> PropertyTypeView {
    match text_member(v, "type"@) {
        None => PropertyTypeView::ObjectProperty,
        Some(t) => if t == "owl:ObjectProperty"@ {
            PropertyTypeView::ObjectProperty
        } else if t == "owl:DatatypeProperty"@ {
            PropertyTypeView::DatatypeProperty
        } else if t == "owl:AnnotationProperty"@ {
            PropertyTypeView::AnnotationProperty
        } else {
            PropertyTypeView::SpecialProperty(t)
        },
    }
}

/// An unsigned integer cut down to 32 bits.
pub open spec fn low_bits(n: Option<u64>) -> Option<u32> {
    match n {
        Some(n) => Some(n as u32),
        None => None,
    }
}

/// The cardinality that a property object gives. Without a member named
/// `cardinality` there is none, whatever else the object holds; with one,
/// the bounds are read from `minCardinality`, `maxCardinality` and
/// `cardinality`, and there is a cardinality if any of them is a number.
pub open spec fn cardinality_model(v: JsonValue) -> Option<Cardinality> {
    if v.member("cardinality"@) is None {
        None
    } else {
        let min = low_bits(unsigned_member(v, "minCardinality"@));
        let max = low_bits(unsigned_member(v, "maxCardinality"@));
        let exact = low_bits(unsigned_member(v, "cardinality"@));
        if min is Some || max is Some || exact is Some {
            Some(Cardinality { min, max, exact })
        } else {
            None
        }
    }
}

/// The characteristics that a property object gives.
pub open spec fn characteristics_model(v: JsonValue) -> PropertyCharacteristics {
    PropertyCharacteristics {
        functional: flag_member(v, "functional"@),
        inverse_functional: flag_member(v, "inverseFunctional"@),
        transitive: flag_member(v, "transitive"@),
        symmetric: flag_member(v, "symmetric"@),
        cardinality: cardinality_model(v),
    }
}

/// The property that a property object describes, or why it describes
/// none. The IRI and the label default to the id.
pub open spec fn property_model(v: JsonValue) -> Result<PropertyView, Seq<char>> {
    match text_member(v, "id"@) {
        None => Err("Missing property id"@),
        Some(id) => match text_member(v, "domain"@) {
            None => Err("Missing domain for property: "@ + id),
            Some(domain) => match text_member(v, "range"@) {
                None => Err("Missing range for property: "@ + id),
                Some(range) => Ok(
                    PropertyView {
                        id: id,
                        iri: match text_member(v, "iri"@) {
                            Some(i) => i,
                            None => id,
                        },
                        label: match text_member(v, "label"@) {
                            Some(l) => l,
                            None => id,
                        },
                        property_type: property_type_model(v),
                        domain: domain,
                        range: range,
                        characteristics: characteristics_model(v),
                    },
                ),
            },
        },
    }
}

/// The properties of the items in order, or the reason of the first item
/// that describes none.
pub open spec fn property_list_model(items: Seq<JsonValue>) -> Result<
    Seq<PropertyView>,
    Seq<char>,
>
    decreases items.len(),
{
    if items.len() == 0 {
        Ok(Seq::empty())
    } else {
        match property_list_model(items.drop_last()) {
            Err(e) => Err(e),
            Ok(done) => match property_model(items.last()) {
                Err(e) => Err(e),
                Ok(p) => Ok(done.push(p)),
            },
        }
    }
}

/// The properties of a document: those of the array under `property`, or
/// under `properties` when there is no `property`.
pub open spec fn properties_model(doc: JsonValue) -> Result<Seq<PropertyView>, Seq<char>> {
    match either_member(doc, "property"@, "properties"@) {
        None => Err("Missing 'property' array"@),
        Some(m) => match m.items() {
            None => Err("Missing 'property' array"@),
            Some(items) => property_list_model(items),
        },
    }
}

/// The namespace that a member of the namespace object stands for: its name
/// is the prefix, its value the IRI, empty when the value is no string.
pub open spec fn namespace_model(member: (String, JsonValue)) -> NamespaceView {
    NamespaceView {
        prefix: member.0@,
        iri: match member.1.text() {
            Some(t) => t,
            None => Seq::empty(),
        },
    }
}

/// The namespaces of a document: the members of the object under
/// `namespace`, or under `namespaces` when there is no `namespace`; none
/// when that is missing or no object.
pub open spec fn namespaces_model(doc: JsonValue) -> Seq<NamespaceView> {
    match either_member(doc, "namespace"@, "namespaces"@) {
        None => Seq::empty(),
        Some(m) => match m.members() {
            None => Seq::empty(),
            Some(members) => members.map_values(|m: (String, JsonValue)| namespace_model(m)),
        },
    }
}

/// The string under a name in the header of a document, if there is one.
pub open spec fn header_text(doc: JsonValue, key: Seq<char>) -> Option<Seq<char>> {
    match doc.member("header"@) {
        Some(h) => text_member(h, key),
        None => None,
    }
}

/// What a document says of itself in its header; the IRI defaults to
/// `http://example.org/ontology`.
pub open spec fn metadata_model(doc: JsonValue) -> OntologyMetadataView {
    OntologyMetadataView {
        iri: match header_text(doc, "iri"@) {
            Some(t) => t,
            None => "http://example.org/ontology"@,
        },
        version: header_text(doc, "version"@),
        title: header_text(doc, "title"@),
        description: header_text(doc, "description"@),
    }
}

/// The ontology that a document describes, or why it describes none: the
/// reason of its classes if they have one, else that of its properties.
pub open spec fn document_model(doc: JsonValue, config: ParserConfig) -> Result<
    OntologyView,
    Seq<char>,
> {
    match classes_model(doc, config) {
        Err(e) => Err(e),
        Ok(classes) => match properties_model(doc) {
            Err(e) => Err(e),
            Ok(properties) => Ok(
                OntologyView {
                    metadata: metadata_model(doc),
                    classes: classes,
                    properties: properties,
                    namespaces: namespaces_model(doc),
                },
            ),
        },
    }
}

/// Whether some class has the id.
pub open spec fn names_class(classes: Seq<ClassNodeView>, id: Seq<char>) -> bool {
    exists|i: int| 0 <= i < classes.len() && (#[trigger] classes[i]).id == id
}

/// Detail of the error for a property whose domain is the id of no class.
pub open spec fn unknown_domain_detail(property: PropertyView) -> Seq<char> {
    "Property '"@ + property.id + "' references unknown domain class: "@ + property.domain
}

/// Whether a range names a datatype of XML Schema: it starts with `xsd:`.
pub open spec fn is_datatype_name(range: Seq<char>) -> bool {
    range.len() >= 4 && range.subrange(0, 4) == "xsd:"@
}

/// Whether the range of a property is open to doubt: it is the id of no
/// class and names no datatype.
pub open spec fn doubtful_range(classes: Seq<ClassNodeView>, property: PropertyView) -> bool {
    !names_class(classes, property.range) && !is_datatype_name(property.range)
}

/// The warning for a property whose range is open to doubt.
pub open spec fn range_warning(property: PropertyView) -> Seq<char> {
    "Warning: Property '"@ + property.id + "' references possibly unknown range: "@
        + property.range
}

/// The warnings for those of the properties whose range is open to doubt,
/// in order.
pub open spec fn warnings_among(classes: Seq<ClassNodeView>, properties: Seq<PropertyView>) -> Seq<
    Seq<char>,
>
    decreases properties.len(),
{
    if properties.len() == 0 {
        Seq::empty()
    } else if doubtful_range(classes, properties.last()) {
        warnings_among(classes, properties.drop_last()).push(range_warning(properties.last()))
    } else {
        warnings_among(classes, properties.drop_last())
    }
}

/// How many properties are looked at before the check of the domains
/// stops: all that come before the first whose domain is the id of no
/// class.
pub open spec fn checked_len(data: OntologyView) -> int {
    if exists|k: int|
        0 <= k < data.properties.len() && !names_class(
            data.classes,
            (#[trigger] data.properties[k]).domain,
        ) {
        choose|k: int|
            0 <= k < data.properties.len() && !names_class(
                data.classes,
                (#[trigger] data.properties[k]).domain,
            ) && forall|j: int|
                0 <= j < k ==> names_class(data.classes, (#[trigger] data.properties[j]).domain)
    } else {
        data.properties.len() as int
    }
}

/// The warnings that the check of an ontology has to give: one for each
/// property that is looked at and whose range is open to doubt.
pub open spec fn warnings_model(data: OntologyView) -> Seq<Seq<char>> {
    warnings_among(data.classes, data.properties.take(checked_len(data)))
}

/// Whether a string starts with `xsd:`.
fn names_datatype(range: &str) -> (r: bool)
    ensures
        r == is_datatype_name(range@),
{
    proof {
        reveal_strlit("xsd:");
    }
    if range.unicode_len() < 4 {
        false
    } else {
        let matches = range.get_char(0) == 'x' && range.get_char(1) == 's' && range.get_char(2)
            == 'd' && range.get_char(3) == ':';
        proof {
            let head = range@.subrange(0, 4);
            if matches {
                assert(head =~= "xsd:"@);
            } else {
                assert(head[0] == range@[0] && head[1] == range@[1] && head[2] == range@[2]
                    && head[3] == range@[3]);
            }
        }
        matches
    }
}

/// The ids of the classes of an ontology, for looking them up.
fn class_ids(data: &OntologyData) -> (ids: StringHashMap<bool>)
    ensures
        forall|id: Seq<char>| ids@.contains_key(id) <==> names_class(data@.classes, id),
{
    let mut ids: StringHashMap<bool> = StringHashMap::new();
    let mut i: usize = 0;
    while i < data.classes.len()
        invariant
            i <= data.classes.len(),
            forall|id: Seq<char>|
                ids@.contains_key(id) <==> names_class(data@.classes.take(i as int), id),
        decreases data.classes.len() - i,
    {
        ids.insert(data.classes[i].id.clone(), true);
        proof {
            let upto = data@.classes.take(i as int);
            let next = data@.classes.take(i + 1);
            assert(next =~= upto.push(data@.classes[i as int]));
            assert forall|id: Seq<char>| ids@.contains_key(id) <==> names_class(next, id) by {
                if names_class(upto, id) {
                    let w = choose|w: int| 0 <= w < upto.len() && (#[trigger] upto[w]).id == id;
                    assert(next[w].id == id);
                }
                if id == data@.classes[i as int].id {
                    assert(next[i as int].id == id);
                }
                if names_class(next, id) {
                    let w = choose|w: int| 0 <= w < next.len() && (#[trigger] next[w]).id == id;
                    if w < i {
                        assert(upto[w].id == id);
                    }
                }
            }
        }
        i += 1;
    }
    proof {
        assert(data@.classes.take(i as int) =~= data@.classes);
    }
    ids
}

/// The string under a name in an object.
fn text_field<'a>(v: &'a JsonValue, key: &str) -> (r: Option<&'a str>)
    ensures
        match r {
            Some(s) => text_member(*v, key@) == Some(s@),
            None => text_member(*v, key@) is None,
        },
{
    match v.get(key) {
        Some(m) => m.as_str(),
        None => None,
    }
}

/// The string under a name in an object, or a default.
fn text_field_or(v: &JsonValue, key: &str, default: &str) -> (r: String)
    ensures
        r@ == match text_member(*v, key@) {
            Some(t) => t,
            None => default@,
        },
{
    match text_field(v, key) {
        Some(s) => s.to_owned(),
        None => default.to_owned(),
    }
}

/// The string under a name in an object, if there is one, as an owned
/// value.
fn optional_text(v: Option<&JsonValue>, key: &str) -> (r: Option<String>)
    ensures
        crate::text::option_text(r) == match v {
            Some(h) => text_member(*h, key@),
            None => None,
        },
{
    match v {
        Some(h) => match text_field(h, key) {
            Some(s) => Some(s.to_owned()),
            None => None,
        },
        None => None,
    }
}

/// The boolean under a name in an object; false when there is none.
fn flag_field(v: &JsonValue, key: &str) -> (r: bool)
    ensures
        r == flag_member(*v, key@),
{
    match v.get(key) {
        Some(m) => match m.as_bool() {
            Some(b) => b,
            None => false,
        },
        None => false,
    }
}

/// The unsigned integer under a name in an object.
fn unsigned_field(v: &JsonValue, key: &str) -> (r: Option<u64>)
    ensures
        r == unsigned_member(*v, key@),
{
    match v.get(key) {
        Some(m) => m.as_u64(),
        None => None,
    }
}

/// The unsigned integer under a name in an object, cut down to 32 bits.
fn low_bits_field(v: &JsonValue, key: &str) -> (r: Option<u32>)
    ensures
        r == low_bits(unsigned_member(*v, key@)),
{
    match unsigned_field(v, key) {
        Some(n) => Some(#[verifier::truncate] (n as u32)),
        None => None,
    }
}

/// The member under the first name, or under the second.
fn either_field<'a>(v: &'a JsonValue, first: &str, second: &str) -> (r: Option<&'a JsonValue>)
    ensures
        match r {
            Some(m) => either_member(*v, first@, second@) == Some(*m),
            None => either_member(*v, first@, second@) is None,
        },
{
    match v.get(first) {
        Some(m) => Some(m),
        None => v.get(second),
    }
}

/// Whether a result of reading agrees with what the model says: the same
/// value, or a parse error with the model's reason.
pub open spec fn agrees<T, V>(r: Result<T, VowlError>, model: Result<V, Seq<char>>, view: spec_fn(T) -> V) -> bool {
    match r {
        Ok(value) => model == Ok::<V, Seq<char>>(view(value)),
        Err(e) => e is ParseError && model == Err::<V, Seq<char>>(e.detail()),
    }
}

/// The values of a list of classes.
pub open spec fn class_views(classes: Vec<ClassNode>) -> Seq<ClassNodeView> {
    classes@.map_values(|c: ClassNode| c@)
}

/// The values of a list of properties.
pub open spec fn property_views(properties: Vec<Property>) -> Seq<PropertyView> {
    properties@.map_values(|p: Property| p@)
}

/// The values of a list of namespaces.
pub open spec fn namespace_views(namespaces: Vec<Namespace>) -> Seq<NamespaceView> {
    namespaces@.map_values(|n: Namespace| n@)
}

/// Reads ontologies from JSON documents of the usual layout: a `header`, a
/// `namespace` object, a `class` array and a `property` array.
pub struct StandardParser {
    config: ParserConfig,
}

impl StandardParser {
    /// How this parser reads.
    pub closed spec fn spec_config(&self) -> ParserConfig {
        self.config
    }

    /// A parser that reads in the default way.
    pub fn new() -> (p: StandardParser)
        ensures
            p.spec_config() == ParserConfig::standard(),
    {
        StandardParser { config: ParserConfig::default() }
    }

    /// A parser that reads in the given way.
    pub fn with_config(config: ParserConfig) -> (p: StandardParser)
        ensures
            p.spec_config() == config,
    {
        StandardParser { config }
    }

    /// How this parser reads.
    #[verifier::when_used_as_spec(spec_config)]
    pub fn config(&self) -> (c: ParserConfig)
        ensures
            c == self.spec_config(),
    {
        self.config
    }

    /// What a class object says beyond the class's name.
    pub fn parse_class_attributes(&self, json: &JsonValue) -> (a: ClassAttributes)
        ensures
            a@ == attributes_model(*json),
    {
        let external = flag_field(json, "external");
        let individuals = match unsigned_field(json, "individuals") {
            Some(n) => Some(#[verifier::truncate] (n as usize)),
            None => None,
        };
        let mut properties: Vec<(String, String)> = Vec::new();
        let ghost mut source: Seq<(String, JsonValue)> = Seq::empty();
        match json.get("attributes") {
            Some(a) => match a.as_object() {
                Some(members) => {
                    proof {
                        source = members@;
                        assert(members@.take(0) =~= Seq::<(String, JsonValue)>::empty());
                    }
                    let mut i: usize = 0;
                    while i < members.len()
                        invariant
                            i <= members.len(),
                            properties@.map_values(|p: (String, String)| (p.0@, p.1@))
                                == text_pairs(members@.take(i as int)),
                        decreases members.len() - i,
                    {
                        proof {
                            assert(members@.take(i + 1).drop_last() =~= members@.take(i as int));
                            assert(members@.take(i + 1).last() == members@[i as int]);
                        }
                        let ghost prior = properties@.map_values(
                            |p: (String, String)| (p.0@, p.1@),
                        );
                        match members[i].1.as_str() {
                            Some(s) => {
                                let pair = (members[i].0.clone(), s.to_owned());
                                properties.push(pair);
                                proof {
                                    assert(properties@.map_values(
                                        |p: (String, String)| (p.0@, p.1@),
                                    ) =~= prior.push((pair.0@, pair.1@)));
                                }
                            },
                            None => {},
                        }
                        i += 1;
                    }
                    proof {
                        assert(members@.take(i as int) =~= members@);
                    }
                },
                None => {},
            },
            None => {},
        }
        let a = ClassAttributes { external, individuals, properties };
        proof {
            if source.len() == 0 {
                assert(a@.properties =~= text_pairs(source));
            }
        }
        a
    }

    /// The strings among the items of an array.
    fn strings_of(items: &Vec<JsonValue>) -> (out: Vec<String>)
        ensures
            texts(out@) == strings_among(items@),
    {
        let mut out: Vec<String> = Vec::new();
        let mut i: usize = 0;
        proof {
            assert(items@.take(0) =~= Seq::<JsonValue>::empty());
            assert(texts(out@) =~= Seq::<Seq<char>>::empty());
        }
        while i < items.len()
            invariant
                i <= items.len(),
                texts(out@) == strings_among(items@.take(i as int)),
            decreases items.len() - i,
        {
            proof {
                assert(items@.take(i + 1).drop_last() =~= items@.take(i as int));
                assert(items@.take(i + 1).last() == items@[i as int]);
            }
            let ghost prior = texts(out@);
            match items[i].as_str() {
                Some(s) => {
                    let owned = s.to_owned();
                    out.push(owned);
                    proof {
                        assert(texts(out@) =~= prior.push(owned@));
                    }
                },
                None => {},
            }
            i += 1;
        }
        proof {
            assert(items@.take(i as int) =~= items@);
        }
        out
    }

    /// The class that a class object describes.
    pub fn parse_class_node(&self, json: &JsonValue) -> (r: Result<ClassNode, VowlError>)
        ensures
            agrees(r, class_model(*json, self.spec_config()), |c: ClassNode| c@),
    {
        let id: String = match text_field(json, "id") {
            Some(s) => s.to_owned(),
            None => {
                return Err(VowlError::ParseError("Missing class id".to_owned()));
            },
        };
        let iri = text_field_or(json, "iri", id.as_str());
        let label = text_field_or(json, "label", id.as_str());
        if !self.config.allow_empty_labels && label.as_str().is_empty() {
            let detail = String::from_str("Empty label for class: ").concat(id.as_str());
            return Err(VowlError::ParseError(detail));
        }
        let class_type = text_field_or(json, "type", "owl:Class");
        let equivalent: Vec<String> = match json.get("equivalent") {
            Some(e) => match e.as_array() {
                Some(items) => Self::strings_of(items),
                None => Vec::new(),
            },
            None => Vec::new(),
        };
        let attributes = self.parse_class_attributes(json);
        let class = ClassNode { id, iri, label, class_type, equivalent, attributes };
        proof {
            assert(class@.equivalent =~= class_model(*json, self.spec_config())->Ok_0.equivalent);
        }
        Ok(class)
    }

    /// The classes of a document.
    pub fn parse_classes(&self, json: &JsonValue) -> (r: Result<Vec<ClassNode>, VowlError>)
        ensures
            agrees(
                r,
                classes_model(*json, self.spec_config()),
                |v: Vec<ClassNode>| class_views(v),
            ),
    {
        let items: &Vec<JsonValue> = match either_field(json, "class", "classes") {
            Some(m) => match m.as_array() {
                Some(items) => items,
                None => {
                    return Err(VowlError::ParseError("Missing 'class' array".to_owned()));
                },
            },
            None => {
                return Err(VowlError::ParseError("Missing 'class' array".to_owned()));
            },
        };
        let count: usize = if self.config.max_classes > 0 && items.len() > self.config.max_classes {
            self.config.max_classes
        } else {
            items.len()
        };
        let ghost read = limited(items@, self.config.max_classes);
        proof {
            assert(read =~= items@.take(count as int));
            assert(read.take(0) =~= Seq::<JsonValue>::empty());
        }
        let mut classes: Vec<ClassNode> = Vec::new();
        let mut i: usize = 0;
        proof {
            assert(class_views(classes) =~= Seq::<ClassNodeView>::empty());
        }
        while i < count
            invariant
                i <= count,
                count <= items.len(),
                read == items@.take(count as int),
                classes_model(*json, self.spec_config()) == class_list_model(
                    read,
                    self.spec_config(),
                ),
                class_list_model(read.take(i as int), self.spec_config()) == Ok::<
                    Seq<ClassNodeView>,
                    Seq<char>,
                >(class_views(classes)),
            decreases count - i,
        {
            proof {
                assert(read.take(i + 1).drop_last() =~= read.take(i as int));
                assert(read.take(i + 1).last() == items@[i as int]);
            }
            let ghost prior = class_views(classes);
            match self.parse_class_node(&items[i]) {
                Ok(class) => {
                    classes.push(class);
                    proof {
                        assert(class_views(classes) =~= prior.push(class@));
                    }
                },
                Err(e) => {
                    proof {
                        lemma_class_list_error(read, self.spec_config(), i + 1);
                    }
                    return Err(e);
                },
            }
            i += 1;
        }
        proof {
            assert(read.take(i as int) =~= read);
        }
        Ok(classes)
    }

    /// The kind of property that a property object names.
    pub fn parse_property_type(&self, json: &JsonValue) -> (t: PropertyType)
        ensures
            t@ == property_type_model(*json),
    {
        match text_field(json, "type") {
            None => PropertyType::ObjectProperty,
            Some(t) => {
                if str_eq(t, "owl:ObjectProperty") {
                    PropertyType::ObjectProperty
                } else if str_eq(t, "owl:DatatypeProperty") {
                    PropertyType::DatatypeProperty
                } else if str_eq(t, "owl:AnnotationProperty") {
                    PropertyType::AnnotationProperty
                } else {
                    PropertyType::SpecialProperty(t.to_owned())
                }
            },
        }
    }

    /// The cardinality that a property object gives.
    pub fn parse_cardinality(&self, json: &JsonValue) -> (c: Option<Cardinality>)
        ensures
            c == cardinality_model(*json),
    {
        if json.get("cardinality").is_none() {
            return None;
        }
        let min = low_bits_field(json, "minCardinality");
        let max = low_bits_field(json, "maxCardinality");
        let exact = low_bits_field(json, "cardinality");
        if min.is_some() || max.is_some() || exact.is_some() {
            Some(Cardinality { min, max, exact })
        } else {
            None
        }
    }

    /// The characteristics that a property object gives.
    pub fn parse_property_characteristics(&self, json: &JsonValue) -> (c: PropertyCharacteristics)
        ensures
            c == characteristics_model(*json),
    {
        PropertyCharacteristics {
            functional: flag_field(json, "functional"),
            inverse_functional: flag_field(json, "inverseFunctional"),
            transitive: flag_field(json, "transitive"),
            symmetric: flag_field(json, "symmetric"),
            cardinality: self.parse_cardinality(json),
        }
    }

    /// The property that a property object describes.
    pub fn parse_property(&self, json: &JsonValue) -> (r: Result<Property, VowlError>)
        ensures
            agrees(r, property_model(*json), |p: Property| p@),
    {
        let id: String = match text_field(json, "id") {
            Some(s) => s.to_owned(),
            None => {
                return Err(VowlError::ParseError("Missing property id".to_owned()));
            },
        };
        let iri = text_field_or(json, "iri", id.as_str());
        let label = text_field_or(json, "label", id.as_str());
        let property_type = self.parse_property_type(json);
        let domain: String = match text_field(json, "domain") {
            Some(s) => s.to_owned(),
            None => {
                let detail = String::from_str("Missing domain for property: ").concat(id.as_str());
                return Err(VowlError::ParseError(detail));
            },
        };
        let range: String = match text_field(json, "range") {
            Some(s) => s.to_owned(),
            None => {
                let detail = String::from_str("Missing range for property: ").concat(id.as_str());
                return Err(VowlError::ParseError(detail));
            },
        };
        let characteristics = self.parse_property_characteristics(json);
        Ok(Property { id, iri, label, property_type, domain, range, characteristics })
    }

    /// The properties of a document.
    pub fn parse_properties(&self, json: &JsonValue) -> (r: Result<Vec<Property>, VowlError>)
        ensures
            agrees(r, properties_model(*json), |v: Vec<Property>| property_views(v)),
    {
        let items: &Vec<JsonValue> = match either_field(json, "property", "properties") {
            Some(m) => match m.as_array() {
                Some(items) => items,
                None => {
                    return Err(VowlError::ParseError("Missing 'property' array".to_owned()));
                },
            },
            None => {
                return Err(VowlError::ParseError("Missing 'property' array".to_owned()));
            },
        };
        let mut properties: Vec<Property> = Vec::new();
        let mut i: usize = 0;
        proof {
            assert(items@.take(0) =~= Seq::<JsonValue>::empty());
            assert(property_views(properties) =~= Seq::<PropertyView>::empty());
        }
        while i < items.len()
            invariant
                i <= items.len(),
                properties_model(*json) == property_list_model(items@),
                property_list_model(items@.take(i as int)) == Ok::<Seq<PropertyView>, Seq<char>>(
                    property_views(properties),
                ),
            decreases items.len() - i,
        {
            proof {
                assert(items@.take(i + 1).drop_last() =~= items@.take(i as int));
                assert(items@.take(i + 1).last() == items@[i as int]);
            }
            let ghost prior = property_views(properties);
            match self.parse_property(&items[i]) {
                Ok(property) => {
                    properties.push(property);
                    proof {
                        assert(property_views(properties) =~= prior.push(property@));
                    }
                },
                Err(e) => {
                    proof {
                        lemma_property_list_error(items@, i + 1);
                    }
                    return Err(e);
                },
            }
            i += 1;
        }
        proof {
            assert(items@.take(i as int) =~= items@);
        }
        Ok(properties)
    }

    /// The namespaces of a document.
    pub fn parse_namespaces(&self, json: &JsonValue) -> (namespaces: Vec<Namespace>)
        ensures
            namespace_views(namespaces) == namespaces_model(*json),
    {
        let mut namespaces: Vec<Namespace> = Vec::new();
        match either_field(json, "namespace", "namespaces") {
            Some(m) => match m.as_object() {
                Some(members) => {
                    let mut i: usize = 0;
                    while i < members.len()
                        invariant
                            i <= members.len(),
                            namespaces.len() == i,
                            forall|j: int|
                                0 <= j < i ==> (#[trigger] namespaces[j])@ == namespace_model(
                                    members@[j],
                                ),
                        decreases members.len() - i,
                    {
                        let iri = match members[i].1.as_str() {
                            Some(s) => s.to_owned(),
                            None => String::new(),
                        };
                        namespaces.push(Namespace { prefix: members[i].0.clone(), iri });
                        i += 1;
                    }
                    proof {
                        assert(namespace_views(namespaces) =~= members@.map_values(
                            |m: (String, JsonValue)| namespace_model(m),
                        ));
                    }
                },
                None => {
                    proof {
                        assert(namespace_views(namespaces) =~= Seq::<NamespaceView>::empty());
                    }
                },
            },
            None => {
                proof {
                    assert(namespace_views(namespaces) =~= Seq::<NamespaceView>::empty());
                }
            },
        }
        namespaces
    }

    /// What a document says of itself in its header.
    pub fn parse_metadata(&self, json: &JsonValue) -> (m: OntologyMetadata)
        ensures
            m@ == metadata_model(*json),
    {
        let header = json.get("header");
        let iri = match header {
            Some(h) => text_field_or(h, "iri", "http://example.org/ontology"),
            None => "http://example.org/ontology".to_owned(),
        };
        OntologyMetadata {
            iri,
            version: optional_text(header, "version"),
            title: optional_text(header, "title"),
            description: optional_text(header, "description"),
        }
    }

    /// The warnings that go with a validation: one for each property whose range is neither the id of a
    /// class nor the name of an `xsd:` datatype, among the properties that
    /// come before the first whose domain is unknown.
    pub fn range_warnings(&self, data: &OntologyData) -> (warnings: Vec<String>)
        ensures
            texts(warnings@) == warnings_model(data@),
    {
        let ids = class_ids(data);
        let mut warnings: Vec<String> = Vec::new();
        let mut k: usize = 0;
        proof {
            assert(data@.properties.take(0) =~= Seq::<PropertyView>::empty());
            assert(texts(warnings@) =~= Seq::<Seq<char>>::empty());
        }
        while k < data.properties.len()
            invariant
                k <= data.properties.len(),
                forall|id: Seq<char>| ids@.contains_key(id) <==> names_class(data@.classes, id),
                forall|j: int|
                    0 <= j < k ==> names_class(
                        data@.classes,
                        (#[trigger] data@.properties[j]).domain,
                    ),
                texts(warnings@) == warnings_among(
                    data@.classes,
                    data@.properties.take(k as int),
                ),
            decreases data.properties.len() - k,
        {
            let property = &data.properties[k];
            proof {
                assert(data@.properties[k as int] == property@);
                assert(data@.properties.take(k + 1).drop_last() =~= data@.properties.take(
                    k as int,
                ));
                assert(data@.properties.take(k + 1).last() == property@);
            }
            if !ids.contains_key(property.domain.as_str()) {
                proof {
                    lemma_checked_len(data@, k as int);
                }
                return warnings;
            }
            if !ids.contains_key(property.range.as_str()) && !names_datatype(
                property.range.as_str(),
            ) {
                let ghost prior = texts(warnings@);
                let warning = String::from_str("Warning: Property '").concat(
                    property.id.as_str(),
                ).concat("' references possibly unknown range: ").concat(property.range.as_str());
                warnings.push(warning);
                proof {
                    assert(texts(warnings@) =~= prior.push(warning@));
                }
            }
            k += 1;
        }
        proof {
            assert(checked_len(data@) == data@.properties.len());
        }
        warnings
    }

    /// The ontology that a document describes.
    pub fn parse_document(&self, json: &JsonValue) -> (r: Result<OntologyData, VowlError>)
        ensures
            agrees(r, document_model(*json, self.spec_config()), |d: OntologyData| d@),
    {
        let metadata = self.parse_metadata(json);
        let classes = match self.parse_classes(json) {
            Ok(classes) => classes,
            Err(e) => {
                return Err(e);
            },
        };
        let properties = match self.parse_properties(json) {
            Ok(properties) => properties,
            Err(e) => {
                return Err(e);
            },
        };
        let namespaces = self.parse_namespaces(json);
        Ok(OntologyData { metadata, classes, properties, namespaces })
    }
}

/// When the classes of the first `n` items have a reason to fail, so have
/// those of all the items, and it is the same.
proof fn lemma_class_list_error(items: Seq<JsonValue>, config: ParserConfig, n: int)
    requires
        0 <= n <= items.len(),
        class_list_model(items.take(n), config) is Err,
    ensures
        class_list_model(items, config) == class_list_model(items.take(n), config),
    decreases items.len() - n,
{
    if n < items.len() {
        assert(items.take(n + 1).drop_last() =~= items.take(n));
        lemma_class_list_error(items, config, n + 1);
    } else {
        assert(items.take(n) =~= items);
    }
}

/// When the properties of the first `n` items have a reason to fail, so
/// have those of all the items, and it is the same.
proof fn lemma_property_list_error(items: Seq<JsonValue>, n: int)
    requires
        0 <= n <= items.len(),
        property_list_model(items.take(n)) is Err,
    ensures
        property_list_model(items) == property_list_model(items.take(n)),
    decreases items.len() - n,
{
    if n < items.len() {
        assert(items.take(n + 1).drop_last() =~= items.take(n));
        lemma_property_list_error(items, n + 1);
    } else {
        assert(items.take(n) =~= items);
    }
}

impl OntologyParser for StandardParser {
    /// Reads an ontology from JSON text. A text that is no JSON document is
    /// a parse error; a document is read as [`StandardParser::parse_document`]
    /// reads it.
    fn parse(&self, json: &str) -> (r: Result<OntologyData, VowlError>)
        ensures
            match parsed_json(json@) {
                None => r matches Err(e) && e is ParseError,
                Some(doc) => agrees(
                    r,
                    document_model(doc, self.spec_config()),
                    |d: OntologyData| d@,
                ),
            },
    {
        match read_json(json) {
            Ok(doc) => self.parse_document(&doc),
            Err(e) => Err(VowlError::ParseError(json_error_text(&e))),
        }
    }

    /// Checks that the domain of every property is the id of a class. The
    /// first property of which this fails is reported. Ranges are not
    /// checked: a range may name a datatype.
    fn validate(&self, data: &OntologyData) -> (r: Result<(), VowlError>)
        ensures
            match r {
                Ok(_) => forall|k: int|
                    0 <= k < data@.properties.len() ==> names_class(
                        data@.classes,
                        (#[trigger] data@.properties[k]).domain,
                    ),
                Err(e) => exists|k: int|
                    {
                        &&& 0 <= k < data@.properties.len()
                        &&& !names_class(data@.classes, (#[trigger] data@.properties[k]).domain)
                        &&& forall|j: int|
                            0 <= j < k ==> names_class(
                                data@.classes,
                                (#[trigger] data@.properties[j]).domain,
                            )
                        &&& e is InvalidData
                        &&& e.detail() == unknown_domain_detail(data@.properties[k])
                    },
            },
    {
        let ids = class_ids(data);
        let mut k: usize = 0;
        while k < data.properties.len()
            invariant
                k <= data.properties.len(),
                forall|id: Seq<char>| ids@.contains_key(id) <==> names_class(data@.classes, id),
                forall|j: int|
                    0 <= j < k ==> names_class(
                        data@.classes,
                        (#[trigger] data@.properties[j]).domain,
                    ),
            decreases data.properties.len() - k,
        {
            let property = &data.properties[k];
            proof {
                assert(data@.properties[k as int] == property@);
            }
            if !ids.contains_key(property.domain.as_str()) {
                let detail = String::from_str("Property '").concat(property.id.as_str()).concat(
                    "' references unknown domain class: ",
                ).concat(property.domain.as_str());
                return Err(VowlError::InvalidData(detail));
            }
            k += 1;
        }
        Ok(())
    }
}

/// When the domain of the property at `k` is the id of no class and those
/// of all earlier properties are, the check of the domains stops at `k`.
pub proof fn lemma_checked_len(data: OntologyView, k: int)
    requires
        0 <= k < data.properties.len(),
        !names_class(data.classes, data.properties[k].domain),
        forall|j: int|
            0 <= j < k ==> names_class(data.classes, (#[trigger] data.properties[j]).domain),
    ensures
        checked_len(data) == k,
{
    let chosen = choose|c: int|
        0 <= c < data.properties.len() && !names_class(
            data.classes,
            (#[trigger] data.properties[c]).domain,
        ) && forall|j: int|
            0 <= j < c ==> names_class(data.classes, (#[trigger] data.properties[j]).domain);
    assert(chosen == k);
}

impl Default for StandardParser {
    fn default() -> (p: StandardParser)
        ensures
            p.spec_config() == ParserConfig::standard(),
    {
        StandardParser::new()
    }
}

} // verus!
