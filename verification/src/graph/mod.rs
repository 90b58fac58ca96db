//! The graph of classes and properties.
//!
//! Nodes and links live in two arenas in insertion order; a node's handle is
//! its position in the node arena and never changes. A table from node id to
//! handle resolves ids without a scan.



pub mod builder;
pub mod edge;
pub mod node;

use crate::error::VowlError;
use crate::scalar::Scalar;
use vstd::hash_map::StringHashMap;
use vstd::prelude::*;
use vstd::string::StringExecFns;

verus! {

/// The kind of thing a node stands for.
#[derive(Debug, Clone, PartialEq)]
pub enum NodeType {
    /// A class.
    Class,
    /// A datatype.
    Datatype,
    /// Anything else, under the name the ontology gave it.
    Special(String),
}

/// The mathematical value of a [`NodeType`].
pub enum NodeTypeView {
    Class,
    Datatype,
    Special(Seq<char>),
}

impl View for NodeType {
    type V = NodeTypeView;

    open spec fn view(&self) -> NodeTypeView {
        match self {
            NodeType::Class => NodeTypeView::Class,
            NodeType::Datatype => NodeTypeView::Datatype,
            NodeType::Special(name) => NodeTypeView::Special(name@),
        }
    }
}

/// Where a node is drawn and how it moves.
#[derive(Debug, Clone, PartialEq)]
pub struct VisualAttributes {
    /// Horizontal position.
    pub x: Scalar,
    /// Vertical position.
    pub y: Scalar,
    /// Horizontal velocity.
    pub vx: Scalar,
    /// Vertical velocity.
    pub vy: Scalar,
    /// A fixed node is never moved by the layout.
    pub fixed: bool,
    /// Visual weight.
    pub weight: Scalar,
    /// Colour, as a hexadecimal string.
    pub color: Option<String>,
}

/// The mathematical value of a [`VisualAttributes`].
pub struct VisualView {
    pub x: Scalar,
    pub y: Scalar,
    pub vx: Scalar,
    pub vy: Scalar,
    pub fixed: bool,
    pub weight: Scalar,
    pub color: Option<Seq<char>>,
}

impl View for VisualAttributes {
    type V = VisualView;

    open spec fn view(&self) -> VisualView {
        VisualView {
            x: self.x,
            y: self.y,
            vx: self.vx,
            vy: self.vy,
            fixed: self.fixed,
            weight: self.weight,
            color: match self.color {
                Some(c) => Some(c@),
                None => None,
            },
        }
    }
}

impl VisualView {
    /// At rest at the origin, free to move, weightless and uncoloured.
    pub open spec fn initial() -> VisualView {
        VisualView {
            x: Scalar::spec_zero(),
            y: Scalar::spec_zero(),
            vx: Scalar::spec_zero(),
            vy: Scalar::spec_zero(),
            fixed: false,
            weight: Scalar::spec_zero(),
            color: None,
        }
    }
}

impl Default for VisualAttributes {
    fn default() -> (v: VisualAttributes)
        ensures
            v@ == VisualView::initial(),
    {
        VisualAttributes {
            x: Scalar::zero(),
            y: Scalar::zero(),
            vx: Scalar::zero(),
            vy: Scalar::zero(),
            fixed: false,
            weight: Scalar::zero(),
            color: None,
        }
    }
}

/// What a node means in the ontology.
#[derive(Debug, Clone, PartialEq)]
pub struct SemanticAttributes {
    /// The node's IRI.
    pub iri: String,
    /// Whether the class is defined outside the ontology.
    pub external: bool,
    /// Ids of equivalent classes.
    pub equivalent: Vec<String>,
    /// How many individuals the class has, when known.
    pub individuals: Option<usize>,
}

/// The mathematical value of a [`SemanticAttributes`].
pub struct SemanticView {
    pub iri: Seq<char>,
    pub external: bool,
    pub equivalent: Seq<Seq<char>>,
    pub individuals: Option<usize>,
}

impl View for SemanticAttributes {
    type V = SemanticView;

    open spec fn view(&self) -> SemanticView {
        SemanticView {
            iri: self.iri@,
            external: self.external,
            equivalent: self.equivalent@.map_values(|s: String| s@),
            individuals: self.individuals,
        }
    }
}

impl SemanticView {
    /// No IRI, internal, without equivalents or individuals.
    pub open spec fn initial() -> SemanticView {
        SemanticView {
            iri: Seq::empty(),
            external: false,
            equivalent: Seq::empty(),
            individuals: None,
        }
    }
}

impl Default for SemanticAttributes {
    fn default() -> (s: SemanticAttributes)
        ensures
            s@ == SemanticView::initial(),
    {
        let s = SemanticAttributes {
            iri: String::new(),
            external: false,
            equivalent: Vec::new(),
            individuals: None,
        };
        assert(s@.equivalent =~= Seq::empty());
        s
    }
}

/// A class or datatype of the ontology.
#[derive(Debug, Clone, PartialEq)]
pub struct Node {
    /// Unique identifier.
    pub id: String,
    /// Display label.
    pub label: String,
    /// Kind of node.
    pub node_type: NodeType,
    /// Position and motion.
    pub visual: VisualAttributes,
    /// Meaning.
    pub semantic: SemanticAttributes,
}

/// The mathematical value of a [`Node`].
pub struct NodeView {
    pub id: Seq<char>,
    pub label: Seq<char>,
    pub node_type: NodeTypeView,
    pub visual: VisualView,
    pub semantic: SemanticView,
}

impl View for Node {
    type V = NodeView;

    open spec fn view(&self) -> NodeView {
        NodeView {
            id: self.id@,
            label: self.label@,
            node_type: self.node_type@,
            visual: self.visual@,
            semantic: self.semantic@,
        }
    }
}


/// The kind of relation an edge stands for.
#[derive(Debug, Clone, PartialEq)]
pub enum EdgeType {
    /// A property between two classes.
    ObjectProperty,
    /// A property from a class to a datatype.
    DatatypeProperty,
    /// The subclass relation.
    SubClass,
    /// Anything else, under the name the ontology gave it.
    Special(String),
}

/// The mathematical value of an [`EdgeType`].
pub enum EdgeTypeView {
    ObjectProperty,
    DatatypeProperty,
    SubClass,
    Special(Seq<char>),
}

impl View for EdgeType {
    type V = EdgeTypeView;

    open spec fn view(&self) -> EdgeTypeView {
        match self {
            EdgeType::ObjectProperty => EdgeTypeView::ObjectProperty,
            EdgeType::DatatypeProperty => EdgeTypeView::DatatypeProperty,
            EdgeType::SubClass => EdgeTypeView::SubClass,
            EdgeType::Special(name) => EdgeTypeView::Special(name@),
        }
    }
}

/// The characteristics of a property.
#[derive(Debug, Clone, PartialEq)]
pub struct EdgeCharacteristics {
    /// At most one value per subject.
    pub functional: bool,
    /// At most one subject per value.
    pub inverse_functional: bool,
    /// Closed under composition with itself.
    pub transitive: bool,
    /// Holds in both directions.
    pub symmetric: bool,
    /// Lower and upper bound on the number of values, each optional.
    pub cardinality: Option<(Option<u32>, Option<u32>)>,
}

impl EdgeCharacteristics {
    /// No characteristic set and no cardinality.
    pub open spec fn initial() -> EdgeCharacteristics {
        EdgeCharacteristics {
            functional: false,
            inverse_functional: false,
            transitive: false,
            symmetric: false,
            cardinality: None,
        }
    }
}

impl Default for EdgeCharacteristics {
    fn default() -> (c: EdgeCharacteristics)
        ensures
            c == EdgeCharacteristics::initial(),
    {
        EdgeCharacteristics {
            functional: false,
            inverse_functional: false,
            transitive: false,
            symmetric: false,
            cardinality: None,
        }
    }
}

/// A property of the ontology.
#[derive(Debug, Clone, PartialEq)]
pub struct Edge {
    /// Property identifier.
    pub id: String,
    /// Display label.
    pub label: String,
    /// Kind of edge.
    pub edge_type: EdgeType,
    /// Characteristics of the property.
    pub characteristics: EdgeCharacteristics,
}

/// The mathematical value of an [`Edge`].
pub struct EdgeView {
    pub id: Seq<char>,
    pub label: Seq<char>,
    pub edge_type: EdgeTypeView,
    pub characteristics: EdgeCharacteristics,
}

impl View for Edge {
    type V = EdgeView;

    open spec fn view(&self) -> EdgeView {
        EdgeView {
            id: self.id@,
            label: self.label@,
            edge_type: self.edge_type@,
            characteristics: self.characteristics,
        }
    }
}

/// A fraction of two counts.
#[derive(Debug, Clone, Copy, PartialEq, Eq, Structural)]
pub struct Ratio {
    /// The count above the line.
    pub numerator: u128,
    /// The count below the line; never zero in a ratio this crate makes.
    pub denominator: u128,
}

/// Statistics of a graph, as of the last time they were computed.
#[derive(Debug, Clone, Copy, PartialEq, Eq, Structural)]
pub struct GraphMetadata {
    /// Number of nodes that are classes.
    pub class_count: usize,
    /// Number of edges.
    pub property_count: usize,
    /// Largest number of outgoing edges of any node.
    pub max_degree: usize,
    /// Edges per ordered pair of distinct nodes.
    pub density: Ratio,
}

impl GraphMetadata {
    /// The statistics of the empty graph.
    pub open spec fn initial() -> GraphMetadata {
        GraphMetadata {
            class_count: 0,
            property_count: 0,
            max_degree: 0,
            density: Ratio { numerator: 0, denominator: 1 },
        }
    }
}

impl Default for GraphMetadata {
    fn default() -> (m: GraphMetadata)
        ensures
            m == GraphMetadata::initial(),
    {
        GraphMetadata {
            class_count: 0,
            property_count: 0,
            max_degree: 0,
            density: Ratio { numerator: 0, denominator: 1 },
        }
    }
}

/// A directed edge between two node handles.
struct Link {
    source: usize,
    target: usize,
    edge: Edge,
}

/// The mathematical value of a link: its endpoints and what it carries.
pub struct LinkView {
    pub source: int,
    pub target: int,
    pub edge: EdgeView,
}

impl View for Link {
    type V = LinkView;

    closed spec fn view(&self) -> LinkView {
        LinkView { source: self.source as int, target: self.target as int, edge: self.edge@ }
    }
}

/// The mathematical value of a graph: nodes and links in insertion order,
/// and the statistics last computed.
pub struct GraphView {
    pub nodes: Seq<NodeView>,
    pub links: Seq<LinkView>,
    pub metadata: GraphMetadata,
}

/// Whether some node of `nodes` has the id `id`.
pub open spec fn has_id(nodes: Seq<NodeView>, id: Seq<char>) -> bool {
    exists|i: int| 0 <= i < nodes.len() && (#[trigger] nodes[i]).id == id
}

/// The handle of a node with id `id`; meaningful when there is one.
pub open spec fn handle_of(nodes: Seq<NodeView>, id: Seq<char>) -> int {
    choose|i: int| 0 <= i < nodes.len() && (#[trigger] nodes[i]).id == id
}

/// No two nodes share an id.
pub open spec fn ids_unique(nodes: Seq<NodeView>) -> bool {
    forall|i: int, j: int|
        0 <= i < nodes.len() && 0 <= j < nodes.len() && (#[trigger] nodes[i]).id == (
        #[trigger] nodes[j]).id ==> i == j
}

/// Every link joins two existing nodes.
pub open spec fn links_in_range(links: Seq<LinkView>, node_count: nat) -> bool {
    forall|k: int|
        0 <= k < links.len() ==> 0 <= (#[trigger] links[k]).source < node_count && 0
            <= links[k].target < node_count
}

impl GraphView {
    /// What holds of every graph: ids are unique and links join existing
    /// nodes.
    pub open spec fn valid(self) -> bool {
        &&& ids_unique(self.nodes)
        &&& links_in_range(self.links, self.nodes.len())
    }
}

/// The targets of the links that leave `source`, the most recently added
/// link first.
pub open spec fn successors(links: Seq<LinkView>, source: int) -> Seq<int>
    decreases links.len(),
{
    if links.len() == 0 {
        Seq::empty()
    } else if links.last().source == source {
        seq![links.last().target] + successors(links.drop_last(), source)
    } else {
        successors(links.drop_last(), source)
    }
}

/// The number of links that leave `source`.
pub open spec fn out_degree(links: Seq<LinkView>, source: int) -> nat {
    successors(links, source).len()
}

/// The largest out-degree among the first `node_count` handles, zero when
/// there is none.
pub open spec fn max_out_degree(links: Seq<LinkView>, node_count: nat) -> nat
    decreases node_count,
{
    if node_count == 0 {
        0
    } else {
        let rest = max_out_degree(links, (node_count - 1) as nat);
        let degree = out_degree(links, node_count - 1);
        if degree > rest {
            degree
        } else {
            rest
        }
    }
}

/// The number of nodes that are classes.
pub open spec fn class_count(nodes: Seq<NodeView>) -> nat
    decreases nodes.len(),
{
    if nodes.len() == 0 {
        0
    } else if nodes.last().node_type is Class {
        class_count(nodes.drop_last()) + 1
    } else {
        class_count(nodes.drop_last())
    }
}

/// Edges per ordered pair of distinct nodes: `edges / (n * (n - 1))` for
/// more than one node, zero otherwise.
pub open spec fn density_of(node_count: nat, edge_count: nat) -> Ratio {
    if node_count > 1 {
        Ratio {
            numerator: edge_count as u128,
            denominator: (node_count * (node_count - 1)) as u128,
        }
    } else {
        Ratio { numerator: 0, denominator: 1 }
    }
}

/// The statistics of a graph with these nodes and links.
pub open spec fn metadata_of(nodes: Seq<NodeView>, links: Seq<LinkView>) -> GraphMetadata {
    GraphMetadata {
        class_count: class_count(nodes) as usize,
        property_count: links.len() as usize,
        max_degree: max_out_degree(links, nodes.len()) as usize,
        density: density_of(nodes.len(), links.len()),
    }
}

/// A node has no more outgoing links than there are links.
pub proof fn lemma_out_degree_bounded(links: Seq<LinkView>, source: int)
    ensures
        out_degree(links, source) <= links.len(),
    decreases links.len(),
{
    if links.len() > 0 {
        lemma_out_degree_bounded(links.drop_last(), source);
    }
}

/// Adding a link raises the out-degree of its source by one and leaves the
/// others as they were.
pub proof fn lemma_out_degree_push(links: Seq<LinkView>, link: LinkView, source: int)
    ensures
        out_degree(links.push(link), source) == out_degree(links, source) + if link.source
            == source {
            1nat
        } else {
            0nat
        },
{
    assert(links.push(link).drop_last() =~= links);
}

/// There are no more classes than nodes.
pub proof fn lemma_class_count_bounded(nodes: Seq<NodeView>)
    ensures
        class_count(nodes) <= nodes.len(),
    decreases nodes.len(),
{
    if nodes.len() > 0 {
        lemma_class_count_bounded(nodes.drop_last());
    }
}

/// The largest out-degree is the out-degree of some node and bounds them
/// all.
pub proof fn lemma_max_out_degree(links: Seq<LinkView>, node_count: nat)
    ensures
        forall|i: int| 0 <= i < node_count ==> #[trigger] out_degree(links, i) <= max_out_degree(
            links,
            node_count,
        ),
        node_count > 0 ==> exists|i: int|
            0 <= i < node_count && #[trigger] out_degree(links, i) == max_out_degree(
                links,
                node_count,
            ),
        node_count == 0 ==> max_out_degree(links, node_count) == 0,
    decreases node_count,
{
    if node_count > 0 {
        let before = (node_count - 1) as nat;
        lemma_max_out_degree(links, before);
        if out_degree(links, node_count - 1) > max_out_degree(links, before) || before == 0 {
            assert(out_degree(links, node_count - 1) == max_out_degree(links, node_count));
        } else {
            let i = choose|i: int|
                0 <= i < before && #[trigger] out_degree(links, i) == max_out_degree(links, before);
            assert(out_degree(links, i) == max_out_degree(links, node_count));
        }
    }
}

/// Detail of the error for a node id that is already taken.
pub open spec fn duplicate_node_detail(id: Seq<char>) -> Seq<char> {
    "Node with id '"@ + id + "' already exists"@
}

/// Detail of the error for a node id that no node has.
pub open spec fn unknown_node_detail(id: Seq<char>) -> Seq<char> {
    "Node '"@ + id + "' not found"@
}

/// The detail of the error for a node id that no node has.
fn unknown_node_message(id: &str) -> (text: String)
    ensures
        text@ == unknown_node_detail(id@),
{
    String::from_str("Node '").concat(id).concat("' not found")
}

/// The graph of an ontology: nodes, directed edges between them, and a table
/// from node id to node handle.
pub struct VowlGraph {
    nodes: Vec<Node>,
    links: Vec<Link>,
    index: StringHashMap<usize>,
    metadata: GraphMetadata,
}

impl View for VowlGraph {
    type V = GraphView;

    closed spec fn view(&self) -> GraphView {
        GraphView {
            nodes: self.nodes@.map_values(|n: Node| n@),
            links: self.links@.map_values(|l: Link| l@),
            metadata: self.metadata,
        }
    }
}

impl VowlGraph {
    /// The table resolves exactly the ids of the nodes, each to its handle.
    closed spec fn index_matches(&self) -> bool {
        &&& forall|i: int|
            0 <= i < self.nodes.len() ==> self.index@.contains_key(#[trigger] self.nodes[i].id@)
                && self.index@[self.nodes[i].id@] == i
        &&& forall|k: Seq<char>| #[trigger]
            self.index@.contains_key(k) ==> self.index@[k] < self.nodes.len()
                && self.nodes[self.index@[k] as int].id@ == k
    }

    /// The representation invariant: the graph's value is valid and the id
    /// table agrees with the node arena.
    pub closed spec fn wf(&self) -> bool {
        &&& self@.valid()
        &&& self.index_matches()
    }

    /// An empty graph.
    pub fn new() -> (g: VowlGraph)
        ensures
            g.wf(),
            g@.nodes.len() == 0,
            g@.links.len() == 0,
            g@.metadata == GraphMetadata::initial(),
    {
        VowlGraph {
            nodes: Vec::new(),
            links: Vec::new(),
            index: StringHashMap::new(),
            metadata: GraphMetadata::default(),
        }
    }

    /// The number of nodes.
    pub fn node_count(&self) -> (n: usize)
        ensures
            n == self@.nodes.len(),
    {
        self.nodes.len()
    }

    /// The number of edges.
    pub fn edge_count(&self) -> (n: usize)
        ensures
            n == self@.links.len(),
    {
        self.links.len()
    }

    /// The statistics last computed by [`VowlGraph::update_metadata`].
    pub fn metadata(&self) -> (m: &GraphMetadata)
        ensures
            *m == self@.metadata,
    {
        &self.metadata
    }

    /// Adds a node. Its id must be new: a taken id is refused and the graph
    /// stays as it was. The handle of the new node is the number of nodes
    /// there were before.
    pub fn add_node(&mut self, node: Node) -> (r: Result<usize, VowlError>)
        requires
            old(self).wf(),
        ensures
            final(self).wf(),
            has_id(old(self)@.nodes, node@.id) ==> {
                &&& r matches Err(e)
                &&& e is GraphError
                &&& e.detail() == duplicate_node_detail(node@.id)
                &&& final(self)@ == old(self)@
            },
            !has_id(old(self)@.nodes, node@.id) ==> {
                &&& r == Ok::<usize, VowlError>(old(self)@.nodes.len() as usize)
                &&& final(self)@.nodes == old(self)@.nodes.push(node@)
                &&& final(self)@.links == old(self)@.links
                &&& final(self)@.metadata == old(self)@.metadata
            },
    {
        if self.index.contains_key(node.id.as_str()) {
            proof {
                let i = self.index@[node.id@] as int;
                assert(self@.nodes[i].id == node@.id);
            }
            let detail = String::from_str("Node with id '").concat(node.id.as_str()).concat(
                "' already exists",
            );
            return Err(VowlError::GraphError(detail));
        }
        proof {
            if has_id(self@.nodes, node@.id) {
                let i = handle_of(self@.nodes, node@.id);
                assert(self.index@.contains_key(self.nodes[i].id@));
            }
        }
        let handle: usize = self.nodes.len();
        let id = node.id.clone();
        self.index.insert(id, handle);
        self.nodes.push(node);
        proof {
            assert(self@.nodes =~= old(self)@.nodes.push(node@));
            assert(self@.links =~= old(self)@.links);
            assert forall|i: int| 0 <= i < self.nodes.len() implies self.index@.contains_key(
                #[trigger] self.nodes[i].id@,
            ) && self.index@[self.nodes[i].id@] == i by {
                if i < handle {
                    assert(old(self).index@.contains_key(old(self).nodes[i].id@));
                }
            }
            assert forall|k: Seq<char>| #[trigger] self.index@.contains_key(k) implies self.index@[k]
                < self.nodes.len() && self.nodes[self.index@[k] as int].id@ == k by {
                if k != node.id@ {
                    assert(old(self).index@.contains_key(k));
                }
            }
            assert forall|i: int, j: int|
                0 <= i < self@.nodes.len() && 0 <= j < self@.nodes.len() && (
                #[trigger] self@.nodes[i]).id == (#[trigger] self@.nodes[j]).id implies i == j by {
                assert(self.index@[self.nodes[i].id@] == i);
                assert(self.index@[self.nodes[j].id@] == j);
            }
        }
        Ok(handle)
    }

    /// The node with the given id, if there is one.
    pub fn get_node(&self, id: &str) -> (r: Option<&Node>)
        requires
            self.wf(),
        ensures
            r is Some <==> has_id(self@.nodes, id@),
            r matches Some(n) ==> n@ == self@.nodes[handle_of(self@.nodes, id@)],
    {
        match self.lookup(id) {
            Some(handle) => Some(&self.nodes[handle]),
            None => None,
        }
    }

    /// Mutable access to the node with the given id, if there is one. What
    /// the caller writes through the reference becomes the node; the graph
    /// stays well formed as long as the node keeps its id.
    pub fn get_node_mut(&mut self, id: &str) -> (r: Option<&mut Node>)
        requires
            old(self).wf(),
        ensures
            r is Some <==> has_id(old(self)@.nodes, id@),
            r is None ==> final(self)@ == old(self)@ && final(self).wf(),
            r matches Some(n) ==> {
                let h = handle_of(old(self)@.nodes, id@);
                &&& n@ == old(self)@.nodes[h]
                &&& final(self)@.nodes == old(self)@.nodes.update(h, final(n)@)
                &&& final(self)@.links == old(self)@.links
                &&& final(self)@.metadata == old(self)@.metadata
                &&& final(n)@.id == id@ ==> final(self).wf()
            },
    {
        match self.lookup(id) {
            Some(handle) => Some(&mut self.nodes[handle]),
            None => None,
        }
    }

    /// Adds a directed edge between two nodes named by id. Both must exist:
    /// a missing source is reported first, then a missing target, and the
    /// graph stays as it was. Edges between the same pair are not merged.
    pub fn add_edge(&mut self, from: &str, to: &str, edge: Edge) -> (r: Result<(), VowlError>)
        requires
            old(self).wf(),
        ensures
            final(self).wf(),
            !has_id(old(self)@.nodes, from@) ==> {
                &&& r matches Err(e)
                &&& e is GraphError
                &&& e.detail() == unknown_node_detail(from@)
                &&& final(self)@ == old(self)@
            },
            has_id(old(self)@.nodes, from@) && !has_id(old(self)@.nodes, to@) ==> {
                &&& r matches Err(e)
                &&& e is GraphError
                &&& e.detail() == unknown_node_detail(to@)
                &&& final(self)@ == old(self)@
            },
            has_id(old(self)@.nodes, from@) && has_id(old(self)@.nodes, to@) ==> {
                &&& r is Ok
                &&& final(self)@.nodes == old(self)@.nodes
                &&& final(self)@.links == old(self)@.links.push(
                    LinkView {
                        source: handle_of(old(self)@.nodes, from@),
                        target: handle_of(old(self)@.nodes, to@),
                        edge: edge@,
                    },
                )
                &&& final(self)@.metadata == old(self)@.metadata
            },
    {
        let source: usize = match self.lookup(from) {
            Some(handle) => handle,
            None => {
                return Err(VowlError::GraphError(unknown_node_message(from)));
            },
        };
        let target: usize = match self.lookup(to) {
            Some(handle) => handle,
            None => {
                return Err(VowlError::GraphError(unknown_node_message(to)));
            },
        };
        let link = Link { source, target, edge };
        self.links.push(link);
        proof {
            assert(self@.nodes =~= old(self)@.nodes);
            assert(self@.links =~= old(self)@.links.push(link@));
        }
        Ok(())
    }

    /// The handle that the table gives for an id.
    fn lookup(&self, id: &str) -> (r: Option<usize>)
        requires
            self.wf(),
        ensures
            r is Some <==> has_id(self@.nodes, id@),
            r matches Some(h) ==> h == handle_of(self@.nodes, id@) && h < self@.nodes.len()
                && self@.nodes[h as int].id == id@,
    {
        match self.index.get(id) {
            Some(handle) => {
                proof {
                    assert(self@.nodes[*handle as int].id == id@);
                    assert(handle_of(self@.nodes, id@) == *handle);
                }
                Some(*handle)
            },
            None => {
                proof {
                    if has_id(self@.nodes, id@) {
                        let i = handle_of(self@.nodes, id@);
                        assert(self.index@.contains_key(self.nodes[i].id@));
                    }
                }
                None
            },
        }
    }

    /// All nodes, in the order in which they were added.
    pub fn nodes(&self) -> (r: Vec<&Node>)
        ensures
            r@.map_values(|n: &Node| n@) == self@.nodes,
    {
        let mut out: Vec<&Node> = Vec::new();
        let mut i: usize = 0;
        while i < self.nodes.len()
            invariant
                i <= self.nodes.len(),
                out.len() == i,
                forall|j: int| 0 <= j < i ==> out[j] == &self.nodes[j],
            decreases self.nodes.len() - i,
        {
            out.push(&self.nodes[i]);
            i += 1;
        }
        assert(out@.map_values(|n: &Node| n@) =~= self@.nodes);
        out
    }

    /// All edges, in the order in which they were added.
    pub fn edges(&self) -> (r: Vec<&Edge>)
        ensures
            r@.map_values(|e: &Edge| e@) == self@.links.map_values(|l: LinkView| l.edge),
    {
        let mut out: Vec<&Edge> = Vec::new();
        let mut i: usize = 0;
        while i < self.links.len()
            invariant
                i <= self.links.len(),
                out.len() == i,
                forall|j: int| 0 <= j < i ==> out[j] == &self.links[j].edge,
            decreases self.links.len() - i,
        {
            out.push(&self.links[i].edge);
            i += 1;
        }
        assert(out@.map_values(|e: &Edge| e@) =~= self@.links.map_values(|l: LinkView| l.edge));
        out
    }

    /// The nodes that the outgoing edges of a node lead to, the most recently
    /// added edge first; a node reached by several edges appears once for
    /// each. Incoming edges do not count.
    pub fn neighbors(&self, id: &str) -> (r: Result<Vec<&Node>, VowlError>)
        requires
            self.wf(),
        ensures
            !has_id(self@.nodes, id@) ==> {
                &&& r matches Err(e)
                &&& e is GraphError
                &&& e.detail() == unknown_node_detail(id@)
            },
            has_id(self@.nodes, id@) ==> {
                &&& r matches Ok(v)
                &&& v@.map_values(|n: &Node| n@) == successors(
                    self@.links,
                    handle_of(self@.nodes, id@),
                ).map_values(|t: int| self@.nodes[t])
            },
    {
        let source: usize = match self.lookup(id) {
            Some(handle) => handle,
            None => {
                return Err(VowlError::GraphError(unknown_node_message(id)));
            },
        };
        let handles = self.successor_handles(source);
        let mut out: Vec<&Node> = Vec::new();
        let mut i: usize = 0;
        while i < handles.len()
            invariant
                i <= handles.len(),
                out.len() == i,
                forall|j: int| 0 <= j < handles.len() ==> handles[j] < self.nodes.len(),
                forall|j: int| 0 <= j < i ==> out[j] == &self.nodes[handles[j] as int],
            decreases handles.len() - i,
        {
            out.push(&self.nodes[handles[i]]);
            i += 1;
        }
        assert(out@.map_values(|n: &Node| n@) =~= successors(
            self@.links,
            source as int,
        ).map_values(|t: int| self@.nodes[t]));
        Ok(out)
    }

    /// The handles that the outgoing edges of a node lead to, the most
    /// recently added edge first.
    pub fn successor_handles(&self, source: usize) -> (r: Vec<usize>)
        requires
            self.wf(),
        ensures
            r@.map_values(|h: usize| h as int) == successors(self@.links, source as int),
            forall|j: int| 0 <= j < r.len() ==> r[j] < self@.nodes.len(),
    {
        let mut out: Vec<usize> = Vec::new();
        let mut k: usize = self.links.len();
        proof {
            assert(self@.links.take(k as int) =~= self@.links);
        }
        while k > 0
            invariant
                k <= self.links.len(),
                self.wf(),
                out@.map_values(|h: usize| h as int) + successors(
                    self@.links.take(k as int),
                    source as int,
                ) == successors(self@.links, source as int),
                forall|j: int| 0 <= j < out.len() ==> out[j] < self@.nodes.len(),
            decreases k,
        {
            k -= 1;
            proof {
                let before = self@.links.take(k + 1);
                assert(before.drop_last() =~= self@.links.take(k as int));
                assert(before.last() == self@.links[k as int]);
                assert(self@.links[k as int] == self.links[k as int]@);
            }
            if self.links[k].source == source {
                let ghost prior = out@.map_values(|h: usize| h as int);
                out.push(self.links[k].target);
                proof {
                    assert(out@.map_values(|h: usize| h as int) =~= prior.push(
                        self.links[k as int].target as int,
                    ));
                    assert(prior.push(self.links[k as int].target as int) + successors(
                        self@.links.take(k as int),
                        source as int,
                    ) =~= prior + (seq![self.links[k as int].target as int] + successors(
                        self@.links.take(k as int),
                        source as int,
                    )));
                }
            }
        }
        proof {
            assert(self@.links.take(0) =~= Seq::<LinkView>::empty());
            assert(out@.map_values(|h: usize| h as int) + Seq::<int>::empty()
                =~= out@.map_values(|h: usize| h as int));
        }
        out
    }

    /// The number of outgoing edges of a node. Incoming edges do not count.
    pub fn degree(&self, id: &str) -> (r: Result<usize, VowlError>)
        requires
            self.wf(),
        ensures
            !has_id(self@.nodes, id@) ==> {
                &&& r matches Err(e)
                &&& e is GraphError
                &&& e.detail() == unknown_node_detail(id@)
            },
            has_id(self@.nodes, id@) ==> r == Ok::<usize, VowlError>(
                out_degree(self@.links, handle_of(self@.nodes, id@)) as usize,
            ),
    {
        let source: usize = match self.lookup(id) {
            Some(handle) => handle,
            None => {
                return Err(VowlError::GraphError(unknown_node_message(id)));
            },
        };
        let mut count: usize = 0;
        let mut k: usize = 0;
        proof {
            assert(self@.links.take(0) =~= Seq::<LinkView>::empty());
        }
        while k < self.links.len()
            invariant
                k <= self.links.len(),
                count <= k,
                count == out_degree(self@.links.take(k as int), source as int),
            decreases self.links.len() - k,
        {
            proof {
                assert(self@.links.take(k + 1) =~= self@.links.take(k as int).push(
                    self@.links[k as int],
                ));
                lemma_out_degree_push(
                    self@.links.take(k as int),
                    self@.links[k as int],
                    source as int,
                );
                assert(self@.links[k as int] == self.links[k as int]@);
            }
            if self.links[k].source == source {
                count += 1;
            }
            k += 1;
        }
        proof {
            assert(self@.links.take(k as int) =~= self@.links);
        }
        Ok(count)
    }

    /// The out-degree of every node, by handle.
    fn out_degrees(&self) -> (counts: Vec<usize>)
        requires
            self.wf(),
        ensures
            counts.len() == self@.nodes.len(),
            forall|i: int|
                0 <= i < counts.len() ==> counts[i] == #[trigger] out_degree(self@.links, i),
    {
        let node_count: usize = self.nodes.len();
        let mut counts: Vec<usize> = Vec::new();
        let mut i: usize = 0;
        while i < node_count
            invariant
                i <= node_count,
                counts.len() == i,
                forall|j: int| 0 <= j < i ==> counts[j] == 0,
            decreases node_count - i,
        {
            counts.push(0);
            i += 1;
        }
        let mut k: usize = 0;
        proof {
            assert(self@.links.take(0) =~= Seq::<LinkView>::empty());
        }
        while k < self.links.len()
            invariant
                k <= self.links.len(),
                self.wf(),
                node_count == self@.nodes.len(),
                counts.len() == node_count,
                forall|j: int|
                    0 <= j < counts.len() ==> counts[j] == #[trigger] out_degree(
                        self@.links.take(k as int),
                        j,
                    ),
            decreases self.links.len() - k,
        {
            let source: usize = self.links[k].source;
            proof {
                assert(self@.links[k as int] == self.links[k as int]@);
                assert(self@.links.take(k + 1) =~= self@.links.take(k as int).push(
                    self@.links[k as int],
                ));
                assert forall|j: int| 0 <= j < counts.len() implies #[trigger] out_degree(
                    self@.links.take(k + 1),
                    j,
                ) == counts[j] + if j == source {
                    1nat
                } else {
                    0nat
                } by {
                    lemma_out_degree_push(self@.links.take(k as int), self@.links[k as int], j);
                }
                lemma_out_degree_bounded(self@.links.take(k as int), source as int);
                assert(0 <= self@.links[k as int].source < node_count);
            }
            let bumped: usize = counts[source] + 1;
            counts.set(source, bumped);
            k += 1;
        }
        proof {
            assert(self@.links.take(k as int) =~= self@.links);
        }
        counts
    }

    /// Recomputes the statistics from the nodes and edges as they are now.
    /// Nothing else computes them: after a change to the graph they are
    /// stale until this is called again.
    pub fn update_metadata(&mut self)
        requires
            old(self).wf(),
        ensures
            final(self).wf(),
            final(self)@.nodes == old(self)@.nodes,
            final(self)@.links == old(self)@.links,
            final(self)@.metadata == metadata_of(old(self)@.nodes, old(self)@.links),
    {
        let node_count: usize = self.nodes.len();
        let mut classes: usize = 0;
        let mut i: usize = 0;
        proof {
            assert(self@.nodes.take(0) =~= Seq::<NodeView>::empty());
        }
        while i < node_count
            invariant
                i <= node_count,
                node_count == self.nodes.len(),
                classes <= i,
                classes == class_count(self@.nodes.take(i as int)),
            decreases node_count - i,
        {
            proof {
                let upto = self@.nodes.take(i + 1);
                assert(upto.drop_last() =~= self@.nodes.take(i as int));
                assert(upto.last() == self.nodes[i as int]@);
            }
            match self.nodes[i].node_type {
                NodeType::Class => {
                    classes += 1;
                },
                _ => {},
            }
            i += 1;
        }
        proof {
            assert(self@.nodes.take(i as int) =~= self@.nodes);
        }
        let counts = self.out_degrees();
        let mut largest: usize = 0;
        let mut j: usize = 0;
        while j < node_count
            invariant
                j <= node_count,
                counts.len() == node_count,
                node_count == self@.nodes.len(),
                forall|i: int|
                    0 <= i < counts.len() ==> counts[i] == #[trigger] out_degree(self@.links, i),
                largest == max_out_degree(self@.links, j as nat),
            decreases node_count - j,
        {
            if counts[j] > largest {
                largest = counts[j];
            }
            j += 1;
        }
        let edge_count: usize = self.links.len();
        let density = if node_count > 1 {
            let n: u128 = node_count as u128;
            assert(n * (n - 1) <= u128::MAX) by (nonlinear_arith)
                requires
                    1 < n <= 0xFFFF_FFFF_FFFF_FFFF,
            ;
            Ratio { numerator: edge_count as u128, denominator: n * (n - 1) }
        } else {
            Ratio { numerator: 0, denominator: 1 }
        };
        self.metadata =
        GraphMetadata {
            class_count: classes,
            property_count: edge_count,
            max_degree: largest,
            density,
        };
        proof {
            assert(self@.nodes =~= old(self)@.nodes);
            assert(self@.links =~= old(self)@.links);
        }
    }

    /// The node with the given handle, if there is one.
    pub fn node(&self, handle: usize) -> (r: Option<&Node>)
        ensures
            r is Some <==> handle < self@.nodes.len(),
            r matches Some(n) ==> n@ == self@.nodes[handle as int],
    {
        if handle < self.nodes.len() {
            Some(&self.nodes[handle])
        } else {
            None
        }
    }

    /// Mutable access to the node with the given handle, if there is one.
    /// What the caller writes through the reference becomes the node; the
    /// graph stays well formed as long as the node keeps its id.
    pub fn node_mut(&mut self, handle: usize) -> (r: Option<&mut Node>)
        requires
            old(self).wf(),
        ensures
            r is Some <==> handle < old(self)@.nodes.len(),
            r is None ==> final(self)@ == old(self)@ && final(self).wf(),
            r matches Some(n) ==> {
                &&& n@ == old(self)@.nodes[handle as int]
                &&& final(self)@.nodes == old(self)@.nodes.update(handle as int, final(n)@)
                &&& final(self)@.links == old(self)@.links
                &&& final(self)@.metadata == old(self)@.metadata
                &&& final(n)@.id == n@.id ==> final(self).wf()
            },
    {
        if handle < self.nodes.len() {
            Some(&mut self.nodes[handle])
        } else {
            None
        }
    }
}

/// A copy of a list of strings.
fn copy_strings(strings: &Vec<String>) -> (copy: Vec<String>)
    ensures
        copy@.map_values(|s: String| s@) == strings@.map_values(|s: String| s@),
{
    let mut copy: Vec<String> = Vec::new();
    let mut i: usize = 0;
    while i < strings.len()
        invariant
            i <= strings.len(),
            copy.len() == i,
            forall|j: int| 0 <= j < i ==> copy[j]@ == strings[j]@,
        decreases strings.len() - i,
    {
        copy.push(strings[i].clone());
        i += 1;
    }
    assert(copy@.map_values(|s: String| s@) =~= strings@.map_values(|s: String| s@));
    copy
}

/// A copy of a node.
fn copy_node(node: &Node) -> (copy: Node)
    ensures
        copy@ == node@,
{
    Node {
        id: node.id.clone(),
        label: node.label.clone(),
        node_type: match &node.node_type {
            NodeType::Class => NodeType::Class,
            NodeType::Datatype => NodeType::Datatype,
            NodeType::Special(name) => NodeType::Special(name.clone()),
        },
        visual: VisualAttributes {
            x: node.visual.x,
            y: node.visual.y,
            vx: node.visual.vx,
            vy: node.visual.vy,
            fixed: node.visual.fixed,
            weight: node.visual.weight,
            color: match &node.visual.color {
                Some(c) => Some(c.clone()),
                None => None,
            },
        },
        semantic: SemanticAttributes {
            iri: node.semantic.iri.clone(),
            external: node.semantic.external,
            equivalent: copy_strings(&node.semantic.equivalent),
            individuals: node.semantic.individuals,
        },
    }
}

/// A copy of a link.
fn copy_link(link: &Link) -> (copy: Link)
    ensures
        copy@ == link@,
{
    Link {
        source: link.source,
        target: link.target,
        edge: Edge {
            id: link.edge.id.clone(),
            label: link.edge.label.clone(),
            edge_type: match &link.edge.edge_type {
                EdgeType::ObjectProperty => EdgeType::ObjectProperty,
                EdgeType::DatatypeProperty => EdgeType::DatatypeProperty,
                EdgeType::SubClass => EdgeType::SubClass,
                EdgeType::Special(name) => EdgeType::Special(name.clone()),
            },
            characteristics: EdgeCharacteristics {
                functional: link.edge.characteristics.functional,
                inverse_functional: link.edge.characteristics.inverse_functional,
                transitive: link.edge.characteristics.transitive,
                symmetric: link.edge.characteristics.symmetric,
                cardinality: link.edge.characteristics.cardinality,
            },
        },
    }
}

impl Clone for VowlGraph {
    /// A copy with the same nodes, edges and statistics, and an id table of
    /// its own. The copy of a well-formed graph is well formed.
    fn clone(&self) -> (copy: VowlGraph)
        ensures
            copy@ == self@,
            self.wf() ==> copy.wf(),
    {
        let mut nodes: Vec<Node> = Vec::new();
        let mut index: StringHashMap<usize> = StringHashMap::new();
        let mut i: usize = 0;
        while i < self.nodes.len()
            invariant
                i <= self.nodes.len(),
                nodes.len() == i,
                forall|j: int| 0 <= j < i ==> (#[trigger] nodes[j])@ == self.nodes[j]@,
                forall|k: Seq<char>| #[trigger]
                    index@.contains_key(k) ==> index@[k] < i && self.nodes[index@[k] as int].id@
                        == k,
                forall|j: int| 0 <= j < i ==> index@.contains_key(#[trigger] self.nodes[j].id@),
            decreases self.nodes.len() - i,
        {
            let node = copy_node(&self.nodes[i]);
            index.insert(node.id.clone(), i);
            nodes.push(node);
            i += 1;
        }
        let mut links: Vec<Link> = Vec::new();
        let mut k: usize = 0;
        while k < self.links.len()
            invariant
                k <= self.links.len(),
                links.len() == k,
                forall|j: int| 0 <= j < k ==> (#[trigger] links[j])@ == self.links[j]@,
            decreases self.links.len() - k,
        {
            links.push(copy_link(&self.links[k]));
            k += 1;
        }
        let copy = VowlGraph { nodes, links, index, metadata: self.metadata };
        proof {
            assert(copy@.nodes =~= self@.nodes);
            assert(copy@.links =~= self@.links);
            if self.wf() {
                assert forall|j: int| 0 <= j < copy.nodes.len() implies copy.index@.contains_key(
                    #[trigger] copy.nodes[j].id@,
                ) && copy.index@[copy.nodes[j].id@] == j by {
                    assert(copy.nodes[j]@ == self.nodes[j]@);
                    let h = copy.index@[self.nodes[j].id@] as int;
                    assert(self@.nodes[h].id == self@.nodes[j].id);
                }
                assert forall|key: Seq<char>| #[trigger]
                    copy.index@.contains_key(key) implies copy.index@[key] < copy.nodes.len()
                    && copy.nodes[copy.index@[key] as int].id@ == key by {
                    let h = copy.index@[key] as int;
                    assert(copy.nodes[h]@ == self.nodes[h]@);
                }
            }
        }
        copy
    }
}

impl Default for VowlGraph {
    fn default() -> (g: VowlGraph)
        ensures
            g.wf(),
            g@.nodes.len() == 0,
            g@.links.len() == 0,
            g@.metadata == GraphMetadata::initial(),
    {
        VowlGraph::new()
    }
}

/// The empty graph has no node, whatever the id: every edge offered to it
/// is refused.
pub proof fn lemma_empty_has_no_id(id: Seq<char>)
    ensures
        !has_id(Seq::<NodeView>::empty(), id),
{
}

/// Once a node is added its id is taken, so a second node with that id is
/// refused; the ids that were taken before stay taken.
pub proof fn lemma_added_id_is_taken(nodes: Seq<NodeView>, node: NodeView, id: Seq<char>)
    ensures
        has_id(nodes.push(node), node.id),
        has_id(nodes, id) ==> has_id(nodes.push(node), id),
{
    assert(nodes.push(node)[nodes.len() as int].id == node.id);
    if has_id(nodes, id) {
        let h = handle_of(nodes, id);
        assert(nodes.push(node)[h].id == id);
    }
}

/// Handles are stable: adding a node with a new id changes the handle of no
/// node that was there.
pub proof fn lemma_handles_are_stable(nodes: Seq<NodeView>, node: NodeView, id: Seq<char>)
    requires
        ids_unique(nodes),
        !has_id(nodes, node.id),
        has_id(nodes, id),
    ensures
        ids_unique(nodes.push(node)),
        handle_of(nodes.push(node), id) == handle_of(nodes, id),
{
    let grown = nodes.push(node);
    assert forall|i: int, j: int|
        0 <= i < grown.len() && 0 <= j < grown.len() && (#[trigger] grown[i]).id == (
        #[trigger] grown[j]).id implies i == j by {
        if i < nodes.len() && j < nodes.len() {
            assert(nodes[i].id == nodes[j].id);
        } else if i < nodes.len() {
            assert(nodes[i].id == node.id);
        } else if j < nodes.len() {
            assert(nodes[j].id == node.id);
        }
    }
    let h = handle_of(nodes, id);
    assert(grown[h].id == id);
    let g = handle_of(grown, id);
    assert(grown[g].id == grown[h].id);
}

/// With unique ids, the handle of a node's id is the node's position.
pub proof fn lemma_handle_of_position(nodes: Seq<NodeView>, i: int)
    requires
        ids_unique(nodes),
        0 <= i < nodes.len(),
    ensures
        has_id(nodes, nodes[i].id),
        handle_of(nodes, nodes[i].id) == i,
{
    assert(nodes[i].id == nodes[i].id);
    let h = handle_of(nodes, nodes[i].id);
    assert(nodes[h].id == nodes[i].id);
}

/// The out-degrees of the first `node_count` handles, added up.
pub open spec fn total_out_degree(links: Seq<LinkView>, node_count: nat) -> nat
    decreases node_count,
{
    if node_count == 0 {
        0
    } else {
        total_out_degree(links, (node_count - 1) as nat) + out_degree(links, node_count - 1)
    }
}

/// A link whose source is none of the first `node_count` handles adds
/// nothing to their out-degrees; one whose source is among them adds one.
proof fn lemma_total_out_degree_push(links: Seq<LinkView>, link: LinkView, node_count: nat)
    ensures
        total_out_degree(links.push(link), node_count) == total_out_degree(links, node_count)
            + if 0 <= link.source < node_count {
            1nat
        } else {
            0nat
        },
    decreases node_count,
{
    if node_count > 0 {
        lemma_total_out_degree_push(links, link, (node_count - 1) as nat);
        lemma_out_degree_push(links, link, node_count - 1);
    }
}

/// Every link leaves exactly one node: the out-degrees of all nodes add up
/// to the number of links.
pub proof fn lemma_out_degrees_add_up(links: Seq<LinkView>, node_count: nat)
    requires
        links_in_range(links, node_count),
    ensures
        total_out_degree(links, node_count) == links.len(),
    decreases links.len(),
{
    if links.len() == 0 {
        assert(links =~= Seq::<LinkView>::empty());
        lemma_total_out_degree_of_none(node_count);
    } else {
        let before = links.drop_last();
        assert forall|k: int| 0 <= k < before.len() implies 0 <= (#[trigger] before[k]).source
            < node_count && 0 <= before[k].target < node_count by {
            assert(before[k] == links[k]);
        }
        lemma_out_degrees_add_up(before, node_count);
        assert(before.push(links.last()) =~= links);
        assert(0 <= links[links.len() - 1].source < node_count);
        lemma_total_out_degree_push(before, links.last(), node_count);
    }
}

/// Without links every out-degree is zero.
proof fn lemma_total_out_degree_of_none(node_count: nat)
    ensures
        total_out_degree(Seq::<LinkView>::empty(), node_count) == 0,
    decreases node_count,
{
    if node_count > 0 {
        lemma_total_out_degree_of_none((node_count - 1) as nat);
    }
}

/// A well-formed graph has a valid value: unique ids, and links between
/// existing nodes.
pub proof fn lemma_wf_valid(g: &VowlGraph)
    requires
        g.wf(),
    ensures
        g@.valid(),
{
}


} // verus!
