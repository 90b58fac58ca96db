//! The vocabulary of class and property kinds.

use vstd::prelude::*;

verus! {

/// The kinds of class that can be drawn.
#[derive(Debug, Clone, Copy, PartialEq, Eq, Hash, Structural)]
pub enum OwlClassType {
    /// An ordinary class.
    Class,
    /// A datatype.
    Datatype,
    /// The class of everything.
    Thing,
    /// The empty class.
    Nothing,
    /// A class that is no longer to be used.
    Deprecated,
    /// A class defined elsewhere.
    External,
}

/// The kinds of property that can be drawn.
#[derive(Debug, Clone, Copy, PartialEq, Eq, Hash, Structural)]
pub enum OwlPropertyType {
    /// A property between two classes.
    ObjectProperty,
    /// A property from a class to a datatype.
    DatatypeProperty,
    /// The subclass relation.
    SubClassOf,
    /// Disjointness of two classes.
    DisjointWith,
    /// A set operator.
    SetOperator,
}

/// The operators that build a class from other classes.
#[derive(Debug, Clone, Copy, PartialEq, Eq, Hash, Structural)]
pub enum SetOperator {
    /// The union of classes.
    Union,
    /// The intersection of classes.
    Intersection,
    /// The complement of a class.
    Complement,
    /// The union of pairwise disjoint classes.
    DisjointUnion,
}

} // verus!
