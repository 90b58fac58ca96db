//! The error type shared by every fallible operation.

use vstd::prelude::*;
use vstd::string::StringExecFns;

verus! {

/// What went wrong, with a message for the person who reads it.
#[derive(Debug, Clone)]
pub enum VowlError {
    /// The ontology text could not be read.
    ParseError(String),
    /// The ontology was read but is not consistent.
    InvalidData(String),
    /// A graph operation was refused.
    GraphError(String),
    /// A layout computation failed.
    LayoutError(String),
    /// Rendering failed.
    RenderError(String),
    /// The host binding failed.
    BindingError(String),
}

impl VowlError {
    /// The detail carried by the error, whatever its kind.
    pub open spec fn detail(self) -> Seq<char> {
        match self {
            VowlError::ParseError(s) => s@,
            VowlError::InvalidData(s) => s@,
            VowlError::GraphError(s) => s@,
            VowlError::LayoutError(s) => s@,
            VowlError::RenderError(s) => s@,
            VowlError::BindingError(s) => s@,
        }
    }

    /// The fixed text that introduces the detail of each kind.
    pub open spec fn prefix(self) -> Seq<char> {
        match self {
            VowlError::ParseError(_) => "Failed to parse ontology: "@,
            VowlError::InvalidData(_) => "Invalid ontology data: "@,
            VowlError::GraphError(_) => "Graph error: "@,
            VowlError::LayoutError(_) => "Layout error: "@,
            VowlError::RenderError(_) => "Rendering error: "@,
            VowlError::BindingError(_) => "Binding error: "@,
        }
    }

    /// The full message: the kind's prefix followed by the detail.
    pub open spec fn spec_message(self) -> Seq<char> {
        self.prefix() + self.detail()
    }

    /// The full message.
    pub fn message(&self) -> (text: String)
        ensures
            text@ == self.spec_message(),
    {
        match self {
            VowlError::ParseError(s) => String::from_str("Failed to parse ontology: ").concat(
                s.as_str(),
            ),
            VowlError::InvalidData(s) => String::from_str("Invalid ontology data: ").concat(
                s.as_str(),
            ),
            VowlError::GraphError(s) => String::from_str("Graph error: ").concat(s.as_str()),
            VowlError::LayoutError(s) => String::from_str("Layout error: ").concat(s.as_str()),
            VowlError::RenderError(s) => String::from_str("Rendering error: ").concat(s.as_str()),
            VowlError::BindingError(s) => String::from_str("Binding error: ").concat(s.as_str()),
        }
    }
}

} // verus!
