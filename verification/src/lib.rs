//! A retained-mode UI scene-graph core.
//!
//! Applications describe a tree of visual and interactive nodes each frame.
//! The library resolves that tree against a resource pool (fonts, shaping
//! caches), lays it out, diffs it against the previous frame's resolved tree
//! to preserve interaction state, and flattens the result into a paint-order
//! list for a renderer.
//!
//! Geometry is integral: coordinates are whole pixels (`i64`), and normalized
//! factors in `[0, 1]` are carried in thousandths (see [`geom::Frac`]), so
//! every layout computation has an exact arithmetic meaning.
//!
//! Closures of the host application (interaction callbacks, custom draw
//! callbacks, listeners) are carried as opaque [`node::CallbackId`] handles;
//! the host keeps the actual closures and invokes the handles this library
//! hands back, so the decision logic here is independent of what the
//! callbacks do.

use vstd::prelude::*;

pub mod builder;
pub mod diff;
pub mod flatten;
pub mod geom;
pub mod hit;
pub mod identity;
pub mod layout;
pub mod layout_pass;
pub mod node;
pub mod paint;
pub mod resolve;
pub mod store;
pub mod text;
pub mod widget;

verus! {

/// Errors surfaced by node resolution.
#[derive(Debug, Clone, PartialEq, Eq)]
pub enum Error {
    /// A `Text` node referenced a font name absent from the resource pool.
    InvalidFont(String),
    /// An `Interact` or `Capture` wrapper's child resolved to nothing; these
    /// wrappers require exactly one substantive child.
    EmptyNode,
}

/// The mathematical value of an [`Error`].
pub enum ErrorV {
    InvalidFont(Seq<char>),
    EmptyNode,
}

impl View for Error {
    type V = ErrorV;

    open spec fn view(&self) -> ErrorV {
        match self {
            Error::InvalidFont(name) => ErrorV::InvalidFont(name@),
            Error::EmptyNode => ErrorV::EmptyNode,
        }
    }
}

impl Error {
    /// A human-readable description of the error.
    pub fn message(&self) -> (r: String)
        ensures
            r@ == match self {
                Error::InvalidFont(_) => "no such font found in resources"@,
                Error::EmptyNode => "invalid child placed in an interact/capture node"@,
            },
    {
        match self {
            Error::InvalidFont(_) => "no such font found in resources".to_string(),
            Error::EmptyNode => "invalid child placed in an interact/capture node".to_string(),
        }
    }
}

} // verus!
