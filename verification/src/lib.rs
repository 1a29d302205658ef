//! Build HTML documents as immutable trees of nodes and serialize them to
//! escaped markup strings.
//!
//! The tree is a closed set of node variants: normal elements, void
//! elements, escaped text, verbatim raw markup, and an empty node that
//! renders to nothing. Serialization is a pure recursive walk whose output
//! is pinned down, character by character, by the specification functions
//! of the [`render`] and [`escape`] modules.

pub mod elements;
pub mod escape;
pub mod node;
pub mod render;
