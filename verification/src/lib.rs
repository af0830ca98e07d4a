//! A compiler from a tree of markup nodes (elements, attributes, text,
//! embedded expressions, fragments, comments, a doctype) to a template
//! string with positional `{}` placeholders plus the ordered list of
//! expression fragments that fill them.
//!
//! The tree is produced by an external front end and the template is
//! consumed by an external evaluator; this crate owns only the compilation
//! step in between, together with the recognizer for the `%= expr %`
//! escaping sugar applied to raw block content before tree construction.

pub mod compile;
pub mod escape;
pub mod laws;
pub mod model;
pub mod node;
