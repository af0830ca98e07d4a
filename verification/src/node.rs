use vstd::prelude::*;

verus! {

/// The kind of a node. A value of this type is also used (wrapped in
/// `Option`) as the compilation context: the compiler passes the kind of
/// the enclosing node down when it recurses into attributes or children.
#[derive(Clone, Copy)]
pub enum NodeType {
    Element,
    Attribute,
    Text,
    Block,
    Fragment,
    Comment,
    Doctype,
}

/// One node of the markup tree handed to the compiler by a front end.
///
/// Expression fragments (the `value` payloads) are opaque host-language
/// text: the compiler never inspects them, it only orders and relays them.
#[allow(inconsistent_fields)]
pub enum Node {
    /// A tag with attributes and children, such as `<div ...>...</div>`.
    Element { tag_name: String, attributes: Vec<Node>, children: Vec<Node> },
    /// A single attribute; without a value it renders as a bare attribute.
    Attribute { name: String, value: Option<String> },
    /// A literal text child, carried as an expression fragment.
    Text { value: String },
    /// An embedded host-language expression in braces.
    Block { value: String },
    /// A grouping node that contributes no markup of its own.
    Fragment { children: Vec<Node> },
    /// A comment; its body is an expression fragment.
    Comment { value: String },
    /// A doctype declaration; its value is plain, already-resolved text.
    Doctype { value: String },
}

/// What a compilation produces: a template whose only braces are `{}`
/// placeholders, and the expression fragments to substitute for them,
/// in the left-to-right order the placeholders appear.
pub struct CompiledOutput {
    pub template: String,
    pub values: Vec<String>,
}

} // verus!
