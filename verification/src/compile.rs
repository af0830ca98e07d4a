use vstd::prelude::*;
use vstd::string::StringExecFns;

use crate::model::{compile_node, compile_nodes, lemma_compile_nodes_snoc, spec_is_void};
use crate::node::{CompiledOutput, Node, NodeType};

verus! {

/// Whether `tag` is one of the sixteen void element tags, compared
/// case-sensitively.
pub fn is_void_tag(tag: &String) -> (r: bool)
    ensures
        r == spec_is_void(tag@),
{
    *tag == String::from_str("area") || *tag == String::from_str("base") || *tag
        == String::from_str("br") || *tag == String::from_str("col") || *tag == String::from_str(
        "embed",
    ) || *tag == String::from_str("hr") || *tag == String::from_str("img") || *tag
        == String::from_str("input") || *tag == String::from_str("link") || *tag
        == String::from_str("meta") || *tag == String::from_str("param") || *tag
        == String::from_str("source") || *tag == String::from_str("track") || *tag
        == String::from_str("wbr")
}

/// Compiles one node into its template fragment and ordered expression
/// list, exactly as `compile_node` describes.
pub fn walk_node(node: &Node, nodes_context: Option<NodeType>) -> (out: CompiledOutput)
    ensures
        out.template@ == compile_node(*node, nodes_context).0,
        out.values@ == compile_node(*node, nodes_context).1,
    decreases *node,
{
    let mut template = String::new();
    let mut values: Vec<String> = Vec::new();
    match node {
        Node::Element { tag_name, attributes, children } => {
            template.append("<");
            template.append(tag_name.as_str());
            let mut attrs = walk_nodes(attributes, Some(NodeType::Attribute));
            template.append(attrs.template.as_str());
            values.append(&mut attrs.values);
            template.append(">");
            if !is_void_tag(tag_name) {
                let mut kids = walk_nodes(children, Some(NodeType::Element));
                template.append(kids.template.as_str());
                values.append(&mut kids.values);
                template.append("</");
                template.append(tag_name.as_str());
                template.append(">");
            }
        },
        Node::Attribute { name, value } => {
            template.append(" ");
            template.append(name.as_str());
            match value {
                Some(v) => {
                    template.append("=\"{}\"");
                    values.push(v.clone());
                },
                None => {},
            }
        },
        Node::Text { value } => {
            if in_attribute_context(nodes_context) {
                template.append(" ");
            }
            template.append("{}");
            values.push(value.clone());
        },
        Node::Block { value } => {
            if in_attribute_context(nodes_context) {
                template.append(" ");
            }
            template.append("{}");
            values.push(value.clone());
        },
        Node::Fragment { children } => {
            let mut inner = walk_nodes(children, Some(NodeType::Fragment));
            template.append(inner.template.as_str());
            values.append(&mut inner.values);
        },
        Node::Comment { value } => {
            template.append("<!-- ");
            template.append("{}");
            template.append(" -->");
            values.push(value.clone());
        },
        Node::Doctype { value } => {
            template.append("<!DOCTYPE ");
            template.append(value.as_str());
            template.append(">");
        },
    }
    proof {
        assert(template@ =~= compile_node(*node, nodes_context).0);
        assert(values@ =~= compile_node(*node, nodes_context).1);
    }
    CompiledOutput { template, values }
}

/// Whether the compilation context is an attribute list.
fn in_attribute_context(ctx: Option<NodeType>) -> (r: bool)
    ensures
        r == (ctx == Some(NodeType::Attribute)),
{
    match ctx {
        Some(NodeType::Attribute) => true,
        _ => false,
    }
}

/// Compiles a sequence of sibling nodes in order, concatenating their
/// template fragments and expression lists, exactly as `compile_nodes`
/// describes. The result is a pure function of the tree and the context.
pub fn walk_nodes(nodes: &Vec<Node>, nodes_context: Option<NodeType>) -> (out: CompiledOutput)
    ensures
        out.template@ == compile_nodes(nodes@, nodes_context).0,
        out.values@ == compile_nodes(nodes@, nodes_context).1,
    decreases nodes@,
{
    let mut template = String::new();
    let mut values: Vec<String> = Vec::new();
    let mut i: usize = 0;
    while i < nodes.len()
        invariant
            i <= nodes.len(),
            template@ == compile_nodes(nodes@.take(i as int), nodes_context).0,
            values@ == compile_nodes(nodes@.take(i as int), nodes_context).1,
        decreases nodes.len() - i,
    {
        let mut one = walk_node(&nodes[i], nodes_context);
        template.append(one.template.as_str());
        values.append(&mut one.values);
        proof {
            assert(nodes@.take(i + 1) =~= nodes@.take(i as int).push(nodes@[i as int]));
            lemma_compile_nodes_snoc(nodes@.take(i as int), nodes@[i as int], nodes_context);
        }
        i = i + 1;
    }
    proof {
        assert(nodes@.take(nodes@.len() as int) =~= nodes@);
    }
    CompiledOutput { template, values }
}

} // verus!

