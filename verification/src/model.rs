use vstd::prelude::*;

use crate::node::{Node, NodeType};

verus! {

/// The sixteen void element tags: elements that never take children or a
/// closing tag. Matching is case-sensitive; every other tag is non-void.
pub open spec fn spec_is_void(tag: Seq<char>) -> bool {
    ||| tag == "area"@
    ||| tag == "base"@
    ||| tag == "br"@
    ||| tag == "col"@
    ||| tag == "embed"@
    ||| tag == "hr"@
    ||| tag == "img"@
    ||| tag == "input"@
    ||| tag == "link"@
    ||| tag == "meta"@
    ||| tag == "param"@
    ||| tag == "source"@
    ||| tag == "track"@
    ||| tag == "wbr"@
}

/// What a `Text` or `Block` node contributes: a `{}` placeholder carrying
/// the node's expression, preceded by a space when the enclosing context is
/// an attribute list, so that a bare expression used as a whole attribute
/// token stays separated from its neighbours.
pub open spec fn compile_text_block(value: String, ctx: Option<NodeType>) -> (Seq<char>, Seq<
    String,
>) {
    if ctx == Some(NodeType::Attribute) {
        (" "@ + "{}"@, seq![value])
    } else {
        ("{}"@, seq![value])
    }
}

/// The template text and ordered expression list produced by a sequence of
/// sibling nodes: each node's contribution, concatenated in sibling order.
pub open spec fn compile_nodes(nodes: Seq<Node>, ctx: Option<NodeType>) -> (Seq<char>, Seq<String>)
    decreases nodes,
{
    if nodes.len() == 0 {
        (Seq::<char>::empty(), Seq::<String>::empty())
    } else {
        let head = compile_node(nodes[0], ctx);
        let rest = compile_nodes(nodes.drop_first(), ctx);
        (head.0 + rest.0, head.1 + rest.1)
    }
}

/// The template text and ordered expression list produced by one node.
pub open spec fn compile_node(node: Node, ctx: Option<NodeType>) -> (Seq<char>, Seq<String>)
    decreases node,
{
    match node {
        Node::Element { tag_name, attributes, children } => {
            let attrs = compile_nodes(attributes@, Some(NodeType::Attribute));
            if spec_is_void(tag_name@) {
                ("<"@ + tag_name@ + attrs.0 + ">"@, attrs.1)
            } else {
                let kids = compile_nodes(children@, Some(NodeType::Element));
                (
                    "<"@ + tag_name@ + attrs.0 + ">"@ + kids.0 + "</"@ + tag_name@ + ">"@,
                    attrs.1 + kids.1,
                )
            }
        },
        Node::Attribute { name, value } => match value {
            Some(v) => (" "@ + name@ + "=\"{}\""@, seq![v]),
            None => (" "@ + name@, Seq::<String>::empty()),
        },
        Node::Text { value } => compile_text_block(value, ctx),
        Node::Block { value } => compile_text_block(value, ctx),
        Node::Fragment { children } => compile_nodes(children@, Some(NodeType::Fragment)),
        Node::Comment { value } => ("<!-- "@ + "{}"@ + " -->"@, seq![value]),
        Node::Doctype { value } => ("<!DOCTYPE "@ + value@ + ">"@, Seq::<String>::empty()),
    }
}

/// Appending one node to a sibling sequence appends that node's
/// contribution to the sequence's template and value list.
pub proof fn lemma_compile_nodes_snoc(nodes: Seq<Node>, node: Node, ctx: Option<NodeType>)
    ensures
        compile_nodes(nodes.push(node), ctx).0 == compile_nodes(nodes, ctx).0 + compile_node(
            node,
            ctx,
        ).0,
        compile_nodes(nodes.push(node), ctx).1 == compile_nodes(nodes, ctx).1 + compile_node(
            node,
            ctx,
        ).1,
    decreases nodes.len(),
{
    let s = nodes.push(node);
    let head = compile_node(node, ctx);
    assert(s.len() == nodes.len() + 1);
    if nodes.len() == 0 {
        assert(s[0] == node);
        assert(s.drop_first() =~= Seq::<Node>::empty());
        assert(compile_nodes(s, ctx).0 == head.0 + compile_nodes(Seq::<Node>::empty(), ctx).0);
        assert(head.0 + Seq::<char>::empty() =~= head.0);
        assert(head.1 + Seq::<String>::empty() =~= head.1);
        assert(Seq::<char>::empty() + head.0 =~= head.0);
        assert(Seq::<String>::empty() + head.1 =~= head.1);
        assert(compile_nodes(s, ctx).0 == compile_nodes(nodes, ctx).0 + head.0);
        assert(compile_nodes(s, ctx).1 == compile_nodes(nodes, ctx).1 + head.1);
    } else {
        let first = compile_node(nodes[0], ctx);
        let rest = compile_nodes(nodes.drop_first(), ctx);
        assert(s[0] == nodes[0]);
        assert(s.drop_first() =~= nodes.drop_first().push(node));
        lemma_compile_nodes_snoc(nodes.drop_first(), node, ctx);
        assert(compile_nodes(s.drop_first(), ctx).0 == rest.0 + head.0);
        assert(compile_nodes(s.drop_first(), ctx).1 == rest.1 + head.1);
        assert(compile_nodes(s, ctx).0 == first.0 + (rest.0 + head.0));
        assert(compile_nodes(s, ctx).1 == first.1 + (rest.1 + head.1));
        assert(first.0 + (rest.0 + head.0) =~= (first.0 + rest.0) + head.0);
        assert(first.1 + (rest.1 + head.1) =~= (first.1 + rest.1) + head.1);
        assert(compile_nodes(nodes, ctx).0 == first.0 + rest.0);
        assert(compile_nodes(nodes, ctx).1 == first.1 + rest.1);
    }
}

} // verus!
