use vstd::prelude::*;

use crate::model::{compile_node, compile_nodes, spec_is_void};
use crate::node::{CompiledOutput, Node, NodeType};

verus! {

/// Whether `s` contains no brace character at all.
pub open spec fn brace_free(s: Seq<char>) -> bool {
    forall|i: int| 0 <= i < s.len() ==> s[i] != '{' && s[i] != '}'
}

/// How many `{}` placeholders `s` holds, scanning left to right.
pub open spec fn placeholder_count(s: Seq<char>) -> nat
    decreases s.len(),
{
    if s.len() == 0 {
        0
    } else if s.len() >= 2 && s[0] == '{' && s[1] == '}' {
        placeholder_count(s.skip(2)) + 1
    } else {
        placeholder_count(s.skip(1))
    }
}

/// Whether every brace in `s` belongs to a two-character `{}` placeholder:
/// each `{` is immediately closed and each `}` immediately opened.
pub open spec fn well_braced(s: Seq<char>) -> bool
    decreases s.len(),
{
    if s.len() == 0 {
        true
    } else if s[0] == '{' {
        s.len() >= 2 && s[1] == '}' && well_braced(s.skip(2))
    } else {
        s[0] != '}' && well_braced(s.skip(1))
    }
}

/// Text without braces is well braced and holds no placeholder.
pub proof fn lemma_brace_free_facts(s: Seq<char>)
    requires
        brace_free(s),
    ensures
        well_braced(s),
        placeholder_count(s) == 0,
    decreases s.len(),
{
    if s.len() > 0 {
        assert forall|i: int| 0 <= i < s.skip(1).len() implies s.skip(1)[i] != '{' && s.skip(1)[i]
            != '}' by {
            assert(s.skip(1)[i] == s[i + 1]);
        }
        lemma_brace_free_facts(s.skip(1));
    }
}

/// Concatenating well-braced text keeps it well braced, and placeholders
/// are counted piecewise: no placeholder can straddle the boundary.
pub proof fn lemma_braces_concat(a: Seq<char>, b: Seq<char>)
    requires
        well_braced(a),
        well_braced(b),
    ensures
        well_braced(a + b),
        placeholder_count(a + b) == placeholder_count(a) + placeholder_count(b),
    decreases a.len(),
{
    let s = a + b;
    if a.len() == 0 {
        assert(s =~= b);
    } else if a[0] == '{' {
        assert(s[0] == a[0]);
        assert(s[1] == a[1]);
        assert(s.skip(2) =~= a.skip(2) + b);
        lemma_braces_concat(a.skip(2), b);
    } else {
        assert(s[0] == a[0]);
        assert(s.skip(1) =~= a.skip(1) + b);
        lemma_braces_concat(a.skip(1), b);
    }
}

/// The fixed text fragments the compiler emits are well braced, and only
/// the two placeholder-bearing ones hold a placeholder.
pub proof fn lemma_literal_brace_facts()
    ensures
        well_braced("<"@) && placeholder_count("<"@) == 0,
        well_braced(">"@) && placeholder_count(">"@) == 0,
        well_braced("</"@) && placeholder_count("</"@) == 0,
        well_braced(" "@) && placeholder_count(" "@) == 0,
        well_braced("{}"@) && placeholder_count("{}"@) == 1,
        well_braced("=\"{}\""@) && placeholder_count("=\"{}\""@) == 1,
        well_braced("<!-- "@) && placeholder_count("<!-- "@) == 0,
        well_braced(" -->"@) && placeholder_count(" -->"@) == 0,
        well_braced("<!DOCTYPE "@) && placeholder_count("<!DOCTYPE "@) == 0,
{
    reveal_strlit("<");
    reveal_strlit(">");
    reveal_strlit("</");
    reveal_strlit(" ");
    reveal_strlit("{}");
    reveal_strlit("=\"{}\"");
    reveal_strlit("<!-- ");
    reveal_strlit(" -->");
    reveal_strlit("<!DOCTYPE ");
    assert(brace_free("<"@));
    lemma_brace_free_facts("<"@);
    assert(brace_free(">"@));
    lemma_brace_free_facts(">"@);
    assert(brace_free("</"@));
    lemma_brace_free_facts("</"@);
    assert(brace_free(" "@));
    lemma_brace_free_facts(" "@);
    assert(brace_free("<!-- "@));
    lemma_brace_free_facts("<!-- "@);
    assert(brace_free(" -->"@));
    lemma_brace_free_facts(" -->"@);
    assert(brace_free("<!DOCTYPE "@));
    lemma_brace_free_facts("<!DOCTYPE "@);
    assert(well_braced("{}"@) && placeholder_count("{}"@) == 1) by {
        reveal_with_fuel(placeholder_count, 3);
        reveal_with_fuel(well_braced, 3);
        assert("{}"@.skip(2) =~= Seq::<char>::empty());
    }
    assert(well_braced("=\"{}\""@) && placeholder_count("=\"{}\""@) == 1) by {
        reveal_with_fuel(placeholder_count, 6);
        reveal_with_fuel(well_braced, 6);
        let s = "=\"{}\""@;
        assert(s.skip(1) =~= seq!['"', '{', '}', '"']);
        assert(s.skip(1).skip(1) =~= seq!['{', '}', '"']);
        assert(s.skip(1).skip(1).skip(2) =~= seq!['"']);
        assert(s.skip(1).skip(1).skip(2).skip(1) =~= Seq::<char>::empty());
    }
}

/// Whether every tag name, attribute name and doctype value in the node is
/// free of braces, so that the only braces in its template are the `{}`
/// placeholders the compiler itself emits.
pub open spec fn names_brace_free(node: Node) -> bool
    decreases node,
{
    match node {
        Node::Element { tag_name, attributes, children } => brace_free(tag_name@)
            && names_brace_free_nodes(attributes@) && names_brace_free_nodes(children@),
        Node::Attribute { name, value } => brace_free(name@),
        Node::Text { value } => true,
        Node::Block { value } => true,
        Node::Fragment { children } => names_brace_free_nodes(children@),
        Node::Comment { value } => true,
        Node::Doctype { value } => brace_free(value@),
    }
}

/// `names_brace_free`, over every node of a sibling sequence.
pub open spec fn names_brace_free_nodes(nodes: Seq<Node>) -> bool
    decreases nodes,
{
    forall|i: int| 0 <= i < nodes.len() ==> names_brace_free(#[trigger] nodes[i])
}

/// Placeholders and values pair up: a node's template holds exactly as
/// many `{}` placeholders as the node contributes values, and braces occur
/// in it only as such placeholders.
pub proof fn lemma_placeholder_value_pairing_node(node: Node, ctx: Option<NodeType>)
    requires
        names_brace_free(node),
    ensures
        well_braced(compile_node(node, ctx).0),
        placeholder_count(compile_node(node, ctx).0) == compile_node(node, ctx).1.len(),
    decreases node,
{
    lemma_literal_brace_facts();
    match node {
        Node::Element { tag_name, attributes, children } => {
            lemma_brace_free_facts(tag_name@);
            lemma_placeholder_value_pairing(attributes@, Some(NodeType::Attribute));
            let attrs = compile_nodes(attributes@, Some(NodeType::Attribute));
            let a = "<"@ + tag_name@;
            lemma_braces_concat("<"@, tag_name@);
            let b = a + attrs.0;
            lemma_braces_concat(a, attrs.0);
            let c = b + ">"@;
            lemma_braces_concat(b, ">"@);
            if !spec_is_void(tag_name@) {
                lemma_placeholder_value_pairing(children@, Some(NodeType::Element));
                let kids = compile_nodes(children@, Some(NodeType::Element));
                let d = c + kids.0;
                lemma_braces_concat(c, kids.0);
                let e = d + "</"@;
                lemma_braces_concat(d, "</"@);
                let f = e + tag_name@;
                lemma_braces_concat(e, tag_name@);
                lemma_braces_concat(f, ">"@);
            }
        },
        Node::Attribute { name, value } => {
            lemma_brace_free_facts(name@);
            lemma_braces_concat(" "@, name@);
            match value {
                Some(v) => {
                    lemma_braces_concat(" "@ + name@, "=\"{}\""@);
                },
                None => {},
            }
        },
        Node::Text { value } => {
            lemma_braces_concat(" "@, "{}"@);
        },
        Node::Block { value } => {
            lemma_braces_concat(" "@, "{}"@);
        },
        Node::Fragment { children } => {
            lemma_placeholder_value_pairing(children@, Some(NodeType::Fragment));
        },
        Node::Comment { value } => {
            lemma_braces_concat("<!-- "@, "{}"@);
            lemma_braces_concat("<!-- "@ + "{}"@, " -->"@);
        },
        Node::Doctype { value } => {
            lemma_brace_free_facts(value@);
            lemma_braces_concat("<!DOCTYPE "@, value@);
            lemma_braces_concat("<!DOCTYPE "@ + value@, ">"@);
        },
    }
}

/// Placeholders and values pair up over a whole sibling sequence: the
/// compiled template holds exactly one `{}` placeholder per value, in
/// particular their counts agree, and no stray brace ever appears.
pub proof fn lemma_placeholder_value_pairing(nodes: Seq<Node>, ctx: Option<NodeType>)
    requires
        names_brace_free_nodes(nodes),
    ensures
        well_braced(compile_nodes(nodes, ctx).0),
        placeholder_count(compile_nodes(nodes, ctx).0) == compile_nodes(nodes, ctx).1.len(),
    decreases nodes,
{
    if nodes.len() > 0 {
        assert(names_brace_free(nodes[0]));
        lemma_placeholder_value_pairing_node(nodes[0], ctx);
        assert forall|i: int| 0 <= i < nodes.drop_first().len() implies names_brace_free(
            #[trigger] nodes.drop_first()[i],
        ) by {
            assert(nodes.drop_first()[i] == nodes[i + 1]);
        }
        lemma_placeholder_value_pairing(nodes.drop_first(), ctx);
        lemma_braces_concat(
            compile_node(nodes[0], ctx).0,
            compile_nodes(nodes.drop_first(), ctx).0,
        );
    }
}

/// Outside an attribute list the context does not change what a sequence
/// of nodes compiles to.
pub proof fn lemma_context_insensitive_nodes(
    nodes: Seq<Node>,
    c1: Option<NodeType>,
    c2: Option<NodeType>,
)
    requires
        c1 != Some(NodeType::Attribute),
        c2 != Some(NodeType::Attribute),
    ensures
        compile_nodes(nodes, c1) == compile_nodes(nodes, c2),
    decreases nodes,
{
    if nodes.len() > 0 {
        lemma_context_insensitive_node(nodes[0], c1, c2);
        lemma_context_insensitive_nodes(nodes.drop_first(), c1, c2);
    }
}

/// Outside an attribute list the context does not change what one node
/// compiles to: only `Text` and `Block` nodes look at the context, and
/// they only distinguish the attribute context.
pub proof fn lemma_context_insensitive_node(
    node: Node,
    c1: Option<NodeType>,
    c2: Option<NodeType>,
)
    requires
        c1 != Some(NodeType::Attribute),
        c2 != Some(NodeType::Attribute),
    ensures
        compile_node(node, c1) == compile_node(node, c2),
    decreases node,
{
}

/// A fragment is transparent: compiled in any non-attribute context, it
/// produces byte for byte what its children produce compiled directly in
/// the enclosing context, with no markup or values of its own. In an
/// attribute context the two can differ, since a `Text` or `Block` child
/// then gains a leading space when compiled directly.
pub proof fn lemma_fragment_transparent(children: Vec<Node>, ctx: Option<NodeType>)
    requires
        ctx != Some(NodeType::Attribute),
    ensures
        compile_node((Node::Fragment { children }), ctx) == compile_nodes(children@, ctx),
{
    lemma_context_insensitive_nodes(children@, Some(NodeType::Fragment), ctx);
}

/// A void element is truncated: whatever children the tree carries under
/// it, they appear nowhere in the compiled template and contribute no
/// values.
pub proof fn lemma_void_element_truncates(
    tag_name: String,
    attributes: Vec<Node>,
    c1: Vec<Node>,
    c2: Vec<Node>,
    ctx: Option<NodeType>,
)
    requires
        spec_is_void(tag_name@),
    ensures
        compile_node((Node::Element { tag_name, attributes, children: c1 }), ctx) == compile_node(
            (Node::Element { tag_name, attributes, children: c2 }),
            ctx,
        ),
{
}

/// A bare attribute compiles to a space and its name, with no placeholder
/// and no value appended.
pub proof fn lemma_bare_attribute(name: String, ctx: Option<NodeType>)
    ensures
        compile_node((Node::Attribute { name, value: None }), ctx).0 == " "@ + name@,
        compile_node((Node::Attribute { name, value: None }), ctx).1 == Seq::<String>::empty(),
{
}

/// A valued attribute compiles to ` name="{}"` with its expression
/// appended as the placeholder's value.
pub proof fn lemma_valued_attribute(name: String, value: String, ctx: Option<NodeType>)
    ensures
        compile_node((Node::Attribute { name, value: Some(value) }), ctx).0 == " "@ + name@
            + "=\"{}\""@,
        compile_node((Node::Attribute { name, value: Some(value) }), ctx).1 == seq![value],
{
}

/// A doctype compiles to literal text in every context: `<!DOCTYPE ` plus
/// its value plus `>`, with no value appended, and (for a brace-free
/// value) not a single placeholder.
pub proof fn lemma_doctype_literal(value: String, ctx: Option<NodeType>)
    ensures
        compile_node((Node::Doctype { value }), ctx).0 == "<!DOCTYPE "@ + value@ + ">"@,
        compile_node((Node::Doctype { value }), ctx).1 == Seq::<String>::empty(),
        brace_free(value@) ==> placeholder_count(compile_node((Node::Doctype { value }), ctx).0)
            == 0,
{
    if brace_free(value@) {
        lemma_literal_brace_facts();
        lemma_brace_free_facts(value@);
        lemma_braces_concat("<!DOCTYPE "@, value@);
        lemma_braces_concat("<!DOCTYPE "@ + value@, ">"@);
    }
}

/// Compilation is deterministic: two results of `walk_nodes` on the same
/// tree and context agree exactly, template and values alike.
pub proof fn lemma_walk_nodes_deterministic(
    nodes: Vec<Node>,
    ctx: Option<NodeType>,
    o1: CompiledOutput,
    o2: CompiledOutput,
)
    requires
        call_ensures(crate::compile::walk_nodes, (&nodes, ctx), o1),
        call_ensures(crate::compile::walk_nodes, (&nodes, ctx), o2),
    ensures
        o1.template@ == o2.template@,
        o1.values@ == o2.values@,
{
}

} // verus!
