use yate::compile::{is_void_tag, walk_nodes};
use yate::escape::{parse_escape_syntax, transform_block, EscapeError};
use yate::node::{Node, NodeType};

fn s(text: &str) -> String {
    text.to_string()
}

fn toks(tokens: &[&str]) -> Vec<String> {
    tokens.iter().map(|t| t.to_string()).collect()
}

fn element(tag: &str, attributes: Vec<Node>, children: Vec<Node>) -> Node {
    Node::Element { tag_name: s(tag), attributes, children }
}

/// The test's stand-in for the downstream evaluator: renders one
/// expression fragment to text.
fn eval(expr: &str) -> String {
    if let Some(rest) = expr.strip_prefix("yate::html_escape::encode_text(") {
        let inner = rest.strip_suffix(')').expect("unclosed escaping call");
        return html_escape::encode_text(&eval(inner)).to_string();
    }
    if expr.starts_with('"') && expr.ends_with('"') && expr.len() >= 2 {
        return expr[1..expr.len() - 1].to_string();
    }
    if expr == "world" {
        return s("planet");
    }
    panic!("expression not known to the test evaluator: {}", expr);
}

/// The test's stand-in for the downstream formatter: substitutes the
/// values, in order, for the `{}` placeholders of the template.
fn render(template: &str, values: &[String]) -> String {
    let parts: Vec<&str> = template.split("{}").collect();
    assert_eq!(parts.len(), values.len() + 1);
    let mut out = String::new();
    for (i, part) in parts.iter().enumerate() {
        if i > 0 {
            out.push_str(&eval(&values[i - 1]));
        }
        out.push_str(part);
    }
    out
}

#[test]
fn test() {
    let escaped_block = transform_block(&toks(&["%", "=", "\"<uwu>\"", "%"]));
    let tree = vec![
        Node::Doctype { value: s("html") },
        element(
            "html",
            vec![],
            vec![
                element(
                    "head",
                    vec![],
                    vec![element("title", vec![], vec![Node::Text { value: s("\"Example\"") }])],
                ),
                element(
                    "body",
                    vec![],
                    vec![
                        Node::Comment { value: s("\"comment\"") },
                        element(
                            "div",
                            vec![Node::Attribute { name: s("hello"), value: Some(s("world")) }],
                            vec![],
                        ),
                        Node::Fragment {
                            children: vec![
                                element("div", vec![], vec![Node::Text { value: s("\"1\"") }]),
                                element("div", vec![], vec![Node::Text { value: s("\"2\"") }]),
                                element("div", vec![], vec![Node::Text { value: s("\"3\"") }]),
                                element(
                                    "div",
                                    vec![Node::Block {
                                        value: s("\"some-attribute-from-rust-block\""),
                                    }],
                                    vec![],
                                ),
                                element("div", vec![], vec![Node::Block { value: escaped_block }]),
                            ],
                        },
                    ],
                ),
            ],
        ),
    ];
    let out = walk_nodes(&tree, None);
    assert_eq!(
        render(&out.template, &out.values),
        r#"
            <!DOCTYPE html>
            <html>
                <head>
                    <title>Example</title>
                </head>
                <body>
                    <!-- comment -->
                    <div hello="planet"></div>
                    <div>1</div>
                    <div>2</div>
                    <div>3</div>
                    <div some-attribute-from-rust-block></div>
                    <div>&lt;uwu&gt;</div>
                </body>
            </html>
        "#
        .split('\n')
        .map(|line| line.trim())
        .collect::<Vec<&str>>()
        .join("")
    );
}

#[test]
fn end_to_end_template_and_values() {
    let tree = vec![
        Node::Doctype { value: s("html") },
        element(
            "div",
            vec![Node::Attribute { name: s("hello"), value: Some(s("x")) }],
            vec![element("span", vec![], vec![Node::Text { value: s("\"hi\"") }])],
        ),
    ];
    let out = walk_nodes(&tree, None);
    assert_eq!(out.template, "<!DOCTYPE html><div hello=\"{}\"><span>{}</span></div>");
    assert_eq!(out.values, vec![s("x"), s("\"hi\"")]);
}

#[test]
fn placeholder_count_matches_values() {
    let tree = vec![element(
        "ul",
        vec![Node::Attribute { name: s("id"), value: Some(s("list")) }],
        vec![
            element("li", vec![], vec![Node::Block { value: s("a") }]),
            element("li", vec![], vec![Node::Text { value: s("\"b\"") }]),
            Node::Comment { value: s("\"c\"") },
        ],
    )];
    let out = walk_nodes(&tree, None);
    assert_eq!(out.template.matches("{}").count(), out.values.len());
    assert_eq!(out.values.len(), 4);
}

#[test]
fn void_element_children_are_dropped() {
    let with_children = vec![element(
        "img",
        vec![Node::Attribute { name: s("src"), value: Some(s("url")) }],
        vec![element("div", vec![], vec![Node::Text { value: s("\"dropped\"") }])],
    )];
    let out = walk_nodes(&with_children, None);
    assert_eq!(out.template, "<img src=\"{}\">");
    assert_eq!(out.values, vec![s("url")]);
}

#[test]
fn void_tag_set_is_exact() {
    for tag in [
        "area", "base", "br", "col", "embed", "hr", "img", "input", "link", "meta", "param",
        "source", "track", "wbr",
    ] {
        assert!(is_void_tag(&s(tag)));
    }
    assert!(!is_void_tag(&s("div")));
    assert!(!is_void_tag(&s("BR")));
    assert!(!is_void_tag(&s("")));
}

#[test]
fn fragment_is_transparent() {
    let children = || {
        vec![
            element("b", vec![], vec![Node::Text { value: s("\"x\"") }]),
            Node::Doctype { value: s("html") },
        ]
    };
    let wrapped = walk_nodes(&vec![Node::Fragment { children: children() }], None);
    let direct = walk_nodes(&children(), None);
    assert_eq!(wrapped.template, direct.template);
    assert_eq!(wrapped.values, direct.values);
}

#[test]
fn bare_attribute() {
    let out = walk_nodes(
        &vec![Node::Attribute { name: s("x"), value: None }],
        Some(NodeType::Attribute),
    );
    assert_eq!(out.template, " x");
    assert!(out.values.is_empty());
}

#[test]
fn valued_attribute() {
    let out = walk_nodes(
        &vec![Node::Attribute { name: s("x"), value: Some(s("e")) }],
        Some(NodeType::Attribute),
    );
    assert_eq!(out.template, " x=\"{}\"");
    assert_eq!(out.values, vec![s("e")]);
}

#[test]
fn block_in_attribute_context_gets_leading_space() {
    let out = walk_nodes(&vec![Node::Block { value: s("e") }], Some(NodeType::Attribute));
    assert_eq!(out.template, " {}");
    let out = walk_nodes(&vec![Node::Block { value: s("e") }], Some(NodeType::Element));
    assert_eq!(out.template, "{}");
}

#[test]
fn doctype_is_literal() {
    let out = walk_nodes(&vec![Node::Doctype { value: s("html") }], None);
    assert_eq!(out.template, "<!DOCTYPE html>");
    assert!(out.values.is_empty());
    assert_eq!(out.template.matches("{}").count(), 0);
}

#[test]
fn comment_emits_placeholder() {
    let out = walk_nodes(&vec![Node::Comment { value: s("\"note\"") }], None);
    assert_eq!(out.template, "<!-- {} -->");
    assert_eq!(out.values, vec![s("\"note\"")]);
}

#[test]
fn compilation_is_deterministic() {
    let tree = vec![element(
        "div",
        vec![Node::Attribute { name: s("a"), value: Some(s("v")) }],
        vec![Node::Block { value: s("b") }],
    )];
    let first = walk_nodes(&tree, None);
    let second = walk_nodes(&tree, None);
    assert_eq!(first.template, second.template);
    assert_eq!(first.values, second.values);
}

#[test]
fn escape_syntax_is_rewritten() {
    let rewritten = transform_block(&toks(&["%", "=", "expr", "%"]));
    assert_eq!(rewritten, "yate::html_escape::encode_text(expr)");
    let rewritten = transform_block(&toks(&["%", "=", "a", ".", "b", "%"]));
    assert_eq!(rewritten, "yate::html_escape::encode_text(a . b)");
}

#[test]
fn escape_syntax_mismatch_is_verbatim() {
    assert_eq!(transform_block(&toks(&["a", "%", "b"])), "a % b");
    assert_eq!(transform_block(&toks(&["%", "a"])), "% a");
    assert_eq!(transform_block(&toks(&[])), "");
}

#[test]
fn escape_syntax_modulo_operator_is_verbatim() {
    assert_eq!(
        parse_escape_syntax(&toks(&["a", "%", "b"])).unwrap_err(),
        EscapeError::Mismatch
    );
}

#[test]
fn escape_syntax_unterminated_falls_back() {
    assert_eq!(
        parse_escape_syntax(&toks(&["%", "=", "expr"])).unwrap_err(),
        EscapeError::UnexpectedEnd
    );
    assert_eq!(parse_escape_syntax(&toks(&["%", "="])).unwrap_err(), EscapeError::UnexpectedEnd);
    assert_eq!(transform_block(&toks(&["%", "=", "expr"])), "% = expr");
}

#[test]
fn escape_syntax_trailing_tokens_fall_back() {
    assert_eq!(
        parse_escape_syntax(&toks(&["%", "=", "a", "%", "b"])).unwrap_err(),
        EscapeError::TrailingTokens
    );
    assert_eq!(transform_block(&toks(&["%", "=", "a", "%", "b"])), "% = a % b");
}

#[test]
fn empty_input_compiles_to_nothing() {
    let out = walk_nodes(&vec![], None);
    assert_eq!(out.template, "");
    assert!(out.values.is_empty());
}

#[test]
fn text_and_block_compile_identically() {
    let as_text = walk_nodes(&vec![Node::Text { value: s("e") }], Some(NodeType::Element));
    let as_block = walk_nodes(&vec![Node::Block { value: s("e") }], Some(NodeType::Element));
    assert_eq!(as_text.template, as_block.template);
    assert_eq!(as_text.values, as_block.values);
    assert_eq!(as_text.template, "{}");
}

#[test]
fn escape_syntax_wrapped_tokens() {
    let inner = parse_escape_syntax(&toks(&["%", "=", "a", "+", "b", "%"])).unwrap();
    assert_eq!(inner, toks(&["a", "+", "b"]));
}
