use xml_ai_core::ast::message::MsgNode;
use xml_ai_core::common::message::MessageRole;
use xml_ai_core::markup::AttributeMap;
use xml_ai_core::markup::Element;
use xml_ai_core::markup::Fragment;
use xml_ai_core::markup::Node;
use xml_ai_core::markup::TagBuf;

fn text(s: &str) -> Node {
    Node::Text(s.to_string())
}

fn element(tag: &str, children: Vec<Node>) -> Element {
    Element { tag: TagBuf::new(tag), attributes: AttributeMap::new(), children: Fragment::from_nodes(children) }
}

fn fragment(children: Vec<Node>) -> Node {
    Node::Fragment(Fragment::from_nodes(children))
}

/// A short description of a node, to compare trees by.
fn show(node: &Node) -> String {
    match node {
        Node::Text(t) => format!("{:?}", t),
        Node::Element(e) => format!("<{}>[{}]", e.tag.as_str(), show_all(&e.children.nodes)),
        Node::Fragment(f) => format!("[{}]", show_all(&f.nodes)),
    }
}

fn show_all(nodes: &[Node]) -> String {
    nodes.iter().map(show).collect::<Vec<_>>().join(",")
}

fn msg(children: Vec<Node>) -> MsgNode {
    MsgNode { role: MessageRole::User, breakpoint_mode: false, children: Fragment::from_nodes(children) }
}

#[test]
fn tags_match_whatever_the_case() {
    let tag = TagBuf::new("msg");
    assert_eq!(tag.as_str(), "msg");
    assert!(tag.matches(&TagBuf::new("msg")));
    assert!(tag.matches(&TagBuf::new("MSG")));
    assert!(TagBuf::new("Msg").matches(&tag));
    assert!(!tag.matches(&TagBuf::new("msgs")));
    assert!(!tag.matches(&TagBuf::new(" msg")));
    assert!(!tag.matches(&TagBuf::new("")));
    assert_eq!(tag.clone().as_str(), "msg");
}

#[test]
fn attributes_are_a_map_with_case_sensitive_keys() {
    let mut attributes = AttributeMap::new();
    assert!(attributes.get("role").is_none());
    assert!(!attributes.contains_key("role"));
    attributes.insert("role".to_string(), "user".to_string());
    attributes.insert("name".to_string(), "q".to_string());
    assert_eq!(attributes.get("role").map(|s| s.as_str()), Some("user"));
    assert_eq!(attributes.get("name").map(|s| s.as_str()), Some("q"));
    assert!(attributes.get("Role").is_none());
    assert!(attributes.get("rol").is_none());
    assert!(attributes.contains_key("name"));
    attributes.insert("role".to_string(), "system".to_string());
    assert_eq!(attributes.get("role").map(|s| s.as_str()), Some("system"));
    assert_eq!(attributes.get("name").map(|s| s.as_str()), Some("q"));
    let copy = attributes.clone();
    assert_eq!(copy.get("role").map(|s| s.as_str()), Some("system"));
    assert_eq!(copy.get("name").map(|s| s.as_str()), Some("q"));
    assert!(copy.get("other").is_none());
}

#[test]
fn flatten_resolves_nested_fragments_only() {
    let tree = fragment(vec![
        text("a"),
        fragment(vec![text("b"), fragment(vec![Node::Element(element("x", vec![fragment(vec![text("in")])]))]), text("c")]),
        fragment(vec![]),
        text("d"),
    ]);
    let flat = tree.flatten();
    assert_eq!(show_all(&flat), "\"a\",\"b\",<x>[[\"in\"]],\"c\",\"d\"");
    assert_eq!(show_all(&text("t").flatten()), "\"t\"");
    assert_eq!(show_all(&Node::Element(element("e", vec![])).flatten()), "<e>[]");
    assert!(fragment(vec![]).flatten().is_empty());
}

#[test]
fn extract_elements_keeps_elements_in_document_order() {
    let nodes = Fragment::from_nodes(vec![
        text("stray"),
        Node::Element(element("a", vec![Node::Element(element("inner", vec![]))])),
        fragment(vec![text("x"), Node::Element(element("b", vec![])), fragment(vec![Node::Element(element("c", vec![]))])]),
        Node::Element(element("d", vec![])),
    ]);
    assert_eq!(nodes.len(), 4);
    assert!(!nodes.is_empty());
    let tags: Vec<String> = nodes.extract_elements().iter().map(|e| e.tag.as_str().to_string()).collect();
    assert_eq!(tags, vec!["a", "b", "c", "d"]);
    assert!(Fragment::from_nodes(vec![text("only text")]).extract_elements().is_empty());
    assert!(Fragment::from_nodes(vec![]).is_empty());
    let parent = element("p", vec![text("t"), Node::Element(element("k", vec![])), fragment(vec![Node::Element(element("l", vec![]))])]);
    let tags: Vec<String> = parent.extract_child_elements().iter().map(|e| e.tag.as_str().to_string()).collect();
    assert_eq!(tags, vec!["k", "l"]);
}

#[test]
fn extract_text_strict_fails_on_any_element() {
    let pure = Fragment::from_nodes(vec![text("a"), fragment(vec![text("b"), fragment(vec![]), text("c")]), text("")]);
    assert_eq!(pure.extract_text_strict(), Some(vec!["a".to_string(), "b".to_string(), "c".to_string(), "".to_string()]));
    assert_eq!(Fragment::from_nodes(vec![]).extract_text_strict(), Some(vec![]));
    let mixed = Fragment::from_nodes(vec![text("a"), Node::Element(element("b", vec![text("x")]))]);
    assert_eq!(mixed.extract_text_strict(), None);
    let deep = Fragment::from_nodes(vec![text("a"), fragment(vec![fragment(vec![Node::Element(element("b", vec![]))])]), text("z")]);
    assert_eq!(deep.extract_text_strict(), None);
}

#[test]
fn plain_text_gathers_all_text_in_document_order() {
    let nodes = Fragment::from_nodes(vec![
        text("a"),
        Node::Element(element("b", vec![text("c"), Node::Element(element("d", vec![text("e")])), text("f")])),
        fragment(vec![text("g")]),
    ]);
    assert_eq!(nodes.plain_text(), "acefg");
    assert_eq!(Fragment::from_nodes(vec![]).plain_text(), "");
}

#[test]
fn message_of_pure_text_is_the_text_as_it_is() {
    assert_eq!(msg(vec![text("Hi")]).text_content(), "Hi");
    assert_eq!(msg(vec![text("  Hello, "), fragment(vec![text("wor"), text("ld")]), text("!\n")]).text_content(), "  Hello, world!\n");
    assert_eq!(msg(vec![]).text_content(), "");
}

#[test]
fn message_with_elements_is_one_line_for_each_element() {
    let body = vec![
        text("left out"),
        Node::Element(element("p", vec![text("first "), text("line")])),
        text("\n"),
        fragment(vec![Node::Element(element("p", vec![text("second")])), text("also left out")]),
        Node::Element(element("p", vec![])),
        Node::Element(element("p", vec![text("a"), Node::Element(element("b", vec![text("b")])), text("c")])),
    ];
    assert_eq!(msg(body).text_content(), "first line\nsecond\n\nabc");
    assert_eq!(msg(vec![Node::Element(element("p", vec![text("one")]))]).text_content(), "one");
}
