use std::rc::Rc;
use xml_ai_core::ast::breakpoint::BreakpointNode;
use xml_ai_core::ast::document::DocumentChildCode;
use xml_ai_core::ast::document::DocumentNode;
use xml_ai_core::ast::message::MsgNode;
use xml_ai_core::ast::prompt::PromptChildNode;
use xml_ai_core::ast::prompt::PromptNode;
use xml_ai_core::ast::set::SetNode;
use xml_ai_core::common::message::MessageRole;
use xml_ai_core::common::message::ParseRoleError;
use xml_ai_core::common::prompt::InvalidAttribute;
use xml_ai_core::common::prompt::N;
use xml_ai_core::markup::AttributeMap;
use xml_ai_core::markup::Element;
use xml_ai_core::markup::Fragment;
use xml_ai_core::markup::Node;
use xml_ai_core::markup::TagBuf;
use xml_ai_core::parser::DslFormatError;
use xml_ai_core::parser::DslFormatErrorKind;
use xml_ai_core::parser::DslFormatErrorList;
use xml_ai_core::parser::InvalidBreakpointAttribute;
use xml_ai_core::parser::InvalidBreakpointNode;
use xml_ai_core::parser::InvalidDocumentChildNode;
use xml_ai_core::parser::InvalidMessageAttribute;
use xml_ai_core::parser::InvalidMessageMissingRole;
use xml_ai_core::parser::InvalidMessageNode;
use xml_ai_core::parser::InvalidPromptAttribute;
use xml_ai_core::parser::InvalidPromptChild;
use xml_ai_core::parser::InvalidPromptMissingName;
use xml_ai_core::parser::InvalidPromptNode;
use xml_ai_core::parser::InvalidSetAttribute;
use xml_ai_core::parser::InvalidSetNode;

fn text(s: &str) -> Node {
    Node::Text(s.to_string())
}

fn element(tag: &str, attributes: &[(&str, &str)], children: Vec<Node>) -> Element {
    let mut map = AttributeMap::new();
    for (key, value) in attributes {
        map.insert(key.to_string(), value.to_string());
    }
    Element { tag: TagBuf::new(tag), attributes: map, children: Fragment::from_nodes(children) }
}

fn node(tag: &str, attributes: &[(&str, &str)], children: Vec<Node>) -> Node {
    Node::Element(element(tag, attributes, children))
}

fn messages(errors: &DslFormatErrorList) -> Vec<String> {
    errors.errors.iter().map(|e| e.to_string()).collect()
}

#[test]
fn tag_types_name_the_four_tags() {
    assert_eq!(MsgNode::tag_type().as_str(), "msg");
    assert_eq!(BreakpointNode::tag_type().as_str(), "breakpoint");
    assert_eq!(SetNode::tag_type().as_str(), "set");
    assert_eq!(PromptNode::tag_type().as_str(), "prompt");
    assert!(MsgNode::matches(&TagBuf::new("msg")));
    assert!(MsgNode::matches(&TagBuf::new("MSG")));
    assert!(!MsgNode::matches(&TagBuf::new("set")));
    assert!(BreakpointNode::matches(&TagBuf::new("breakpoint")));
    assert!(!BreakpointNode::matches(&TagBuf::new("msg")));
    assert!(SetNode::matches(&TagBuf::new("set")));
    assert!(!SetNode::matches(&TagBuf::new("prompt")));
    assert!(PromptNode::matches(&TagBuf::new("Prompt")));
    assert!(!PromptNode::matches(&TagBuf::new("prompts")));
}

#[test]
fn error_list_collects_in_order() {
    let mut list = DslFormatErrorList::with_capacity(4);
    assert!(list.is_empty());
    assert_eq!(list.len(), 0);
    assert_eq!(list.joined(", "), "");
    list.push(Rc::new(InvalidPromptChild));
    list.push(Rc::new(InvalidMessageMissingRole));
    assert_eq!(list.len(), 2);
    assert!(!list.is_empty());
    list.extend(DslFormatErrorList::new(Rc::new(InvalidSetNode)));
    assert_eq!(messages(&list), vec!["invalid prompt child", "invalid message: missing role attribute", "invalid set element"]);
    let both = DslFormatErrorList::new(Rc::new(InvalidPromptNode)).union(list.clone());
    assert_eq!(messages(&both), vec!["invalid prompt element", "invalid prompt child", "invalid message: missing role attribute", "invalid set element"]);
    let more = both.join(Rc::new(InvalidDocumentChildNode));
    assert_eq!(more.len(), 5);
    assert_eq!(more.errors.last().unwrap().to_string(), "invalid document child node");
    assert_eq!(list.len(), 3);
}

#[test]
fn error_list_joins_with_a_fixed_separator() {
    let list = DslFormatErrorList::new(Rc::new(InvalidPromptMissingName))
        .union(InvalidPromptAttribute(InvalidAttribute::N).singleton())
        .union(InvalidMessageAttribute(ParseRoleError { given: "bot".to_string() }).singleton());
    assert_eq!(list.joined("; "), "invalid prompt: missing name; invalid prompt attribute: invalid `N` attribute; invalid message attribute: unrecognized role \"bot\"");
    assert_eq!(list.to_string(), "invalid prompt: missing name ∙ invalid prompt attribute: invalid `N` attribute ∙ invalid message attribute: unrecognized role \"bot\"");
    assert_eq!(DslFormatErrorList::new(Rc::new(InvalidSetNode)).joined(" ∙ "), "invalid set element");
    assert_eq!(DslFormatErrorList::from_kind(DslFormatErrorKind::InvalidPromptChild).to_string(), "invalid prompt child");
}

#[test]
fn every_error_has_its_message_and_its_singleton() {
    assert_eq!(InvalidMessageNode.to_string(), "invalid message element");
    assert_eq!(InvalidMessageAttribute(ParseRoleError { given: "x".to_string() }).to_string(), "invalid message attribute: unrecognized role \"x\"");
    assert_eq!(InvalidMessageMissingRole.to_string(), "invalid message: missing role attribute");
    assert_eq!(InvalidBreakpointNode.to_string(), "invalid message element");
    assert_eq!(InvalidBreakpointAttribute.to_string(), "invalid breakpoint attribute");
    assert_eq!(InvalidSetNode.to_string(), "invalid set element");
    assert_eq!(InvalidSetAttribute(InvalidAttribute::TopP).to_string(), "invalid set attribute: invalid `TopP` attribute");
    assert_eq!(InvalidPromptChild.to_string(), "invalid prompt child");
    assert_eq!(InvalidPromptNode.to_string(), "invalid prompt element");
    assert_eq!(InvalidPromptMissingName.to_string(), "invalid prompt: missing name");
    assert_eq!(InvalidPromptAttribute(InvalidAttribute::Logprobs).to_string(), "invalid prompt attribute: invalid `Logprobs` attribute");
    assert_eq!(InvalidDocumentChildNode.to_string(), "invalid document child node");
    assert_eq!(messages(&InvalidMessageNode.singleton()), vec!["invalid message element"]);
    assert_eq!(messages(&InvalidBreakpointAttribute.singleton()), vec!["invalid breakpoint attribute"]);
    assert_eq!(messages(&InvalidSetAttribute(InvalidAttribute::N).singleton()), vec!["invalid set attribute: invalid `N` attribute"]);
    assert!(matches!(InvalidPromptChild.kind(), DslFormatErrorKind::InvalidPromptChild));
    assert!(matches!(InvalidMessageAttribute(ParseRoleError { given: "g".to_string() }).kind(), DslFormatErrorKind::InvalidMessageAttribute(e) if e.given == "g"));
}

#[test]
fn msg_compiles_with_a_role_and_keeps_its_body() {
    let msg = MsgNode::from_element(element("msg", &[("role", " User ")], vec![text("Hi")])).unwrap();
    assert_eq!(msg.role, MessageRole::User);
    assert!(!msg.breakpoint_mode);
    assert_eq!(msg.text_content(), "Hi");
}

#[test]
fn msg_tells_a_missing_role_from_a_bad_one() {
    let missing = MsgNode::from_element(element("msg", &[("Role", "user")], vec![])).unwrap_err();
    assert!(matches!(missing.errors.as_slice(), [DslFormatErrorKind::InvalidMessageMissingRole]));
    let bad = MsgNode::from_element(element("msg", &[("role", "bot")], vec![])).unwrap_err();
    assert!(matches!(bad.errors.as_slice(), [DslFormatErrorKind::InvalidMessageAttribute(e)] if e.given == "bot"));
    let wrong = MsgNode::from_element(element("set", &[("role", "user")], vec![])).unwrap_err();
    assert!(matches!(wrong.errors.as_slice(), [DslFormatErrorKind::InvalidMessageNode]));
}

#[test]
fn breakpoint_compiles_with_a_role() {
    let node = BreakpointNode::from_element(element("breakpoint", &[("role", "ASSISTANT")], vec![text("ignored")])).unwrap();
    assert_eq!(node.role, MessageRole::Assistant);
    let missing = BreakpointNode::from_element(element("breakpoint", &[], vec![])).unwrap_err();
    assert!(matches!(missing.errors.as_slice(), [DslFormatErrorKind::InvalidBreakpointAttribute]));
    let bad = BreakpointNode::from_element(element("breakpoint", &[("role", "nobody")], vec![])).unwrap_err();
    assert!(matches!(bad.errors.as_slice(), [DslFormatErrorKind::InvalidBreakpointAttribute]));
    let wrong = BreakpointNode::from_element(element("msg", &[("role", "user")], vec![])).unwrap_err();
    assert!(matches!(wrong.errors.as_slice(), [DslFormatErrorKind::InvalidBreakpointNode]));
}

#[test]
fn set_reads_known_attributes_and_passes_over_the_rest() {
    let node = SetNode::from_element(element("set", &[("temperature", "0.2"), ("colour", "red"), ("n", "2")], vec![])).unwrap();
    assert_eq!(node.prompt_settings.temperature.as_ref().unwrap().0.as_str(), "0.2");
    assert_eq!(node.prompt_settings.n, Some(N(2)));
    assert!(node.prompt_settings.model.is_none());
    let empty = SetNode::from_element(element("set", &[], vec![])).unwrap();
    assert!(empty.prompt_settings.temperature.is_none());
}

#[test]
fn set_reports_every_value_that_cannot_be_read() {
    let errors = SetNode::from_element(element("set", &[("n", "x"), ("temperature", "hot"), ("model", "m"), ("logprobs", "1")], vec![])).unwrap_err();
    assert_eq!(
        messages(&errors),
        vec!["invalid set attribute: invalid `Temperature` attribute", "invalid set attribute: invalid `N` attribute", "invalid set attribute: invalid `Logprobs` attribute"]
    );
    let wrong = SetNode::from_element(element("msg", &[], vec![])).unwrap_err();
    assert!(matches!(wrong.errors.as_slice(), [DslFormatErrorKind::InvalidSetNode]));
}

#[test]
fn prompt_child_dispatches_on_the_tag() {
    assert!(matches!(PromptChildNode::from_element(element("msg", &[("role", "user")], vec![])), Ok(PromptChildNode::Msg(_))));
    assert!(matches!(PromptChildNode::from_element(element("BREAKPOINT", &[("role", "user")], vec![])), Ok(PromptChildNode::Breakpoint(_))));
    assert!(matches!(PromptChildNode::from_element(element("set", &[], vec![])), Ok(PromptChildNode::Settings(_))));
    let other = PromptChildNode::from_element(element("div", &[], vec![])).unwrap_err();
    assert!(matches!(other.errors.as_slice(), [DslFormatErrorKind::InvalidPromptChild]));
    let nested = PromptChildNode::from_element(element("prompt", &[("name", "x")], vec![])).unwrap_err();
    assert!(matches!(nested.errors.as_slice(), [DslFormatErrorKind::InvalidPromptChild]));
    let bad = PromptChildNode::from_element(element("msg", &[], vec![])).unwrap_err();
    assert!(matches!(bad.errors.as_slice(), [DslFormatErrorKind::InvalidMessageMissingRole]));
}

#[test]
fn prompt_compiles_its_settings_and_children() {
    let prompt = PromptNode::from_element(element(
        "prompt",
        &[("name", "q1"), ("model", "m"), ("unknown", "x")],
        vec![
            text("\n  "),
            node("set", &[("temperature", "0.2")], vec![]),
            node("msg", &[("role", "user")], vec![text("A")]),
            Node::Fragment(Fragment::from_nodes(vec![node("breakpoint", &[("role", "assistant")], vec![])])),
            node("msg", &[("role", "user")], vec![text("B")]),
        ],
    ))
    .unwrap();
    assert_eq!(prompt.name(), "q1");
    assert_eq!(prompt.settings.model.as_ref().unwrap().0, "m");
    assert_eq!(prompt.children.len(), 4);
    assert!(matches!(prompt.children[0], PromptChildNode::Settings(_)));
    assert!(matches!(&prompt.children[1], PromptChildNode::Msg(m) if m.text_content() == "A"));
    assert!(matches!(prompt.children[2], PromptChildNode::Breakpoint(BreakpointNode { role: MessageRole::Assistant })));
    assert!(matches!(&prompt.children[3], PromptChildNode::Msg(m) if m.text_content() == "B"));
}

#[test]
fn prompt_needs_a_name_that_is_not_empty() {
    let missing = PromptNode::from_element(element("prompt", &[("model", "m")], vec![])).unwrap_err();
    assert!(matches!(missing.errors.as_slice(), [DslFormatErrorKind::InvalidPromptMissingName]));
    let empty = PromptNode::from_element(element("prompt", &[("name", "")], vec![])).unwrap_err();
    assert!(matches!(empty.errors.as_slice(), [DslFormatErrorKind::InvalidPromptAttribute(InvalidAttribute::Name)]));
    let wrong = PromptNode::from_element(element("msg", &[("name", "x")], vec![])).unwrap_err();
    assert!(matches!(wrong.errors.as_slice(), [DslFormatErrorKind::InvalidPromptNode]));
    assert!(PromptNode::from_element(element("prompt", &[("name", " ")], vec![])).is_ok());
}

#[test]
fn prompt_reports_its_own_errors_and_those_of_all_children() {
    let errors = PromptNode::from_element(element(
        "prompt",
        &[("max-tokens", "lots"), ("temperature", "hot")],
        vec![
            node("msg", &[("role", "user")], vec![text("fine")]),
            node("msg", &[], vec![]),
            node("div", &[], vec![]),
            node("set", &[("n", "x"), ("top-p", "y")], vec![]),
            node("breakpoint", &[("role", "assistant")], vec![]),
            node("msg", &[("role", "robot")], vec![]),
        ],
    ))
    .unwrap_err();
    assert_eq!(
        messages(&errors),
        vec![
            "invalid prompt attribute: invalid `Temperature` attribute",
            "invalid prompt attribute: invalid `MaxTokens` attribute",
            "invalid prompt: missing name",
            "invalid message: missing role attribute",
            "invalid prompt child",
            "invalid set attribute: invalid `N` attribute",
            "invalid set attribute: invalid `TopP` attribute",
            "invalid message attribute: unrecognized role \"robot\"",
        ]
    );
}

#[test]
fn document_compiles_prompts_and_passes_over_stray_text() {
    let document = DocumentNode::from_node(Node::Fragment(Fragment::from_nodes(vec![
        text("\n"),
        node("prompt", &[("name", "a")], vec![]),
        text("stray"),
        Node::Fragment(Fragment::from_nodes(vec![node("prompt", &[("name", "b")], vec![node("msg", &[("role", "user")], vec![text("x")])])])),
    ])))
    .unwrap();
    assert_eq!(document.children.len(), 2);
    let names: Vec<&str> = document.children.iter().map(|c| match c { DocumentChildCode::Prompt(p) => p.name() }).collect();
    assert_eq!(names, vec!["a", "b"]);
    let single = DocumentNode::from_node(node("prompt", &[("name", "solo")], vec![])).unwrap();
    assert_eq!(single.children.len(), 1);
    let empty = DocumentNode::from_fragment(Fragment::from_nodes(vec![text("nothing here")])).unwrap();
    assert!(empty.children.is_empty());
}

#[test]
fn document_child_must_be_a_prompt() {
    let errors = DocumentChildCode::from_element(element("msg", &[("role", "user")], vec![])).unwrap_err();
    assert!(matches!(errors.errors.as_slice(), [DslFormatErrorKind::InvalidDocumentChildNode]));
    assert!(DocumentChildCode::from_element(element("prompt", &[("name", "p")], vec![])).is_ok());
}

#[test]
fn document_accounts_for_every_failing_child() {
    // Three children that fail among three that are sound.
    let errors = DocumentNode::from_fragment(Fragment::from_nodes(vec![
        node("prompt", &[("name", "ok1")], vec![]),
        node("prompt", &[], vec![node("div", &[], vec![])]),
        node("msg", &[("role", "user")], vec![]),
        node("prompt", &[("name", "ok2")], vec![node("msg", &[("role", "user")], vec![])]),
        node("prompt", &[("name", "bad"), ("n", "x")], vec![node("msg", &[], vec![])]),
        node("prompt", &[("name", "ok3")], vec![]),
    ]))
    .unwrap_err();
    assert_eq!(
        messages(&errors),
        vec![
            "invalid prompt: missing name",
            "invalid prompt child",
            "invalid document child node",
            "invalid prompt attribute: invalid `N` attribute",
            "invalid message: missing role attribute",
        ]
    );
    assert!(errors.len() >= 3);
    assert_eq!(
        errors.to_string(),
        "invalid prompt: missing name ∙ invalid prompt child ∙ invalid document child node ∙ invalid prompt attribute: invalid `N` attribute ∙ invalid message: missing role attribute"
    );
}

#[test]
fn document_with_one_failing_child_never_compiles() {
    let mut sound = 0;
    while sound < 4 {
        let mut nodes = Vec::new();
        for i in 0..sound {
            nodes.push(node("prompt", &[("name", &format!("p{}", i))], vec![]));
        }
        nodes.push(node("oops", &[], vec![]));
        let errors = DocumentNode::from_fragment(Fragment::from_nodes(nodes)).unwrap_err();
        assert_eq!(errors.len(), 1);
        sound += 1;
    }
}

#[test]
fn an_error_converts_into_its_singleton() {
    let list: DslFormatErrorList = InvalidPromptChild.into();
    assert_eq!(messages(&list), vec!["invalid prompt child"]);
    let list = DslFormatErrorList::from(InvalidSetAttribute(InvalidAttribute::N));
    assert_eq!(messages(&list), vec!["invalid set attribute: invalid `N` attribute"]);
    let list = DslFormatErrorList::from(InvalidMessageAttribute(ParseRoleError { given: "x y".to_string() }));
    assert_eq!(list.to_string(), "invalid message attribute: unrecognized role \"x y\"");
}

#[test]
fn compiled_nodes_can_be_copied() {
    let document = DocumentNode::from_fragment(Fragment::from_nodes(vec![node(
        "prompt",
        &[("name", "p"), ("n", "2")],
        vec![
            node("msg", &[("role", "user")], vec![text("a"), node("b", &[("k", "v")], vec![text("c")])]),
            node("set", &[("model", "m")], vec![]),
            node("breakpoint", &[("role", "system")], vec![]),
        ],
    )]))
    .unwrap();
    let copy = document.clone();
    assert_eq!(copy.children.len(), 1);
    let (DocumentChildCode::Prompt(prompt), DocumentChildCode::Prompt(original)) = (&copy.children[0], &document.children[0]);
    assert_eq!(prompt.name(), original.name());
    assert_eq!(prompt.settings.n, Some(N(2)));
    assert_eq!(prompt.children.len(), 3);
    assert!(matches!(&prompt.children[0], PromptChildNode::Msg(m) if m.text_content() == "c" && m.role == MessageRole::User));
    assert!(matches!(&prompt.children[1], PromptChildNode::Settings(s) if s.prompt_settings.model.as_ref().unwrap().0 == "m"));
    assert!(matches!(&prompt.children[2], PromptChildNode::Breakpoint(b) if b.role == MessageRole::System));
}
