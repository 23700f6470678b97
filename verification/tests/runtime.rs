use xml_ai_core::ast::document::DocumentNode;
use xml_ai_core::ast::prompt::PromptNode;
use xml_ai_core::common::message::MessageRole;
use xml_ai_core::common::prompt::PromptSettings;
use xml_ai_core::common::prompt::ResponseFormatType;
use xml_ai_core::completion::CompletionOutput;
use xml_ai_core::completion::Message;
use xml_ai_core::completion::RequestBuilder;
use xml_ai_core::markup::AttributeMap;
use xml_ai_core::markup::Element;
use xml_ai_core::markup::Fragment;
use xml_ai_core::markup::Node;
use xml_ai_core::markup::TagBuf;
use xml_ai_core::runtime::Conversation;
use xml_ai_core::runtime::ConversationMessage;
use xml_ai_core::runtime::ConversationRun;
use xml_ai_core::runtime::DocumentInvocation;
use xml_ai_core::runtime::PromptContext;
use xml_ai_core::runtime::RunState;
use xml_ai_core::runtime::RuntimeEnvironment;

fn text(s: &str) -> Node {
    Node::Text(s.to_string())
}

fn node(tag: &str, attributes: &[(&str, &str)], children: Vec<Node>) -> Node {
    let mut map = AttributeMap::new();
    for (key, value) in attributes {
        map.insert(key.to_string(), value.to_string());
    }
    Node::Element(Element { tag: TagBuf::new(tag), attributes: map, children: Fragment::from_nodes(children) })
}

fn msg(role: &str, body: &str) -> Node {
    node("msg", &[("role", role)], vec![text(body)])
}

fn breakpoint(role: &str) -> Node {
    node("breakpoint", &[("role", role)], vec![])
}

fn document(prompts: Vec<Node>) -> DocumentNode {
    DocumentNode::from_fragment(Fragment::from_nodes(prompts)).unwrap()
}

fn invocation(target: &str) -> DocumentInvocation {
    DocumentInvocation { runtime_environment: RuntimeEnvironment { api_key: "key".to_string() }, target_prompt: target.to_string() }
}

fn answer(s: &str) -> CompletionOutput {
    CompletionOutput::new(vec![s.to_string()])
}

fn log(context: &PromptContext) -> Vec<(MessageRole, String, bool)> {
    context.conversation.messages.iter().map(|m| (m.message.role, m.message.content.clone(), m.evaluated)).collect()
}

fn seen(request: &RequestBuilder) -> Vec<(MessageRole, String)> {
    request.messages.iter().map(|m| (m.role, m.content.clone())).collect()
}

/// Drives a run to its end with a backend that answers the call number `i`
/// with `r` and `i`; hands back every request that was made.
fn drive(run: &mut ConversationRun<'_>) -> Vec<RequestBuilder> {
    let mut requests = Vec::new();
    while let Some(request) = run.request() {
        let text = format!("r{}", requests.len());
        requests.push(request);
        run.complete(answer(&text));
    }
    requests
}

#[test]
fn a_single_message_is_answered_by_the_assistant() {
    let doc = document(vec![node("prompt", &[("name", "q1")], vec![msg("user", "Hi")])]);
    let mut run = doc.invoke(&invocation("q1")).unwrap();
    assert_eq!(run.state(), RunState::Accumulating);
    assert!(run.is_awaiting());
    assert_eq!(run.position(), 1);
    assert_eq!(run.pending(), Some(MessageRole::Assistant));
    assert!(run.to_snapshot().is_none());
    let request = run.request().unwrap();
    assert_eq!(seen(&request), vec![(MessageRole::User, "Hi".to_string())]);
    run.complete(answer("Hello!"));
    assert!(run.is_done());
    assert_eq!(run.pending(), None);
    assert!(run.request().is_none());
    assert_eq!(
        log(run.context()),
        vec![(MessageRole::User, "Hi".to_string(), false), (MessageRole::Assistant, "Hello!".to_string(), true)]
    );
}

#[test]
fn settings_hold_for_every_later_call() {
    let doc = document(vec![node(
        "prompt",
        &[("name", "p")],
        vec![node("set", &[("temperature", "0.2")], vec![]), msg("user", "A"), breakpoint("assistant"), msg("user", "B")],
    )]);
    let mut run = doc.invoke(&invocation("p")).unwrap();
    let requests = drive(&mut run);
    assert!(run.is_done());
    assert_eq!(requests.len(), 2);
    assert_eq!(requests[0].temperature.as_ref().unwrap().as_str(), "0.2");
    assert_eq!(requests[1].temperature.as_ref().unwrap().as_str(), "0.2");
    assert_eq!(seen(&requests[0]), vec![(MessageRole::User, "A".to_string())]);
    assert_eq!(
        seen(&requests[1]),
        vec![(MessageRole::User, "A".to_string()), (MessageRole::Assistant, "r0".to_string()), (MessageRole::User, "B".to_string())]
    );
    assert_eq!(
        log(run.context()),
        vec![
            (MessageRole::User, "A".to_string(), false),
            (MessageRole::Assistant, "r0".to_string(), true),
            (MessageRole::User, "B".to_string(), false),
            (MessageRole::Assistant, "r1".to_string(), true),
        ]
    );
}

#[test]
fn a_script_of_messages_makes_exactly_one_call() {
    let doc = document(vec![node(
        "prompt",
        &[("name", "p")],
        vec![msg("system", "S"), node("set", &[("n", "1")], vec![]), msg("user", "U1"), msg("user", "U2")],
    )]);
    let mut run = doc.invoke(&invocation("p")).unwrap();
    let requests = drive(&mut run);
    assert_eq!(requests.len(), 1);
    let entries = log(run.context());
    assert_eq!(entries.len(), 4);
    assert_eq!(entries.iter().filter(|e| e.2).count(), 1);
    assert_eq!(entries[3], (MessageRole::Assistant, "r0".to_string(), true));
    assert!(run.is_done());
}

#[test]
fn an_empty_script_still_makes_one_call() {
    let doc = document(vec![node("prompt", &[("name", "p")], vec![]), node("prompt", &[("name", "s")], vec![node("set", &[("n", "3")], vec![])])]);
    for name in ["p", "s"] {
        let mut run = doc.invoke(&invocation(name)).unwrap();
        let requests = drive(&mut run);
        assert_eq!(requests.len(), 1);
        assert!(requests[0].messages.is_empty());
        assert_eq!(log(run.context()), vec![(MessageRole::Assistant, "r0".to_string(), true)]);
    }
}

#[test]
fn a_trailing_breakpoint_makes_no_extra_call() {
    let doc = document(vec![node(
        "prompt",
        &[("name", "p")],
        vec![msg("user", "A"), breakpoint("assistant"), msg("user", "B"), breakpoint("user"), breakpoint("system")],
    )]);
    let mut run = doc.invoke(&invocation("p")).unwrap();
    let requests = drive(&mut run);
    assert_eq!(requests.len(), 3);
    assert_eq!(
        log(run.context()),
        vec![
            (MessageRole::User, "A".to_string(), false),
            (MessageRole::Assistant, "r0".to_string(), true),
            (MessageRole::User, "B".to_string(), false),
            (MessageRole::User, "r1".to_string(), true),
            (MessageRole::System, "r2".to_string(), true),
        ]
    );
}

#[test]
fn a_setting_after_the_last_breakpoint_makes_no_extra_call() {
    let doc = document(vec![node(
        "prompt",
        &[("name", "p")],
        vec![msg("user", "A"), breakpoint("assistant"), node("set", &[("n", "2")], vec![])],
    )]);
    let mut run = doc.invoke(&invocation("p")).unwrap();
    let requests = drive(&mut run);
    assert_eq!(requests.len(), 1);
    assert!(requests[0].n.is_none());
    assert_eq!(run.context().conversation.prompt_settings.n.map(|n| n.0), Some(2));
    assert!(run.is_done());
}

#[test]
fn settings_are_inherited_and_overridden_in_script_order() {
    let doc = document(vec![node(
        "prompt",
        &[("name", "p"), ("model", "base"), ("temperature", "0.1"), ("max-tokens", "10")],
        vec![
            breakpoint("assistant"),
            node("set", &[("temperature", "0.5"), ("response-format", "json_object")], vec![]),
            breakpoint("assistant"),
            node("set", &[("model", "other"), ("temperature", "0.9")], vec![]),
            msg("user", "end"),
        ],
    )]);
    let mut run = doc.invoke(&invocation("p")).unwrap();
    let requests = drive(&mut run);
    assert_eq!(requests.len(), 3);
    let shown: Vec<(String, String, Option<ResponseFormatType>)> = requests
        .iter()
        .map(|r| (r.model.clone().unwrap(), r.temperature.as_ref().unwrap().as_str().to_string(), r.response_format))
        .collect();
    assert_eq!(
        shown,
        vec![
            ("base".to_string(), "0.1".to_string(), None),
            ("base".to_string(), "0.5".to_string(), Some(ResponseFormatType::JsonObject)),
            ("other".to_string(), "0.9".to_string(), Some(ResponseFormatType::JsonObject)),
        ]
    );
    for request in &requests {
        assert_eq!(request.max_tokens, Some(10));
        assert!(request.stream.is_none());
    }
    assert_eq!(run.context().conversation.prompt_settings.name.as_deref(), Some("p"));
}

#[test]
fn only_the_first_choice_is_consumed() {
    let doc = document(vec![node("prompt", &[("name", "p"), ("n", "3")], vec![msg("user", "Hi")])]);
    let mut run = doc.invoke(&invocation("p")).unwrap();
    assert_eq!(run.request().unwrap().n, Some(3));
    run.complete(CompletionOutput::new(vec!["first".to_string(), "second".to_string(), "third".to_string()]));
    assert!(run.is_done());
    assert_eq!(log(run.context()), vec![(MessageRole::User, "Hi".to_string(), false), (MessageRole::Assistant, "first".to_string(), true)]);
}

#[test]
fn an_absent_prompt_is_not_found() {
    let doc = document(vec![node("prompt", &[("name", "q1")], vec![msg("user", "Hi")])]);
    let error = doc.invoke(&invocation("q2")).unwrap_err();
    assert_eq!(error.target_prompt, "q2");
    assert_eq!(error.to_string(), "prompt not found");
    assert!(doc.invoke(&invocation("Q1")).is_err());
    assert!(doc.invoke(&invocation("")).is_err());
    assert!(document(vec![]).invoke(&invocation("q1")).is_err());
}

#[test]
fn the_first_prompt_of_a_name_wins() {
    let doc = document(vec![
        node("prompt", &[("name", "other")], vec![msg("user", "zero")]),
        node("prompt", &[("name", "same")], vec![msg("user", "one")]),
        node("prompt", &[("name", "same")], vec![msg("user", "two")]),
    ]);
    let run = doc.invoke(&invocation("same")).unwrap();
    assert_eq!(seen(&run.request().unwrap()), vec![(MessageRole::User, "one".to_string())]);
}

#[test]
fn a_failed_call_gives_the_conversation_up() {
    let doc = document(vec![node("prompt", &[("name", "p")], vec![msg("user", "A"), breakpoint("assistant"), msg("user", "B")])]);
    let mut run = doc.invoke(&invocation("p")).unwrap();
    run.complete(answer("r0"));
    assert!(run.is_awaiting());
    run.fail();
    assert_eq!(run.state(), RunState::Aborted);
    assert!(!run.is_awaiting());
    assert!(run.request().is_none());
    assert!(run.to_snapshot().is_none());
    run.complete(answer("late"));
    assert_eq!(run.state(), RunState::Aborted);
    assert_eq!(run.context().conversation.messages.len(), 3);
    assert!(run.finish().is_none());
}

#[test]
fn an_answer_without_choices_gives_the_conversation_up() {
    let doc = document(vec![node("prompt", &[("name", "p")], vec![msg("user", "A")])]);
    let mut run = doc.invoke(&invocation("p")).unwrap();
    run.complete(CompletionOutput::new(vec![]));
    assert_eq!(run.state(), RunState::Aborted);
    assert!(run.to_snapshot().is_none());
}

#[test]
fn a_finished_run_does_not_change_any_more() {
    let doc = document(vec![node("prompt", &[("name", "p")], vec![msg("user", "A")])]);
    let mut run = doc.invoke(&invocation("p")).unwrap();
    run.complete(answer("done"));
    assert!(run.is_done());
    run.complete(answer("again"));
    run.fail();
    run.begin();
    assert!(run.is_done());
    assert_eq!(log(run.context()), vec![(MessageRole::User, "A".to_string(), false), (MessageRole::Assistant, "done".to_string(), true)]);
    let context = run.finish().unwrap();
    assert_eq!(context.runtime_environment.api_key, "key");
    assert_eq!(context.conversation.messages.len(), 2);
}

#[test]
fn a_run_is_idle_until_it_is_begun() {
    let element = match node("prompt", &[("name", "p"), ("model", "m")], vec![msg("user", "A")]) {
        Node::Element(e) => e,
        _ => unreachable!(),
    };
    let prompt = PromptNode::from_element(element).unwrap();
    let mut run = ConversationRun::new(&prompt, RuntimeEnvironment { api_key: "k".to_string() });
    assert_eq!(run.state(), RunState::Idle);
    assert!(run.request().is_none());
    assert!(run.context().conversation.messages.is_empty());
    run.complete(answer("too early"));
    run.fail();
    assert_eq!(run.state(), RunState::Idle);
    assert!(run.context().conversation.messages.is_empty());
    run.begin();
    assert_eq!(run.state(), RunState::Accumulating);
    assert_eq!(run.request().unwrap().model.as_deref(), Some("m"));
    let again = prompt.invoke(&RuntimeEnvironment { api_key: "k".to_string() });
    assert_eq!(seen(&again.request().unwrap()), seen(&run.request().unwrap()));
}

#[test]
fn two_invocations_share_no_state() {
    let doc = document(vec![node("prompt", &[("name", "p")], vec![msg("user", "A"), breakpoint("assistant"), msg("user", "B")])]);
    let mut first = doc.invoke(&invocation("p")).unwrap();
    let mut second = doc.invoke(&invocation("p")).unwrap();
    first.complete(answer("one"));
    assert_eq!(first.context().conversation.messages.len(), 3);
    assert_eq!(second.context().conversation.messages.len(), 1);
    second.complete(answer("two"));
    first.complete(answer("end"));
    assert!(first.is_done());
    assert!(!second.is_done());
    assert_eq!(log(first.context())[1].1, "one");
    assert_eq!(log(second.context())[1].1, "two");
}

#[test]
fn the_snapshot_mirrors_the_conversation() {
    let doc = document(vec![node("prompt", &[("name", "p")], vec![msg("system", "S"), msg("user", "A"), breakpoint("assistant"), msg("user", "B")])]);
    let mut run = doc.invoke(&invocation("p")).unwrap();
    drive(&mut run);
    let snapshot = run.to_snapshot().unwrap();
    let shown: Vec<(MessageRole, String, bool)> =
        snapshot.messages.iter().map(|m| (m.message_payload.role, m.message_payload.content.clone(), m.evaluation_point)).collect();
    assert_eq!(shown, log(run.context()));
    assert_eq!(shown.len(), 5);
    assert_eq!(shown[2], (MessageRole::Assistant, "r0".to_string(), true));
    let copy = snapshot.messages[0].clone();
    assert_eq!(copy.message_payload.content, "S");
    assert!(!copy.evaluation_point);
    let direct = run.context().to_snapshot();
    assert_eq!(direct.messages.len(), 5);
}

#[test]
fn a_conversation_is_evaluated_when_its_last_message_is() {
    let mut conversation = Conversation::default();
    assert!(!conversation.already_evaluated());
    conversation.messages.push(ConversationMessage { message: Message::user("u".to_string()), evaluated: false });
    assert!(!conversation.already_evaluated());
    conversation.messages.push(ConversationMessage { message: Message::assistant("a".to_string()), evaluated: true });
    assert!(conversation.already_evaluated());
    conversation.messages.push(ConversationMessage { message: Message::system("s".to_string()), evaluated: false });
    assert!(!conversation.already_evaluated());
}

#[test]
fn a_new_context_is_empty() {
    let context = PromptContext::new(RuntimeEnvironment { api_key: "secret".to_string() });
    assert_eq!(context.runtime_environment.api_key, "secret");
    assert!(context.conversation.messages.is_empty());
    assert!(context.conversation.prompt_settings.model.is_none());
    let request = context.invoke();
    assert!(request.messages.is_empty());
    assert!(request.model.is_none());
    let snapshot = context.to_snapshot();
    assert!(snapshot.messages.is_empty());
    assert_eq!(context.runtime_environment.clone().api_key, "secret");
}

#[test]
fn the_request_carries_the_settings_that_are_set() {
    let mut settings = PromptSettings::default();
    for (key, value) in [
        ("name", "ignored"), ("model", "m"), ("temperature", "0.2"), ("n", "2"), ("max-tokens", "64"), ("top-p", "0.9"),
        ("frequency-penalty", "-1"), ("presence-penalty", "1e0"), ("logprobs", "true"), ("top-logprobs", "4"), ("response-format", "text"),
    ] {
        assert!(matches!(settings.try_merge(key, value), Some(Ok(()))));
    }
    let request = settings.request_builder();
    assert!(request.messages.is_empty());
    assert_eq!(request.model.as_deref(), Some("m"));
    assert_eq!(request.temperature.as_ref().unwrap().as_str(), "0.2");
    assert_eq!(request.n, Some(2));
    assert_eq!(request.max_tokens, Some(64));
    assert_eq!(request.top_p.as_ref().unwrap().as_str(), "0.9");
    assert_eq!(request.frequency_penalty.as_ref().unwrap().as_str(), "-1");
    assert_eq!(request.presence_penalty.as_ref().unwrap().as_str(), "1e0");
    assert_eq!(request.logprobs, Some(true));
    assert_eq!(request.top_logprobs, Some(4));
    assert_eq!(request.response_format, Some(ResponseFormatType::Text));
    assert!(request.stream.is_none());
    let bare = PromptSettings::default().request_builder();
    assert!(bare.model.is_none() && bare.temperature.is_none() && bare.n.is_none());
}

#[test]
fn request_builders_set_one_field_each() {
    let request = RequestBuilder::default()
        .with_messages(vec![Message::new(MessageRole::User, "hi".to_string())])
        .with_model("m".to_string())
        .with_stream(true)
        .with_n(2);
    assert_eq!(request.messages.len(), 1);
    assert_eq!(request.messages[0].clone().content, "hi");
    assert_eq!(request.model.as_deref(), Some("m"));
    assert_eq!(request.stream, Some(true));
    assert_eq!(request.n, Some(2));
    assert!(request.temperature.is_none());
    assert_eq!(Message::system("s".to_string()).role, MessageRole::System);
    assert_eq!(Message::assistant("a".to_string()).role, MessageRole::Assistant);
    assert_eq!(Message::user("u".to_string()).role, MessageRole::User);
}

#[test]
fn completion_output_gives_a_choice_by_its_place() {
    let output = CompletionOutput::new(vec!["a".to_string(), "b".to_string()]);
    assert_eq!(output.content(0).as_deref(), Some("a"));
    assert_eq!(output.content(1).as_deref(), Some("b"));
    assert_eq!(output.content(2), None);
    assert_eq!(CompletionOutput::new(vec![]).content(0), None);
}

#[test]
fn a_breakpoint_asks_for_its_own_role() {
    let doc = document(vec![node("prompt", &[("name", "p")], vec![msg("user", "A"), breakpoint("system"), msg("user", "B")])]);
    let mut run = doc.invoke(&invocation("p")).unwrap();
    assert_eq!(run.position(), 2);
    assert_eq!(run.pending(), Some(MessageRole::System));
    run.complete(answer("r"));
    assert_eq!(run.position(), 3);
    assert_eq!(run.pending(), Some(MessageRole::Assistant));
    let copy = run.context().clone();
    assert_eq!(log(&copy), log(run.context()));
    let request = run.request().unwrap();
    assert_eq!(seen(&request.clone()), seen(&request));
}
