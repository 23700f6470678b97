use vstd::prelude::*;

use crate::ast::document::DocumentChildCode;
use crate::ast::document::DocumentNode;
use crate::ast::message_text::body_text;
use crate::ast::prompt::PromptChildNode;
use crate::ast::prompt::PromptChildNodeView;
use crate::ast::prompt::PromptNode;
use crate::ast::prompt::PromptNodeView;
use crate::common::message::MessageRole;
use crate::common::prompt::PromptSettings;
use crate::common::prompt::PromptSettingsView;
use crate::completion::messages_view;
use crate::completion::CompletionOutput;
use crate::completion::Message;
use crate::completion::MessageView;
use crate::completion::RequestBuilder;
use crate::completion::RequestBuilderView;
use crate::snapshot::ConversationSnapshot;
use crate::snapshot::MessageSnapshot;
use crate::snapshot::MessageSnapshotView;
use crate::text::str_eq;

verus! {

// ————————————————————————————————————————————————————————————————————————————
// DATA MODEL — SETTINGS
// ————————————————————————————————————————————————————————————————————————————
/// What the driver of a conversation needs to reach the backend.
#[derive(Debug)]
pub struct RuntimeEnvironment {
    pub api_key: String,
}

impl View for RuntimeEnvironment {
    type V = Seq<char>;

    open spec fn view(&self) -> Seq<char> {
        self.api_key@
    }
}

impl Clone for RuntimeEnvironment {
    fn clone(&self) -> (r: Self)
        ensures
            r@ == self@,
    {
        RuntimeEnvironment { api_key: self.api_key.clone() }
    }
}

/// A request to run one prompt of a document.
#[derive(Debug)]
pub struct DocumentInvocation {
    pub runtime_environment: RuntimeEnvironment,
    pub target_prompt: String,
}

impl Clone for DocumentInvocation {
    fn clone(&self) -> (r: Self)
        ensures
            r.runtime_environment@ == self.runtime_environment@,
            r.target_prompt@ == self.target_prompt@,
    {
        DocumentInvocation {
            runtime_environment: self.runtime_environment.clone(),
            target_prompt: self.target_prompt.clone(),
        }
    }
}

// ————————————————————————————————————————————————————————————————————————————
// DATA MODEL — CONVERSATION
// ————————————————————————————————————————————————————————————————————————————
/// A message of the log. It is `evaluated` where the backend produced it, and
/// not where the script wrote it.
#[derive(Debug)]
pub struct ConversationMessage {
    pub message: Message,
    pub evaluated: bool,
}

/// What a [`ConversationMessage`] holds.
pub ghost struct ConversationMessageView {
    pub message: MessageView,
    pub evaluated: bool,
}

impl View for ConversationMessage {
    type V = ConversationMessageView;

    open spec fn view(&self) -> ConversationMessageView {
        ConversationMessageView { message: self.message@, evaluated: self.evaluated }
    }
}

impl Clone for ConversationMessage {
    fn clone(&self) -> (r: Self)
        ensures
            r@ == self@,
    {
        ConversationMessage { message: self.message.clone(), evaluated: self.evaluated }
    }
}

/// What the messages `messages` of a log hold, one by one.
pub open spec fn log_view(messages: Seq<ConversationMessage>) -> Seq<ConversationMessageView> {
    Seq::new(messages.len(), |i: int| messages[i]@)
}

/// The messages of a log as they are sent to the backend.
pub open spec fn payloads(log: Seq<ConversationMessageView>) -> Seq<MessageView> {
    Seq::new(log.len(), |i: int| log[i].message)
}

/// Whether the log ends with a message that the backend produced. An empty
/// log does not.
pub open spec fn ends_evaluated(log: Seq<ConversationMessageView>) -> bool {
    log.len() > 0 && log.last().evaluated
}

/// The log of one conversation and the settings in effect.
#[derive(Debug)]
pub struct Conversation {
    pub messages: Vec<ConversationMessage>,
    pub prompt_settings: PromptSettings,
}

/// What a [`Conversation`] holds.
pub ghost struct ConversationView {
    pub messages: Seq<ConversationMessageView>,
    pub prompt_settings: PromptSettingsView,
}

impl View for Conversation {
    type V = ConversationView;

    open spec fn view(&self) -> ConversationView {
        ConversationView {
            messages: log_view(self.messages@),
            prompt_settings: self.prompt_settings@,
        }
    }
}

impl ConversationView {
    /// The conversation without messages and with no parameter set.
    pub open spec fn empty() -> ConversationView {
        ConversationView { messages: Seq::empty(), prompt_settings: PromptSettingsView::empty() }
    }
}

impl Default for Conversation {
    fn default() -> (r: Self)
        ensures
            r@ == ConversationView::empty(),
    {
        let r = Conversation { messages: Vec::new(), prompt_settings: PromptSettings::default() };
        assert(r@.messages =~= Seq::<ConversationMessageView>::empty());
        r
    }
}

impl Clone for Conversation {
    fn clone(&self) -> (r: Self)
        ensures
            r@ == self@,
    {
        let mut out: Vec<ConversationMessage> = Vec::new();
        let mut i: usize = 0;
        while i < self.messages.len()
            invariant
                i <= self.messages.len(),
                out.len() == i,
                forall|j: int| 0 <= j < i ==> (#[trigger] out@[j])@ == self.messages@[j]@,
            decreases self.messages.len() - i,
        {
            out.push(self.messages[i].clone());
            i = i + 1;
        }
        assert(log_view(out@) =~= log_view(self.messages@));
        Conversation { messages: out, prompt_settings: self.prompt_settings.clone() }
    }
}

impl Conversation {
    /// Whether the log ends with a message that the backend produced.
    pub fn already_evaluated(&self) -> (r: bool)
        ensures
            r == ends_evaluated(self@.messages),
    {
        let n = self.messages.len();
        if n == 0 {
            false
        } else {
            self.messages[n - 1].evaluated
        }
    }
}

/// A conversation and the environment in which it runs.
#[derive(Debug)]
pub struct PromptContext {
    pub runtime_environment: RuntimeEnvironment,
    pub conversation: Conversation,
}

/// What a [`PromptContext`] holds.
pub ghost struct PromptContextView {
    pub runtime_environment: Seq<char>,
    pub conversation: ConversationView,
}

impl View for PromptContext {
    type V = PromptContextView;

    open spec fn view(&self) -> PromptContextView {
        PromptContextView {
            runtime_environment: self.runtime_environment@,
            conversation: self.conversation@,
        }
    }
}

impl Clone for PromptContext {
    fn clone(&self) -> (r: Self)
        ensures
            r@ == self@,
    {
        PromptContext {
            runtime_environment: self.runtime_environment.clone(),
            conversation: self.conversation.clone(),
        }
    }
}

/// The messages of a log as a snapshot holds them.
pub open spec fn snapshot_of(log: Seq<ConversationMessageView>) -> Seq<MessageSnapshotView> {
    Seq::new(
        log.len(),
        |i: int|
            MessageSnapshotView { message_payload: log[i].message, evaluation_point: log[i].evaluated },
    )
}

impl PromptContext {
    /// A context with an empty conversation.
    pub fn new(runtime_environment: RuntimeEnvironment) -> (r: Self)
        ensures
            r@ == (PromptContextView {
                runtime_environment: runtime_environment@,
                conversation: ConversationView::empty(),
            }),
    {
        Self { runtime_environment, conversation: Default::default() }
    }

    /// The request that asks the backend for the next message of the
    /// conversation: all the messages so far, in order, and the settings in
    /// effect.
    pub fn invoke(&self) -> (r: RequestBuilder)
        ensures
            r@ == call_request(self@.conversation.messages, self@.conversation.prompt_settings),
    {
        let mut messages: Vec<Message> = Vec::new();
        let mut i: usize = 0;
        let ghost log = self@.conversation.messages;
        while i < self.conversation.messages.len()
            invariant
                i <= self.conversation.messages.len(),
                messages.len() == i,
                log == log_view(self.conversation.messages@),
                messages_view(messages@) == payloads(log).take(i as int),
            decreases self.conversation.messages.len() - i,
        {
            messages.push(self.conversation.messages[i].message.clone());
            i = i + 1;
        }
        assert(payloads(log).take(self.conversation.messages.len() as int) =~= payloads(log));
        self.conversation.prompt_settings.request_builder().with_messages(messages)
    }

    /// The conversation as a value to be stored: every message of the log in
    /// its place, with the mark of where the backend produced it.
    pub fn to_snapshot(&self) -> (r: ConversationSnapshot)
        ensures
            r@ == snapshot_of(self@.conversation.messages),
    {
        let mut messages: Vec<MessageSnapshot> = Vec::new();
        let mut i: usize = 0;
        let ghost log = self@.conversation.messages;
        while i < self.conversation.messages.len()
            invariant
                i <= self.conversation.messages.len(),
                messages.len() == i,
                log == log_view(self.conversation.messages@),
                forall|j: int| 0 <= j < i ==> (#[trigger] messages@[j])@ == snapshot_of(log)[j],
            decreases self.conversation.messages.len() - i,
        {
            let x = &self.conversation.messages[i];
            messages.push(
                MessageSnapshot { message_payload: x.message.clone(), evaluation_point: x.evaluated },
            );
            i = i + 1;
        }
        let r = ConversationSnapshot { messages };
        r
    }
}

// ————————————————————————————————————————————————————————————————————————————
// REQUEST HANDLER
// ————————————————————————————————————————————————————————————————————————————
/// The request that carries the parameters that are set among `settings`,
/// and no messages yet. The name is no parameter of a request.
pub open spec fn settings_request(settings: PromptSettingsView) -> RequestBuilderView {
    RequestBuilderView {
        messages: Seq::empty(),
        model: settings.model,
        temperature: settings.temperature,
        n: settings.n,
        max_tokens: settings.max_tokens,
        top_p: settings.top_p,
        frequency_penalty: settings.frequency_penalty,
        presence_penalty: settings.presence_penalty,
        logprobs: settings.logprobs,
        top_logprobs: settings.top_logprobs,
        response_format: settings.response_format,
        stream: None,
    }
}

/// The request that asks for the next message after `log` under `settings`.
pub open spec fn call_request(
    log: Seq<ConversationMessageView>,
    settings: PromptSettingsView,
) -> RequestBuilderView {
    RequestBuilderView { messages: payloads(log), ..settings_request(settings) }
}

impl PromptSettings {
    /// The request that carries the parameters that are set, and no messages
    /// yet.
    pub fn request_builder(&self) -> (r: RequestBuilder)
        ensures
            r@ == settings_request(self@),
    {
        let mut builder = RequestBuilder::default();
        match &self.model {
            Some(model) => {
                builder = builder.with_model(model.0.clone());
            },
            None => {},
        }
        match &self.temperature {
            Some(temperature) => {
                builder = builder.with_temperature(temperature.0.clone());
            },
            None => {},
        }
        match &self.n {
            Some(n) => {
                builder = builder.with_n(n.0);
            },
            None => {},
        }
        match &self.max_tokens {
            Some(max_tokens) => {
                builder = builder.with_max_tokens(max_tokens.0);
            },
            None => {},
        }
        match &self.top_p {
            Some(top_p) => {
                builder = builder.with_top_p(top_p.0.clone());
            },
            None => {},
        }
        match &self.frequency_penalty {
            Some(frequency_penalty) => {
                builder = builder.with_frequency_penalty(frequency_penalty.0.clone());
            },
            None => {},
        }
        match &self.presence_penalty {
            Some(presence_penalty) => {
                builder = builder.with_presence_penalty(presence_penalty.0.clone());
            },
            None => {},
        }
        match &self.logprobs {
            Some(logprobs) => {
                builder = builder.with_logprobs(logprobs.0);
            },
            None => {},
        }
        match &self.top_logprobs {
            Some(top_logprobs) => {
                builder = builder.with_top_logprobs(top_logprobs.0);
            },
            None => {},
        }
        match &self.response_format {
            Some(response_format) => {
                builder = builder.with_response_format(response_format.0);
            },
            None => {},
        }
        builder
    }
}

// ————————————————————————————————————————————————————————————————————————————
// INVOCATION
// ————————————————————————————————————————————————————————————————————————————
/// Where the run of a prompt stands. A run that waits for the backend is
/// still `Accumulating`.
#[derive(Debug, Clone, Copy, PartialEq, Eq, Structural)]
pub enum RunState {
    /// Nothing has happened yet.
    Idle,
    /// The script is being walked and the log grows.
    Accumulating,
    /// The script is at its end and the conversation is final.
    Done,
    /// A call of the backend failed. The conversation is given up.
    Aborted,
}

/// The run of one prompt: a state machine that walks the script, keeps the
/// log and the settings in effect, and stops wherever the backend has to be
/// asked for the next message. Whoever drives the run makes the call and
/// hands the answer back.
#[derive(Debug)]
pub struct ConversationRun<'a> {
    prompt: &'a PromptNode,
    context: PromptContext,
    position: usize,
    pending: Option<MessageRole>,
    state: RunState,
}

/// What a [`ConversationRun`] holds.
pub ghost struct ConversationRunView {
    /// The steps of the prompt that is run.
    pub script: Seq<PromptChildNodeView>,
    /// The settings that the prompt declares.
    pub declared: PromptSettingsView,
    /// The environment of the run.
    pub environment: Seq<char>,
    /// The log so far.
    pub messages: Seq<ConversationMessageView>,
    /// The settings in effect.
    pub settings: PromptSettingsView,
    /// How many steps of the script are behind.
    pub position: int,
    /// The role of the message that the backend is asked for, while the run
    /// waits for it.
    pub pending: Option<MessageRole>,
    pub state: RunState,
}

/// The message that a step of the script writes into the log.
pub open spec fn authored(role: MessageRole, text: Seq<char>) -> ConversationMessageView {
    ConversationMessageView { message: MessageView { role, content: text }, evaluated: false }
}

/// The message that an answer of the backend adds to the log.
pub open spec fn produced(role: MessageRole, text: Seq<char>) -> ConversationMessageView {
    ConversationMessageView { message: MessageView { role, content: text }, evaluated: true }
}

impl ConversationRunView {
    /// The run of `prompt` before anything has happened.
    pub open spec fn idle(prompt: PromptNodeView, environment: Seq<char>) -> ConversationRunView {
        ConversationRunView {
            script: prompt.children,
            declared: prompt.settings.to_settings(),
            environment,
            messages: Seq::empty(),
            settings: PromptSettingsView::empty(),
            position: 0,
            pending: None,
            state: RunState::Idle,
        }
    }

    /// Whether the run waits for an answer of the backend.
    pub open spec fn awaiting(self) -> bool {
        self.state == RunState::Accumulating && self.pending is Some
    }

    /// The run after the script was walked from where it stands to the next
    /// point at which the backend has to be asked. A message is written
    /// into the log, a change of settings is merged into the settings in
    /// effect, and a breakpoint stops the walk. At the end of the script the
    /// walk stops for one more call, whose answer the assistant speaks,
    /// unless the log ends with a message that the backend produced: then the
    /// run is done.
    pub open spec fn advanced(self) -> ConversationRunView
        decreases self.script.len() - self.position,
    {
        if self.position < 0 || self.position >= self.script.len() {
            if ends_evaluated(self.messages) {
                ConversationRunView { state: RunState::Done, ..self }
            } else {
                ConversationRunView { pending: Some(MessageRole::Assistant), ..self }
            }
        } else {
            match self.script[self.position] {
                PromptChildNodeView::Msg(msg) => (ConversationRunView {
                    messages: self.messages.push(authored(msg.role, body_text(msg.children))),
                    position: self.position + 1,
                    ..self
                }).advanced(),
                PromptChildNodeView::Settings(settings) => (ConversationRunView {
                    settings: self.settings.merge(settings),
                    position: self.position + 1,
                    ..self
                }).advanced(),
                PromptChildNodeView::Breakpoint(breakpoint) => ConversationRunView {
                    pending: Some(breakpoint.role),
                    position: self.position + 1,
                    ..self
                },
            }
        }
    }

    /// The run after it was begun: a fresh conversation with an empty log
    /// and the declared settings of the prompt, walked to the first point at
    /// which the backend has to be asked. A run that is not idle stays as it
    /// is.
    pub open spec fn begun(self) -> ConversationRunView {
        if self.state == RunState::Idle {
            (ConversationRunView {
                messages: Seq::empty(),
                settings: self.declared,
                position: 0,
                pending: None,
                state: RunState::Accumulating,
                ..self
            }).advanced()
        } else {
            self
        }
    }

    /// The run after the backend answered with `choices`. The first choice
    /// becomes the next message of the log, with the role that was asked
    /// for, and the walk goes on. An answer without choices is a failure. A
    /// run that does not wait for an answer stays as it is.
    pub open spec fn completed(self, choices: Seq<Seq<char>>) -> ConversationRunView {
        if !self.awaiting() {
            self
        } else if choices.len() == 0 {
            self.failed()
        } else {
            (ConversationRunView {
                messages: self.messages.push(produced(self.pending->0, choices[0])),
                pending: None,
                ..self
            }).advanced()
        }
    }

    /// The run after a call of the backend failed: it is given up. A run
    /// that does not wait for an answer stays as it is.
    pub open spec fn failed(self) -> ConversationRunView {
        if self.awaiting() {
            ConversationRunView { pending: None, state: RunState::Aborted, ..self }
        } else {
            self
        }
    }

    /// The request that the run waits for an answer to, if it waits for one:
    /// the whole log so far and the settings in effect.
    pub open spec fn request(self) -> Option<RequestBuilderView> {
        if self.awaiting() {
            Some(call_request(self.messages, self.settings))
        } else {
            None
        }
    }
}

impl<'a> View for ConversationRun<'a> {
    type V = ConversationRunView;

    closed spec fn view(&self) -> ConversationRunView {
        ConversationRunView {
            script: self.prompt@.children,
            declared: self.prompt@.settings.to_settings(),
            environment: self.context@.runtime_environment,
            messages: self.context@.conversation.messages,
            settings: self.context@.conversation.prompt_settings,
            position: self.position as int,
            pending: self.pending,
            state: self.state,
        }
    }
}

impl<'a> ConversationRun<'a> {
    /// The run of `prompt` before anything has happened.
    pub fn new(prompt: &'a PromptNode, runtime_environment: RuntimeEnvironment) -> (r: Self)
        ensures
            r@ == ConversationRunView::idle(prompt@, runtime_environment@),
    {
        ConversationRun {
            prompt,
            context: PromptContext::new(runtime_environment),
            position: 0,
            pending: None,
            state: RunState::Idle,
        }
    }

    /// Walks the script from where the run stands to the next point at which
    /// the backend has to be asked, or to the end.
    fn advance(&mut self)
        requires
            old(self)@.state == RunState::Accumulating,
            old(self)@.pending is None,
        ensures
            final(self)@ == old(self)@.advanced(),
    {
        while self.position < self.prompt.children.len()
            invariant
                self@.advanced() == old(self)@.advanced(),
                self@.state == RunState::Accumulating,
                self@.pending is None,
            decreases self.prompt.children.len() - self.position,
        {
            let ghost before = self@;
            match &self.prompt.children[self.position] {
                PromptChildNode::Msg(msg) => {
                    let text = msg.text_content();
                    self.context.conversation.messages.push(
                        ConversationMessage { message: Message::new(msg.role, text), evaluated: false },
                    );
                    self.position = self.position + 1;
                    proof {
                        assert(self@.messages =~= before.messages.push(
                            authored(msg@.role, body_text(msg@.children)),
                        ));
                    }
                },
                PromptChildNode::Breakpoint(breakpoint) => {
                    self.pending = Some(breakpoint.role);
                    self.position = self.position + 1;
                    return ;
                },
                PromptChildNode::Settings(set) => {
                    self.context.conversation.prompt_settings.merge_mut(set.prompt_settings.clone());
                    self.position = self.position + 1;
                },
            }
        }
        if self.context.conversation.already_evaluated() {
            self.state = RunState::Done;
        } else {
            self.pending = Some(MessageRole::Assistant);
        }
    }

    /// Begins the run: a fresh conversation with an empty log and the
    /// declared settings of the prompt, walked to the first point at which
    /// the backend has to be asked. A run that is not idle stays as it is.
    pub fn begin(&mut self)
        ensures
            final(self)@ == old(self)@.begun(),
    {
        if self.state == RunState::Idle {
            self.context.conversation.messages = Vec::new();
            self.context.conversation.prompt_settings = self.prompt.settings.to_settings();
            self.position = 0;
            self.pending = None;
            self.state = RunState::Accumulating;
            assert(self@.messages =~= Seq::<ConversationMessageView>::empty());
            self.advance();
        }
    }

    /// Hands the answer of the backend to the run. Its first choice becomes
    /// the next message of the log, with the role that was asked for, and
    /// the walk goes on to the next point at which the backend has to be
    /// asked, or to the end. An answer without choices gives the conversation
    /// up. A run that does not wait for an answer stays as it is.
    pub fn complete(&mut self, output: CompletionOutput)
        ensures
            final(self)@ == old(self)@.completed(output@),
    {
        if self.state != RunState::Accumulating {
            return ;
        }
        let role = match self.pending {
            Some(role) => role,
            None => {
                return ;
            },
        };
        match output.content(0) {
            Some(text) => {
                self.context.conversation.messages.push(
                    ConversationMessage { message: Message::new(role, text), evaluated: true },
                );
                self.pending = None;
                proof {
                    assert(self@.messages =~= old(self)@.messages.push(
                        produced(role, output@[0]),
                    ));
                }
                self.advance();
            },
            None => {
                self.pending = None;
                self.state = RunState::Aborted;
            },
        }
    }

    /// Tells the run that the call of the backend failed: the conversation
    /// is given up. A run that does not wait for an answer stays as it is.
    pub fn fail(&mut self)
        ensures
            final(self)@ == old(self)@.failed(),
    {
        if self.state == RunState::Accumulating && self.pending.is_some() {
            self.pending = None;
            self.state = RunState::Aborted;
        }
    }

    /// The request that the run waits for an answer to, if it waits for one.
    pub fn request(&self) -> (r: Option<RequestBuilder>)
        ensures
            match r {
                Some(request) => self@.request() == Some(request@),
                None => self@.request() is None,
            },
    {
        if self.state == RunState::Accumulating && self.pending.is_some() {
            Some(self.context.invoke())
        } else {
            None
        }
    }

    /// Where the run stands.
    pub fn state(&self) -> (r: RunState)
        ensures
            r == self@.state,
    {
        self.state
    }

    /// How many steps of the script are behind.
    pub fn position(&self) -> (r: usize)
        ensures
            r == self@.position,
    {
        self.position
    }

    /// The role of the message that the backend is asked for, while the run
    /// waits for it.
    pub fn pending(&self) -> (r: Option<MessageRole>)
        ensures
            r == self@.pending,
    {
        self.pending
    }

    /// Whether the conversation is final.
    pub fn is_done(&self) -> (r: bool)
        ensures
            r == (self@.state == RunState::Done),
    {
        self.state == RunState::Done
    }

    /// Whether the run waits for an answer of the backend.
    pub fn is_awaiting(&self) -> (r: bool)
        ensures
            r == self@.awaiting(),
    {
        self.state == RunState::Accumulating && self.pending.is_some()
    }

    /// The conversation as far as it has come.
    pub fn context(&self) -> (r: &PromptContext)
        ensures
            r@.conversation.messages == self@.messages,
            r@.conversation.prompt_settings == self@.settings,
            r@.runtime_environment == self@.environment,
    {
        &self.context
    }

    /// The finished conversation. There is none before the run is done, and
    /// none at all of a run that was given up.
    pub fn finish(self) -> (r: Option<PromptContext>)
        ensures
            r is Some <==> self@.state == RunState::Done,
            r matches Some(context) ==> {
                &&& context@.conversation.messages == self@.messages
                &&& context@.conversation.prompt_settings == self@.settings
                &&& context@.runtime_environment == self@.environment
            },
    {
        if self.state == RunState::Done {
            Some(self.context)
        } else {
            None
        }
    }

    /// The finished conversation as a value to be stored. There is none
    /// before the run is done, and none at all of a run that was given up.
    pub fn to_snapshot(&self) -> (r: Option<ConversationSnapshot>)
        ensures
            r is Some <==> self@.state == RunState::Done,
            r matches Some(snapshot) ==> snapshot@ == snapshot_of(self@.messages),
    {
        if self.state == RunState::Done {
            Some(self.context.to_snapshot())
        } else {
            None
        }
    }
}

/// No prompt of the document has the name that was asked for.
#[derive(Debug)]
pub struct PromptNotFound {
    pub target_prompt: String,
}

impl View for PromptNotFound {
    type V = Seq<char>;

    open spec fn view(&self) -> Seq<char> {
        self.target_prompt@
    }
}

impl Clone for PromptNotFound {
    fn clone(&self) -> (r: Self)
        ensures
            r@ == self@,
    {
        PromptNotFound { target_prompt: self.target_prompt.clone() }
    }
}

impl PromptNotFound {
    /// What the error says.
    pub open spec fn message() -> Seq<char> {
        "prompt not found"@
    }

    /// What the error says, as a text.
    pub fn to_string(&self) -> (r: String)
        ensures
            r@ == Self::message(),
    {
        "prompt not found".to_owned()
    }
}

/// The place of the first prompt with the name `target`, if there is one.
/// Names are compared as they are written.
pub open spec fn find_prompt(prompts: Seq<PromptNodeView>, target: Seq<char>) -> Option<int>
    decreases prompts.len(),
{
    if prompts.len() == 0 {
        None
    } else {
        match find_prompt(prompts.drop_last(), target) {
            Some(i) => Some(i),
            None => if prompts.last().settings.name == target {
                Some(prompts.len() - 1)
            } else {
                None
            },
        }
    }
}

/// The prompt that is found has the name that was asked for and no prompt
/// before it has; where none is found, no prompt has that name.
pub proof fn lemma_find_prompt(prompts: Seq<PromptNodeView>, target: Seq<char>)
    ensures
        match find_prompt(prompts, target) {
            Some(i) => {
                &&& 0 <= i < prompts.len()
                &&& prompts[i].settings.name == target
                &&& forall|j: int| 0 <= j < i ==> (#[trigger] prompts[j]).settings.name != target
            },
            None => forall|j: int|
                0 <= j < prompts.len() ==> (#[trigger] prompts[j]).settings.name != target,
        },
    decreases prompts.len(),
{
    if prompts.len() > 0 {
        lemma_find_prompt(prompts.drop_last(), target);
        assert forall|j: int| 0 <= j < prompts.len() - 1 implies prompts[j]
            == prompts.drop_last()[j] by {}
    }
}

/// Where no prompt has the name that is asked for, none is found.
pub proof fn lemma_absent_prompt_not_found(prompts: Seq<PromptNodeView>, target: Seq<char>)
    requires
        forall|j: int| 0 <= j < prompts.len() ==> (#[trigger] prompts[j]).settings.name != target,
    ensures
        find_prompt(prompts, target) is None,
{
    lemma_find_prompt(prompts, target);
}

impl PromptNode {
    /// Begins a run of the prompt in the given environment: a fresh
    /// conversation with the declared settings of the prompt, walked to the
    /// first point at which the backend has to be asked.
    pub fn invoke(&self, runtime_environment: &RuntimeEnvironment) -> (r: ConversationRun<'_>)
        ensures
            r@ == ConversationRunView::idle(self@, runtime_environment@).begun(),
    {
        let mut run = ConversationRun::new(self, runtime_environment.clone());
        run.begin();
        run
    }
}

impl DocumentNode {
    /// Begins a run of the first prompt that has the name asked for. Where
    /// no prompt has it, nothing is begun.
    pub fn invoke(&self, document_invocation: &DocumentInvocation) -> (r: Result<
        ConversationRun<'_>,
        PromptNotFound,
    >)
        ensures
            match r {
                Ok(run) => {
                    &&& find_prompt(self@.children, document_invocation.target_prompt@) is Some
                    &&& run@ == ConversationRunView::idle(
                        self@.children[find_prompt(
                            self@.children,
                            document_invocation.target_prompt@,
                        )->0],
                        document_invocation.runtime_environment@,
                    ).begun()
                },
                Err(error) => {
                    &&& find_prompt(self@.children, document_invocation.target_prompt@) is None
                    &&& error@ == document_invocation.target_prompt@
                },
            },
    {
        let ghost prompts = self@.children;
        let ghost target = document_invocation.target_prompt@;
        let mut i: usize = 0;
        while i < self.children.len()
            invariant
                i <= self.children.len(),
                prompts == self@.children,
                target == document_invocation.target_prompt@,
                find_prompt(prompts.take(i as int), target) is None,
            decreases self.children.len() - i,
        {
            proof {
                assert(prompts.take(i + 1).drop_last() =~= prompts.take(i as int));
            }
            match &self.children[i] {
                DocumentChildCode::Prompt(prompt) => {
                    if str_eq(prompt.name(), document_invocation.target_prompt.as_str()) {
                        proof {
                            lemma_find_prompt_prefix(prompts, target, i + 1);
                        }
                        return Ok(prompt.invoke(&document_invocation.runtime_environment));
                    }
                },
            }
            i = i + 1;
        }
        assert(prompts.take(self.children.len() as int) =~= prompts);
        Err(PromptNotFound { target_prompt: document_invocation.target_prompt.clone() })
    }
}

/// A prompt that is found among the first `k` prompts is the one that is
/// found among all of them.
pub proof fn lemma_find_prompt_prefix(prompts: Seq<PromptNodeView>, target: Seq<char>, k: int)
    requires
        0 <= k <= prompts.len(),
        find_prompt(prompts.take(k), target) is Some,
    ensures
        find_prompt(prompts, target) == find_prompt(prompts.take(k), target),
    decreases prompts.len(),
{
    if k == prompts.len() {
        assert(prompts.take(k) =~= prompts);
    } else {
        assert(prompts.drop_last().take(k) =~= prompts.take(k));
        lemma_find_prompt_prefix(prompts.drop_last(), target, k);
    }
}

// ————————————————————————————————————————————————————————————————————————————
// LAWS
// ————————————————————————————————————————————————————————————————————————————
/// How many calls of the backend a run still makes that stands before the
/// step at `position` with a log that ends, or does not end, with a message
/// that the backend produced: one for each breakpoint that is still to come,
/// and one more at the end unless the log then ends with such a message.
pub open spec fn calls_from(script: Seq<PromptChildNodeView>, position: int, evaluated: bool) -> nat
    decreases script.len() - position,
{
    if position < 0 || position >= script.len() {
        if evaluated {
            0
        } else {
            1
        }
    } else {
        match script[position] {
            PromptChildNodeView::Msg(_) => calls_from(script, position + 1, false),
            PromptChildNodeView::Settings(_) => calls_from(script, position + 1, evaluated),
            PromptChildNodeView::Breakpoint(_) => 1 + calls_from(script, position + 1, true),
        }
    }
}

/// How many calls of the backend a run of the script makes.
pub open spec fn calls_of(script: Seq<PromptChildNodeView>) -> nat {
    calls_from(script, 0, false)
}

/// How many breakpoints the script has at `position` and after it.
pub open spec fn breakpoints_from(script: Seq<PromptChildNodeView>, position: int) -> nat
    decreases script.len() - position,
{
    if position < 0 || position >= script.len() {
        0
    } else if script[position] is Breakpoint {
        1 + breakpoints_from(script, position + 1)
    } else {
        breakpoints_from(script, position + 1)
    }
}

/// The messages that the steps of the script themselves write into the log
/// from `position` on, in the order of the script.
pub open spec fn authored_from(script: Seq<PromptChildNodeView>, position: int) -> Seq<
    ConversationMessageView,
>
    decreases script.len() - position,
{
    if position < 0 || position >= script.len() {
        Seq::empty()
    } else {
        match script[position] {
            PromptChildNodeView::Msg(msg) => seq![authored(msg.role, body_text(msg.children))]
                + authored_from(script, position + 1),
            _ => authored_from(script, position + 1),
        }
    }
}

/// The settings in effect before the step at `position`: those that the
/// prompt declares, overridden by each change of settings among the steps
/// before, in the order of the script.
pub open spec fn settings_before(
    script: Seq<PromptChildNodeView>,
    declared: PromptSettingsView,
    position: int,
) -> PromptSettingsView
    decreases position,
{
    if position <= 0 || position > script.len() {
        declared
    } else {
        match script[position - 1] {
            PromptChildNodeView::Settings(settings) => settings_before(
                script,
                declared,
                position - 1,
            ).merge(settings),
            _ => settings_before(script, declared, position - 1),
        }
    }
}

/// The changes of settings among the steps before `position`, in the order
/// of the script.
pub open spec fn changes_before(script: Seq<PromptChildNodeView>, position: int) -> Seq<
    PromptSettingsView,
>
    decreases position,
{
    if position <= 0 || position > script.len() {
        Seq::empty()
    } else {
        match script[position - 1] {
            PromptChildNodeView::Settings(settings) => changes_before(script, position - 1).push(
                settings,
            ),
            _ => changes_before(script, position - 1),
        }
    }
}

/// The settings in effect before a step are the declared ones overridden by
/// every change of settings before that step, in turn, and by no other.
pub proof fn lemma_settings_before(
    script: Seq<PromptChildNodeView>,
    declared: PromptSettingsView,
    position: int,
)
    ensures
        settings_before(script, declared, position) == declared.merge_all(
            changes_before(script, position),
        ),
    decreases position,
{
    if 0 < position <= script.len() {
        lemma_settings_before(script, declared, position - 1);
        match script[position - 1] {
            PromptChildNodeView::Settings(settings) => {
                assert(changes_before(script, position).drop_last() =~= changes_before(
                    script,
                    position - 1,
                ));
            },
            _ => {},
        }
    }
}

/// The messages that a run adds to its log from the step at `position` to
/// its end, where the backend gives `answers` in turn: a message of the
/// script for each step that writes one, an answer with the role of the
/// breakpoint for each breakpoint, and at the end one more answer, which the
/// assistant speaks, unless the log then ends with a message that the backend
/// produced. The log goes no further than the answers do.
pub open spec fn log_from(
    script: Seq<PromptChildNodeView>,
    position: int,
    evaluated: bool,
    answers: Seq<Seq<char>>,
) -> Seq<ConversationMessageView>
    decreases script.len() - position,
{
    if position < 0 || position >= script.len() {
        if evaluated || answers.len() == 0 {
            Seq::empty()
        } else {
            seq![produced(MessageRole::Assistant, answers[0])]
        }
    } else {
        match script[position] {
            PromptChildNodeView::Msg(msg) => seq![authored(msg.role, body_text(msg.children))]
                + log_from(script, position + 1, false, answers),
            PromptChildNodeView::Settings(_) => log_from(script, position + 1, evaluated, answers),
            PromptChildNodeView::Breakpoint(breakpoint) => if answers.len() == 0 {
                Seq::empty()
            } else {
                seq![produced(breakpoint.role, answers[0])] + log_from(
                    script,
                    position + 1,
                    true,
                    answers.drop_first(),
                )
            },
        }
    }
}

/// How many messages of the log the backend produced.
pub open spec fn evaluated_count(log: Seq<ConversationMessageView>) -> nat
    decreases log.len(),
{
    if log.len() == 0 {
        0
    } else if log.last().evaluated {
        evaluated_count(log.drop_last()) + 1
    } else {
        evaluated_count(log.drop_last())
    }
}

impl ConversationRunView {
    /// Whether the run is under way with its place inside the script, and
    /// the settings in effect are what the script has made of the declared
    /// ones up to that place.
    pub open spec fn under_way(self) -> bool {
        &&& self.state == RunState::Accumulating
        &&& 0 <= self.position <= self.script.len()
        &&& self.settings == settings_before(self.script, self.declared, self.position)
    }

    /// The run after each of `answers` was handed to it in turn, each with
    /// the one choice that it is, for as long as the run waits for an answer.
    pub open spec fn driven(self, answers: Seq<Seq<char>>) -> ConversationRunView
        decreases answers.len(),
    {
        if answers.len() == 0 || !self.awaiting() {
            self
        } else {
            self.completed(seq![answers[0]]).driven(answers.drop_first())
        }
    }
}

/// A walk of the script only adds to the log and never goes back in the
/// script. It ends either at a point at which the backend is asked or with
/// the run done, and it is done exactly when no call is left to make. The
/// settings in effect at its end are what the script has made of the
/// declared ones up to there.
pub proof fn lemma_advanced(run: ConversationRunView)
    requires
        run.under_way(),
        run.pending is None,
    ensures
        ({
            let next = run.advanced();
            let left = calls_from(run.script, run.position, ends_evaluated(run.messages));
            &&& next.script == run.script
            &&& next.declared == run.declared
            &&& next.environment == run.environment
            &&& run.position <= next.position <= run.script.len()
            &&& run.messages.len() <= next.messages.len()
            &&& next.messages.take(run.messages.len() as int) == run.messages
            &&& evaluated_count(next.messages) == evaluated_count(run.messages)
            &&& next.settings == settings_before(run.script, run.declared, next.position)
            &&& left == 0 ==> next.state == RunState::Done && next.pending is None
                && ends_evaluated(next.messages) && next.position == run.script.len()
            &&& left > 0 ==> next.awaiting() && next.under_way() && left == 1 + calls_from(
                run.script,
                next.position,
                true,
            )
        }),
    decreases run.script.len() - run.position,
{
    if run.position < run.script.len() {
        match run.script[run.position] {
            PromptChildNodeView::Msg(msg) => {
                let message = authored(msg.role, body_text(msg.children));
                let step = ConversationRunView {
                    messages: run.messages.push(message),
                    position: run.position + 1,
                    ..run
                };
                lemma_advanced(step);
                assert(step.messages.take(run.messages.len() as int) =~= run.messages);
            },
            PromptChildNodeView::Settings(settings) => {
                let step = ConversationRunView {
                    settings: run.settings.merge(settings),
                    position: run.position + 1,
                    ..run
                };
                lemma_advanced(step);
            },
            PromptChildNodeView::Breakpoint(_) => {},
        }
    }
}

/// An answer lands in the log right after the messages that the request
/// showed, with the role that was asked for and marked as produced by the
/// backend; nothing that was in the log changes.
pub proof fn lemma_completed(run: ConversationRunView, answer: Seq<char>)
    requires
        run.under_way(),
        run.awaiting(),
    ensures
        ({
            let next = run.completed(seq![answer]);
            let left = calls_from(run.script, run.position, true);
            &&& run.request() == Some(call_request(run.messages, run.settings))
            &&& next.script == run.script
            &&& next.declared == run.declared
            &&& next.messages.len() > run.messages.len()
            &&& next.messages.take(run.messages.len() as int) == run.messages
            &&& next.messages[run.messages.len() as int] == produced(run.pending->0, answer)
            &&& evaluated_count(next.messages) == evaluated_count(run.messages) + 1
            &&& left == 0 ==> next.state == RunState::Done && ends_evaluated(next.messages)
            &&& left > 0 ==> next.awaiting() && next.under_way() && left == 1 + calls_from(
                run.script,
                next.position,
                true,
            )
        }),
{
    let step = ConversationRunView {
        messages: run.messages.push(produced(run.pending->0, answer)),
        pending: None,
        ..run
    };
    lemma_advanced(step);
    assert(step.messages.take(run.messages.len() as int) =~= run.messages);
}

/// The request of a run that waits for an answer shows the whole log so far,
/// in order, and carries the settings that the script has made of the
/// declared ones up to the place of the call: every change of settings before
/// it counts, and none after it.
pub proof fn lemma_request_reflects_script(run: ConversationRunView)
    requires
        run.under_way(),
        run.awaiting(),
    ensures
        run.request() == Some(
            call_request(
                run.messages,
                settings_before(run.script, run.declared, run.position),
            ),
        ),
        run.request()->0.messages == payloads(run.messages),
{
}

/// A run that is done or was given up does not change any more.
pub proof fn lemma_final_is_final(run: ConversationRunView, choices: Seq<Seq<char>>)
    requires
        run.state == RunState::Done || run.state == RunState::Aborted,
    ensures
        run.begun() == run,
        run.completed(choices) == run,
        run.failed() == run,
        run.request() is None,
{
}

/// A run that waits for an answer is done after exactly as many answers as
/// it has calls left, and not before; each answer adds one message that the
/// backend produced.
pub proof fn lemma_driven(run: ConversationRunView, answers: Seq<Seq<char>>)
    requires
        run.under_way(),
        run.awaiting(),
        answers.len() <= 1 + calls_from(run.script, run.position, true),
    ensures
        ({
            let end = run.driven(answers);
            &&& evaluated_count(end.messages) == evaluated_count(run.messages) + answers.len()
            &&& end.messages.len() >= run.messages.len()
            &&& end.messages.take(run.messages.len() as int) == run.messages
            &&& answers.len() == 1 + calls_from(run.script, run.position, true) ==> end.state
                == RunState::Done && ends_evaluated(end.messages)
            &&& answers.len() < 1 + calls_from(run.script, run.position, true) ==> end.awaiting()
                && end.under_way()
        }),
    decreases answers.len(),
{
    if answers.len() > 0 {
        lemma_completed(run, answers[0]);
        let next = run.completed(seq![answers[0]]);
        if calls_from(run.script, run.position, true) > 0 {
            lemma_driven(next, answers.drop_first());
        }
    }
}

/// A run of a prompt, from its beginning to its end, makes as many calls of
/// the backend as the script has evaluation points. It is done after that
/// many answers and waits for an answer after any smaller number, and its
/// log then holds one message that the backend produced for each call.
pub proof fn lemma_run_makes_every_call(
    prompt: PromptNodeView,
    environment: Seq<char>,
    answers: Seq<Seq<char>>,
)
    requires
        answers.len() <= calls_of(prompt.children),
    ensures
        calls_of(prompt.children) >= 1,
        ({
            let end = ConversationRunView::idle(prompt, environment).begun().driven(answers);
            &&& evaluated_count(end.messages) == answers.len()
            &&& answers.len() == calls_of(prompt.children) ==> end.state == RunState::Done
                && ends_evaluated(end.messages)
            &&& answers.len() < calls_of(prompt.children) ==> end.awaiting() && end.under_way()
        }),
{
    let idle = ConversationRunView::idle(prompt, environment);
    let start = ConversationRunView {
        messages: Seq::empty(),
        settings: idle.declared,
        position: 0,
        pending: None,
        state: RunState::Accumulating,
        ..idle
    };
    lemma_advanced(start);
    lemma_driven(start.advanced(), answers);
}

/// A script without a breakpoint makes exactly one call of the backend, at
/// its end: the run first waits with the messages of the script in its log,
/// none of them produced by the backend, and the one answer becomes the last
/// message of the log, spoken by the assistant and marked as produced by the
/// backend.
pub proof fn lemma_only_messages_one_call(
    prompt: PromptNodeView,
    environment: Seq<char>,
    answer: Seq<char>,
)
    requires
        breakpoints_from(prompt.children, 0) == 0,
    ensures
        calls_of(prompt.children) == 1,
        ({
            let begun = ConversationRunView::idle(prompt, environment).begun();
            let end = begun.completed(seq![answer]);
            &&& begun.awaiting()
            &&& begun.pending == Some(MessageRole::Assistant)
            &&& begun.messages == authored_from(prompt.children, 0)
            &&& evaluated_count(begun.messages) == 0
            &&& end.state == RunState::Done
            &&& end.messages == begun.messages.push(produced(MessageRole::Assistant, answer))
            &&& evaluated_count(end.messages) == 1
        }),
{
    let idle = ConversationRunView::idle(prompt, environment);
    let start = ConversationRunView {
        messages: Seq::empty(),
        settings: idle.declared,
        position: 0,
        pending: None,
        state: RunState::Accumulating,
        ..idle
    };
    lemma_walk_without_breakpoints(start);
    lemma_advanced(start);
    let begun = start.advanced();
    let step = ConversationRunView {
        messages: begun.messages.push(produced(MessageRole::Assistant, answer)),
        pending: None,
        ..begun
    };
    assert(step.messages.drop_last() =~= begun.messages);
}

/// Where no breakpoint is left, the walk goes to the end of the script and
/// writes the messages of the steps into the log; it then stops for the one
/// call at the end, unless no message was written and the log ends with a
/// message that the backend produced.
pub proof fn lemma_walk_without_breakpoints(run: ConversationRunView)
    requires
        run.under_way(),
        run.pending is None,
        breakpoints_from(run.script, run.position) == 0,
    ensures
        ({
            let next = run.advanced();
            let written = authored_from(run.script, run.position);
            &&& next.messages == run.messages + written
            &&& next.position == run.script.len()
            &&& written.len() > 0 || !ends_evaluated(run.messages) ==> next.awaiting()
                && next.pending == Some(MessageRole::Assistant)
            &&& !ends_evaluated(run.messages) ==> calls_from(run.script, run.position, false) == 1
            &&& calls_from(run.script, run.position, ends_evaluated(run.messages)) <= 1
        }),
    decreases run.script.len() - run.position,
{
    if run.position < run.script.len() {
        match run.script[run.position] {
            PromptChildNodeView::Msg(msg) => {
                let message = authored(msg.role, body_text(msg.children));
                let step = ConversationRunView {
                    messages: run.messages.push(message),
                    position: run.position + 1,
                    ..run
                };
                lemma_walk_without_breakpoints(step);
            },
            PromptChildNodeView::Settings(settings) => {
                let step = ConversationRunView {
                    settings: run.settings.merge(settings),
                    position: run.position + 1,
                    ..run
                };
                lemma_walk_without_breakpoints(step);
            },
            PromptChildNodeView::Breakpoint(_) => {},
        }
    }
}

/// From a place in a script that ends with a breakpoint, a run makes one
/// call for each breakpoint that is still to come and none besides.
pub proof fn lemma_calls_before_last_breakpoint(
    script: Seq<PromptChildNodeView>,
    position: int,
    evaluated: bool,
)
    requires
        script.len() > 0,
        script.last() is Breakpoint,
        0 <= position < script.len(),
    ensures
        calls_from(script, position, evaluated) == breakpoints_from(script, position),
    decreases script.len() - position,
{
    if position < script.len() - 1 {
        lemma_calls_before_last_breakpoint(script, position + 1, false);
        lemma_calls_before_last_breakpoint(script, position + 1, true);
    } else {
        assert(calls_from(script, position + 1, true) == 0);
        assert(breakpoints_from(script, position + 1) == 0);
    }
}

/// A script that ends with a breakpoint makes no call at its end besides
/// those of its breakpoints: it makes as many calls as it has breakpoints.
pub proof fn lemma_trailing_breakpoint_no_extra_call(script: Seq<PromptChildNodeView>)
    requires
        script.len() > 0,
        script.last() is Breakpoint,
    ensures
        calls_of(script) == breakpoints_from(script, 0),
{
    lemma_calls_before_last_breakpoint(script, 0, false);
}

/// A run never makes fewer calls than the script has breakpoints, and at
/// most one more.
pub proof fn lemma_calls_and_breakpoints(
    script: Seq<PromptChildNodeView>,
    position: int,
    evaluated: bool,
)
    requires
        0 <= position <= script.len(),
    ensures
        breakpoints_from(script, position) <= calls_from(script, position, evaluated)
            <= breakpoints_from(script, position) + 1,
    decreases script.len() - position,
{
    if position < script.len() {
        lemma_calls_and_breakpoints(script, position + 1, false);
        lemma_calls_and_breakpoints(script, position + 1, true);
        lemma_calls_and_breakpoints(script, position + 1, evaluated);
    }
}

/// The log of a run that is driven to its end holds what it held before,
/// then exactly the messages that the rest of the script and the answers
/// make, in their order.
pub proof fn lemma_log_of_walk(run: ConversationRunView, answers: Seq<Seq<char>>)
    requires
        run.under_way(),
        run.pending is None,
        answers.len() == calls_from(run.script, run.position, ends_evaluated(run.messages)),
    ensures
        run.advanced().driven(answers).state == RunState::Done,
        run.advanced().driven(answers).messages == run.messages + log_from(
            run.script,
            run.position,
            ends_evaluated(run.messages),
            answers,
        ),
    decreases answers.len(), run.script.len() - run.position, 1int,
{
    if run.position < run.script.len() {
        match run.script[run.position] {
            PromptChildNodeView::Msg(msg) => {
                let step = ConversationRunView {
                    messages: run.messages.push(authored(msg.role, body_text(msg.children))),
                    position: run.position + 1,
                    ..run
                };
                lemma_log_of_walk(step, answers);
                assert(step.messages + log_from(run.script, run.position + 1, false, answers)
                    =~= run.messages + log_from(
                    run.script,
                    run.position,
                    ends_evaluated(run.messages),
                    answers,
                ));
            },
            PromptChildNodeView::Settings(settings) => {
                let step = ConversationRunView {
                    settings: run.settings.merge(settings),
                    position: run.position + 1,
                    ..run
                };
                lemma_log_of_walk(step, answers);
            },
            PromptChildNodeView::Breakpoint(breakpoint) => {
                lemma_log_of_answer(run.advanced(), answers);
                assert(run.messages.push(produced(breakpoint.role, answers[0])) + log_from(
                    run.script,
                    run.position + 1,
                    true,
                    answers.drop_first(),
                ) =~= run.messages + log_from(
                    run.script,
                    run.position,
                    ends_evaluated(run.messages),
                    answers,
                ));
            },
        }
    } else if ends_evaluated(run.messages) {
        assert(run.messages + Seq::<ConversationMessageView>::empty() =~= run.messages);
    } else {
        lemma_log_of_answer(run.advanced(), answers);
        assert(answers.drop_first().len() == 0);
        assert(run.messages.push(produced(MessageRole::Assistant, answers[0])) + log_from(
            run.script,
            run.position,
            true,
            answers.drop_first(),
        ) =~= run.messages + log_from(run.script, run.position, false, answers));
    }
}

/// The log of a run that waits for an answer and is driven to its end holds
/// what it held before, then the answer that it waits for, then exactly the
/// messages that the rest of the script and the other answers make.
pub proof fn lemma_log_of_answer(run: ConversationRunView, answers: Seq<Seq<char>>)
    requires
        run.under_way(),
        run.awaiting(),
        answers.len() == 1 + calls_from(run.script, run.position, true),
    ensures
        run.driven(answers).state == RunState::Done,
        run.driven(answers).messages == run.messages.push(produced(run.pending->0, answers[0]))
            + log_from(run.script, run.position, true, answers.drop_first()),
    decreases answers.len(), run.script.len() - run.position, 0int,
{
    let step = ConversationRunView {
        messages: run.messages.push(produced(run.pending->0, answers[0])),
        pending: None,
        ..run
    };
    assert(run.completed(seq![answers[0]]) == step.advanced());
    if run.position < run.script.len() {
        lemma_log_of_walk(step, answers.drop_first());
    } else {
        assert(answers.drop_first().len() == 0);
        assert(step.advanced().driven(answers.drop_first()) == step.advanced());
        assert(step.messages + log_from(run.script, run.position, true, answers.drop_first())
            =~= step.messages);
    }
}

/// The finished log of a prompt is a function of its script and of the
/// answers of the backend alone: the messages of the script in their places,
/// each answer in the place of its breakpoint with the role of that
/// breakpoint, and the answer to the call at the end, where there is one,
/// spoken by the assistant.
pub proof fn lemma_log_of_run(
    prompt: PromptNodeView,
    environment: Seq<char>,
    answers: Seq<Seq<char>>,
)
    requires
        answers.len() == calls_of(prompt.children),
    ensures
        ({
            let end = ConversationRunView::idle(prompt, environment).begun().driven(answers);
            &&& end.state == RunState::Done
            &&& end.messages == log_from(prompt.children, 0, false, answers)
        }),
{
    let idle = ConversationRunView::idle(prompt, environment);
    let start = ConversationRunView {
        messages: Seq::empty(),
        settings: idle.declared,
        position: 0,
        pending: None,
        state: RunState::Accumulating,
        ..idle
    };
    lemma_log_of_walk(start, answers);
    assert(start.messages + log_from(prompt.children, 0, false, answers) =~= log_from(
        prompt.children,
        0,
        false,
        answers,
    ));
}

} // verus!
