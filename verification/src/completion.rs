//! What is exchanged with the completion backend: the messages of a
//! conversation, the request for the next message, and the answer.

use vstd::prelude::*;

use crate::common::message::MessageRole;
use crate::common::prompt::ResponseFormatType;
use crate::common::Integer;
use crate::common::Number;
use crate::text::strings_view;

verus! {

// ————————————————————————————————————————————————————————————————————————————
// MESSAGE
// ————————————————————————————————————————————————————————————————————————————
/// One message of a conversation: who speaks, and what is said.
#[derive(Debug)]
pub struct Message {
    pub role: MessageRole,
    pub content: String,
}

/// What a [`Message`] holds.
pub ghost struct MessageView {
    pub role: MessageRole,
    pub content: Seq<char>,
}

impl View for Message {
    type V = MessageView;

    open spec fn view(&self) -> MessageView {
        MessageView { role: self.role, content: self.content@ }
    }
}

impl Clone for Message {
    fn clone(&self) -> (r: Self)
        ensures
            r@ == self@,
    {
        Message { role: self.role, content: self.content.clone() }
    }
}

/// What the messages `messages` hold, one by one.
pub open spec fn messages_view(messages: Seq<Message>) -> Seq<MessageView> {
    Seq::new(messages.len(), |i: int| messages[i]@)
}

impl Message {
    /// A message of the given role.
    pub fn new(role: MessageRole, content: String) -> (r: Self)
        ensures
            r@ == (MessageView { role, content: content@ }),
    {
        Message { role, content }
    }

    /// A message of the system.
    pub fn system(content: String) -> (r: Self)
        ensures
            r@ == (MessageView { role: MessageRole::System, content: content@ }),
    {
        Message { role: MessageRole::System, content }
    }

    /// A message of the assistant.
    pub fn assistant(content: String) -> (r: Self)
        ensures
            r@ == (MessageView { role: MessageRole::Assistant, content: content@ }),
    {
        Message { role: MessageRole::Assistant, content }
    }

    /// A message of the user.
    pub fn user(content: String) -> (r: Self)
        ensures
            r@ == (MessageView { role: MessageRole::User, content: content@ }),
    {
        Message { role: MessageRole::User, content }
    }
}

// ————————————————————————————————————————————————————————————————————————————
// REQUEST
// ————————————————————————————————————————————————————————————————————————————
/// A request for the next message of a conversation: the messages so far, in
/// order, and the generation parameters that are set.
#[derive(Debug)]
pub struct RequestBuilder {
    pub messages: Vec<Message>,
    pub model: Option<String>,
    pub temperature: Option<Number>,
    pub n: Option<Integer>,
    pub max_tokens: Option<Integer>,
    pub top_p: Option<Number>,
    pub frequency_penalty: Option<Number>,
    pub presence_penalty: Option<Number>,
    pub logprobs: Option<bool>,
    pub top_logprobs: Option<Integer>,
    pub response_format: Option<ResponseFormatType>,
    pub stream: Option<bool>,
}

/// What a [`RequestBuilder`] holds.
pub ghost struct RequestBuilderView {
    pub messages: Seq<MessageView>,
    pub model: Option<Seq<char>>,
    pub temperature: Option<Seq<char>>,
    pub n: Option<int>,
    pub max_tokens: Option<int>,
    pub top_p: Option<Seq<char>>,
    pub frequency_penalty: Option<Seq<char>>,
    pub presence_penalty: Option<Seq<char>>,
    pub logprobs: Option<bool>,
    pub top_logprobs: Option<int>,
    pub response_format: Option<ResponseFormatType>,
    pub stream: Option<bool>,
}

impl View for RequestBuilder {
    type V = RequestBuilderView;

    open spec fn view(&self) -> RequestBuilderView {
        RequestBuilderView {
            messages: messages_view(self.messages@),
            model: match self.model {
                Some(v) => Some(v@),
                None => None,
            },
            temperature: match self.temperature {
                Some(v) => Some(v@),
                None => None,
            },
            n: match self.n {
                Some(v) => Some(v as int),
                None => None,
            },
            max_tokens: match self.max_tokens {
                Some(v) => Some(v as int),
                None => None,
            },
            top_p: match self.top_p {
                Some(v) => Some(v@),
                None => None,
            },
            frequency_penalty: match self.frequency_penalty {
                Some(v) => Some(v@),
                None => None,
            },
            presence_penalty: match self.presence_penalty {
                Some(v) => Some(v@),
                None => None,
            },
            logprobs: match self.logprobs {
                Some(v) => Some(v),
                None => None,
            },
            top_logprobs: match self.top_logprobs {
                Some(v) => Some(v as int),
                None => None,
            },
            response_format: match self.response_format {
                Some(v) => Some(v),
                None => None,
            },
            stream: match self.stream {
                Some(v) => Some(v),
                None => None,
            },
        }
    }
}

impl Clone for RequestBuilder {
    fn clone(&self) -> (r: Self)
        ensures
            r@ == self@,
    {
        let mut out: Vec<Message> = Vec::new();
        let mut i: usize = 0;
        while i < self.messages.len()
            invariant
                i <= self.messages.len(),
                out.len() == i,
                forall|j: int| 0 <= j < i ==> (#[trigger] out@[j])@ == self.messages@[j]@,
            decreases self.messages.len() - i,
        {
            out.push(self.messages[i].clone());
            i = i + 1;
        }
        assert(messages_view(out@) =~= messages_view(self.messages@));
        RequestBuilder {
            messages: out,
            model: match &self.model {
                Some(v) => Some(v.clone()),
                None => None,
            },
            temperature: match &self.temperature {
                Some(v) => Some(v.clone()),
                None => None,
            },
            n: self.n,
            max_tokens: self.max_tokens,
            top_p: match &self.top_p {
                Some(v) => Some(v.clone()),
                None => None,
            },
            frequency_penalty: match &self.frequency_penalty {
                Some(v) => Some(v.clone()),
                None => None,
            },
            presence_penalty: match &self.presence_penalty {
                Some(v) => Some(v.clone()),
                None => None,
            },
            logprobs: self.logprobs,
            top_logprobs: self.top_logprobs,
            response_format: self.response_format,
            stream: self.stream,
        }
    }
}

impl RequestBuilderView {
    /// The request without messages and with no parameter set.
    pub open spec fn empty() -> RequestBuilderView {
        RequestBuilderView {
            messages: Seq::empty(),
            model: None,
            temperature: None,
            n: None,
            max_tokens: None,
            top_p: None,
            frequency_penalty: None,
            presence_penalty: None,
            logprobs: None,
            top_logprobs: None,
            response_format: None,
            stream: None,
        }
    }
}

impl Default for RequestBuilder {
    fn default() -> (r: Self)
        ensures
            r@ == RequestBuilderView::empty(),
    {
        let r = RequestBuilder {
            messages: Vec::new(),
            model: None,
            temperature: None,
            n: None,
            max_tokens: None,
            top_p: None,
            frequency_penalty: None,
            presence_penalty: None,
            logprobs: None,
            top_logprobs: None,
            response_format: None,
            stream: None,
        };
        assert(r@.messages =~= Seq::<MessageView>::empty());
        r
    }
}

impl RequestBuilder {
    /// The request with the given messages.
    pub fn with_messages(self, messages: Vec<Message>) -> (r: Self)
        ensures
            r@ == (RequestBuilderView { messages: messages_view(messages@), ..self@ }),
    {
        RequestBuilder { messages, ..self }
    }

    /// The request with the parameter `model` set.
    pub fn with_model(self, model: String) -> (r: Self)
        ensures
            r@ == (RequestBuilderView { model: Some(model@), ..self@ }),
    {
        RequestBuilder { model: Some(model), ..self }
    }

    /// The request with the parameter `temperature` set.
    pub fn with_temperature(self, temperature: Number) -> (r: Self)
        ensures
            r@ == (RequestBuilderView { temperature: Some(temperature@), ..self@ }),
    {
        RequestBuilder { temperature: Some(temperature), ..self }
    }

    /// The request with the parameter `n` set.
    pub fn with_n(self, n: Integer) -> (r: Self)
        ensures
            r@ == (RequestBuilderView { n: Some(n as int), ..self@ }),
    {
        RequestBuilder { n: Some(n), ..self }
    }

    /// The request with the parameter `max_tokens` set.
    pub fn with_max_tokens(self, max_tokens: Integer) -> (r: Self)
        ensures
            r@ == (RequestBuilderView { max_tokens: Some(max_tokens as int), ..self@ }),
    {
        RequestBuilder { max_tokens: Some(max_tokens), ..self }
    }

    /// The request with the parameter `top_p` set.
    pub fn with_top_p(self, top_p: Number) -> (r: Self)
        ensures
            r@ == (RequestBuilderView { top_p: Some(top_p@), ..self@ }),
    {
        RequestBuilder { top_p: Some(top_p), ..self }
    }

    /// The request with the parameter `frequency_penalty` set.
    pub fn with_frequency_penalty(self, frequency_penalty: Number) -> (r: Self)
        ensures
            r@ == (RequestBuilderView { frequency_penalty: Some(frequency_penalty@), ..self@ }),
    {
        RequestBuilder { frequency_penalty: Some(frequency_penalty), ..self }
    }

    /// The request with the parameter `presence_penalty` set.
    pub fn with_presence_penalty(self, presence_penalty: Number) -> (r: Self)
        ensures
            r@ == (RequestBuilderView { presence_penalty: Some(presence_penalty@), ..self@ }),
    {
        RequestBuilder { presence_penalty: Some(presence_penalty), ..self }
    }

    /// The request with the parameter `logprobs` set.
    pub fn with_logprobs(self, logprobs: bool) -> (r: Self)
        ensures
            r@ == (RequestBuilderView { logprobs: Some(logprobs), ..self@ }),
    {
        RequestBuilder { logprobs: Some(logprobs), ..self }
    }

    /// The request with the parameter `top_logprobs` set.
    pub fn with_top_logprobs(self, top_logprobs: Integer) -> (r: Self)
        ensures
            r@ == (RequestBuilderView { top_logprobs: Some(top_logprobs as int), ..self@ }),
    {
        RequestBuilder { top_logprobs: Some(top_logprobs), ..self }
    }

    /// The request with the parameter `response_format` set.
    pub fn with_response_format(self, response_format: ResponseFormatType) -> (r: Self)
        ensures
            r@ == (RequestBuilderView { response_format: Some(response_format), ..self@ }),
    {
        RequestBuilder { response_format: Some(response_format), ..self }
    }

    /// The request with the parameter `stream` set.
    pub fn with_stream(self, stream: bool) -> (r: Self)
        ensures
            r@ == (RequestBuilderView { stream: Some(stream), ..self@ }),
    {
        RequestBuilder { stream: Some(stream), ..self }
    }
}

// ————————————————————————————————————————————————————————————————————————————
// ANSWER
// ————————————————————————————————————————————————————————————————————————————
/// The answer of the backend to one request: the text of each choice that it
/// offers, in its order.
#[derive(Debug)]
pub struct CompletionOutput {
    pub choices: Vec<String>,
}

impl View for CompletionOutput {
    type V = Seq<Seq<char>>;

    open spec fn view(&self) -> Seq<Seq<char>> {
        strings_view(self.choices@)
    }
}

impl Clone for CompletionOutput {
    fn clone(&self) -> (r: Self)
        ensures
            r@ == self@,
    {
        let mut out: Vec<String> = Vec::new();
        let mut i: usize = 0;
        while i < self.choices.len()
            invariant
                i <= self.choices.len(),
                out.len() == i,
                forall|j: int| 0 <= j < i ==> (#[trigger] out@[j])@ == self.choices@[j]@,
            decreases self.choices.len() - i,
        {
            out.push(self.choices[i].clone());
            i = i + 1;
        }
        CompletionOutput { choices: out }
    }
}

impl CompletionOutput {
    /// The answer with the given choices.
    pub fn new(choices: Vec<String>) -> (r: Self)
        ensures
            r@ == strings_view(choices@),
    {
        CompletionOutput { choices }
    }

    /// The text of the choice at `index`, if there is one.
    pub fn content(&self, index: usize) -> (r: Option<String>)
        ensures
            match r {
                Some(text) => index < self@.len() && text@ == self@[index as int],
                None => index >= self@.len(),
            },
    {
        if index < self.choices.len() {
            Some(self.choices[index].clone())
        } else {
            None
        }
    }
}

} // verus!
