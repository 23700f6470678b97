use vstd::prelude::*;

use crate::text::ascii_lowercase;
use crate::text::debug_string;
use crate::text::debug_text;
use crate::text::eq_ignoring_case;
use crate::text::str_eq_ignore_ascii_case;
use crate::text::trim;
use crate::text::trimmed;
use std::str::FromStr;

verus! {

// ————————————————————————————————————————————————————————————————————————————
// MESSAGE
// ————————————————————————————————————————————————————————————————————————————
/// Who speaks in a message.
#[derive(Debug, Clone, Copy, PartialEq, Eq, Structural)]
pub enum MessageRole {
    System,
    Assistant,
    User,
}

impl MessageRole {
    /// Whether this is the role of the system.
    pub fn is_system(&self) -> (r: bool)
        ensures
            r == (*self == MessageRole::System),
    {
        match self {
            Self::System => true,
            _ => false,
        }
    }

    /// Whether this is the role of the assistant.
    pub fn is_assistant(&self) -> (r: bool)
        ensures
            r == (*self == MessageRole::Assistant),
    {
        match self {
            Self::Assistant => true,
            _ => false,
        }
    }

    /// Whether this is the role of the user.
    pub fn is_user(&self) -> (r: bool)
        ensures
            r == (*self == MessageRole::User),
    {
        match self {
            Self::User => true,
            _ => false,
        }
    }

    /// The name of the role, in lower case.
    pub open spec fn name(self) -> Seq<char> {
        match self {
            MessageRole::System => "system"@,
            MessageRole::Assistant => "assistant"@,
            MessageRole::User => "user"@,
        }
    }

    /// The role that `s` names: its name with whitespace around it left out
    /// and in any case of letters. Any other text names no role.
    pub open spec fn parse(s: Seq<char>) -> Option<MessageRole> {
        let token = trimmed(s);
        if eq_ignoring_case(token, MessageRole::System.name()) {
            Some(MessageRole::System)
        } else if eq_ignoring_case(token, MessageRole::Assistant.name()) {
            Some(MessageRole::Assistant)
        } else if eq_ignoring_case(token, MessageRole::User.name()) {
            Some(MessageRole::User)
        } else {
            None
        }
    }

    /// The name of the role, in lower case.
    pub fn as_str(&self) -> (r: &'static str)
        ensures
            r@ == self.name(),
    {
        match self {
            MessageRole::System => "system",
            MessageRole::Assistant => "assistant",
            MessageRole::User => "user",
        }
    }

    /// Reads a role. A text that names none is an error that carries the
    /// text as it was given.
    pub fn from_str(s: &str) -> (r: Result<MessageRole, ParseRoleError>)
        ensures
            match r {
                Ok(role) => MessageRole::parse(s@) == Some(role),
                Err(error) => MessageRole::parse(s@) is None && error@ == s@,
            },
    {
        let normalized = trim(s);
        if str_eq_ignore_ascii_case(normalized, "system") {
            Ok(MessageRole::System)
        } else if str_eq_ignore_ascii_case(normalized, "assistant") {
            Ok(MessageRole::Assistant)
        } else if str_eq_ignore_ascii_case(normalized, "user") {
            Ok(MessageRole::User)
        } else {
            Err(ParseRoleError { given: s.to_owned() })
        }
    }
}

impl FromStr for MessageRole {
    type Err = ParseRoleError;

    fn from_str(s: &str) -> (r: Result<Self, Self::Err>)
        ensures
            match r {
                Ok(role) => MessageRole::parse(s@) == Some(role),
                Err(error) => MessageRole::parse(s@) is None && error@ == s@,
            },
    {
        MessageRole::from_str(s)
    }
}

/// A text that names no role.
#[derive(Debug)]
pub struct ParseRoleError {
    pub given: String,
}

impl View for ParseRoleError {
    type V = Seq<char>;

    open spec fn view(&self) -> Seq<char> {
        self.given@
    }
}

impl Clone for ParseRoleError {
    fn clone(&self) -> (r: Self)
        ensures
            r@ == self@,
    {
        ParseRoleError { given: self.given.clone() }
    }
}

impl ParseRoleError {
    /// What the error says of the text `given`.
    pub open spec fn message(given: Seq<char>) -> Seq<char> {
        "unrecognized role "@ + debug_text(given)
    }

    /// What the error says of a text, given the text as it is written in
    /// quotes.
    pub fn message_of_quoted(quoted: &str) -> (r: String)
        ensures
            r@ == "unrecognized role "@ + quoted@,
    {
        let mut out = "unrecognized role ".to_owned();
        out.append(quoted);
        out
    }

    /// What the error says, as a text.
    pub fn to_string(&self) -> (r: String)
        ensures
            r@ == Self::message(self@),
    {
        let quoted = debug_string(self.given.as_str());
        Self::message_of_quoted(quoted.as_str())
    }
}

/// A text names a role exactly when, with the whitespace around it left out
/// and its letters in lower case, it is the name of that role; the three
/// names are different, so a text names at most one role.
pub proof fn lemma_role_tokens(s: Seq<char>, role: MessageRole)
    ensures
        MessageRole::parse(s) == Some(role) <==> ascii_lowercase(trimmed(s)) == role.name(),
        MessageRole::parse(s) is None <==> {
            &&& ascii_lowercase(trimmed(s)) != MessageRole::System.name()
            &&& ascii_lowercase(trimmed(s)) != MessageRole::Assistant.name()
            &&& ascii_lowercase(trimmed(s)) != MessageRole::User.name()
        },
{
    reveal_strlit("system");
    reveal_strlit("assistant");
    reveal_strlit("user");
    assert(ascii_lowercase("system"@) =~= "system"@);
    assert(ascii_lowercase("assistant"@) =~= "assistant"@);
    assert(ascii_lowercase("user"@) =~= "user"@);
}

} // verus!
