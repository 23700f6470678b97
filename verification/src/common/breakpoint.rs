use vstd::prelude::*;

use crate::text::str_eq;
use crate::text::trim;
use crate::text::trimmed;
use std::str::FromStr;

verus! {

/// What a breakpoint inserts into the conversation.
#[derive(Debug, Clone, Copy, PartialEq, Eq, Structural)]
pub enum BreakpointType {
    Msg,
}

impl BreakpointType {
    /// The breakpoint type that `s` names: `msg`, with whitespace around it
    /// left out.
    pub open spec fn parse(s: Seq<char>) -> Option<BreakpointType> {
        if trimmed(s) == "msg"@ {
            Some(BreakpointType::Msg)
        } else {
            None
        }
    }

    /// Reads a breakpoint type.
    pub fn from_str(s: &str) -> (r: Result<BreakpointType, ParseBreakpointTypeError>)
        ensures
            match r {
                Ok(kind) => BreakpointType::parse(s@) == Some(kind),
                Err(_) => BreakpointType::parse(s@) is None,
            },
    {
        let normalized = trim(s);
        if str_eq(normalized, "msg") {
            Ok(BreakpointType::Msg)
        } else {
            Err(ParseBreakpointTypeError)
        }
    }
}

impl FromStr for BreakpointType {
    type Err = ParseBreakpointTypeError;

    fn from_str(s: &str) -> (r: Result<Self, Self::Err>)
        ensures
            match r {
                Ok(kind) => BreakpointType::parse(s@) == Some(kind),
                Err(_) => BreakpointType::parse(s@) is None,
            },
    {
        BreakpointType::from_str(s)
    }
}

/// A text that names no breakpoint type.
#[derive(Debug, Clone, Copy, PartialEq, Eq, Structural)]
pub struct ParseBreakpointTypeError;

impl ParseBreakpointTypeError {
    /// What the error says.
    pub open spec fn message() -> Seq<char> {
        "unrecognized breakpoint type"@
    }

    /// What the error says, as a text.
    pub fn to_string(&self) -> (r: String)
        ensures
            r@ == Self::message(),
    {
        "unrecognized breakpoint type".to_owned()
    }
}

} // verus!
