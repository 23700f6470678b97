use vstd::prelude::*;

use crate::common::message::MessageRole;
use crate::markup::tag_matches;
use crate::markup::TagBuf;

verus! {

/// A point of the script at which the backend is asked for the next message
/// of the conversation, which then speaks with the given role.
#[derive(Debug, Clone, Copy, PartialEq, Eq, Structural)]
pub struct BreakpointNode {
    pub role: MessageRole,
}

impl BreakpointNode {
    /// The name of the tag of a breakpoint.
    pub open spec fn tag_name() -> Seq<char> {
        "breakpoint"@
    }

    /// The tag that elements of this kind have.
    pub fn tag_type() -> (r: TagBuf)
        ensures
            r@ == Self::tag_name(),
    {
        TagBuf::new("breakpoint")
    }

    /// Whether `tag` is the tag that elements of this kind have.
    pub fn matches(tag: &TagBuf) -> (r: bool)
        ensures
            r == tag_matches(Self::tag_name(), tag@),
    {
        Self::tag_type().matches(tag)
    }
}

} // verus!
