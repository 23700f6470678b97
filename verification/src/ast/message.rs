use vstd::prelude::*;

use crate::common::message::MessageRole;
use crate::markup::tag_matches;
use crate::markup::Fragment;
use crate::markup::NodeView;
use crate::markup::TagBuf;

verus! {

/// A message that the script itself contributes to the conversation. Its
/// body is kept as markup and turned into text when the script runs.
#[derive(Debug)]
pub struct MsgNode {
    pub role: MessageRole,
    pub breakpoint_mode: bool,
    pub children: Fragment,
}

/// What a [`MsgNode`] holds.
pub ghost struct MsgNodeView {
    pub role: MessageRole,
    pub breakpoint_mode: bool,
    pub children: Seq<NodeView>,
}

impl View for MsgNode {
    type V = MsgNodeView;

    open spec fn view(&self) -> MsgNodeView {
        MsgNodeView {
            role: self.role,
            breakpoint_mode: self.breakpoint_mode,
            children: self.children@,
        }
    }
}

impl Clone for MsgNode {
    fn clone(&self) -> (r: Self)
        ensures
            r@ == self@,
    {
        MsgNode {
            role: self.role,
            breakpoint_mode: self.breakpoint_mode,
            children: self.children.clone(),
        }
    }
}

impl MsgNode {
    /// The name of the tag of a message.
    pub open spec fn tag_name() -> Seq<char> {
        "msg"@
    }

    /// The tag that elements of this kind have.
    pub fn tag_type() -> (r: TagBuf)
        ensures
            r@ == Self::tag_name(),
    {
        TagBuf::new("msg")
    }

    /// Whether `tag` is the tag that elements of this kind have.
    pub fn matches(tag: &TagBuf) -> (r: bool)
        ensures
            r == tag_matches(Self::tag_name(), tag@),
    {
        Self::tag_type().matches(tag)
    }
}

} // verus!
