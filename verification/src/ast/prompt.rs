use vstd::prelude::*;

use crate::ast::breakpoint::BreakpointNode;
use crate::ast::message::MsgNode;
use crate::ast::message::MsgNodeView;
use crate::ast::set::SetNode;
use crate::common::prompt::PromptArguments;
use crate::common::prompt::PromptArgumentsView;
use crate::common::prompt::PromptSettingsView;
use crate::markup::tag_matches;
use crate::markup::TagBuf;

verus! {

// ————————————————————————————————————————————————————————————————————————————
// PROMPT CHILD NODE
// ————————————————————————————————————————————————————————————————————————————
/// One step of a script.
#[derive(Debug)]
pub enum PromptChildNode {
    Msg(MsgNode),
    Breakpoint(BreakpointNode),
    Settings(SetNode),
}

/// What a [`PromptChildNode`] holds.
pub ghost enum PromptChildNodeView {
    Msg(MsgNodeView),
    Breakpoint(BreakpointNode),
    Settings(PromptSettingsView),
}

impl View for PromptChildNode {
    type V = PromptChildNodeView;

    open spec fn view(&self) -> PromptChildNodeView {
        match self {
            PromptChildNode::Msg(node) => PromptChildNodeView::Msg(node@),
            PromptChildNode::Breakpoint(node) => PromptChildNodeView::Breakpoint(*node),
            PromptChildNode::Settings(node) => PromptChildNodeView::Settings(node@),
        }
    }
}

impl Clone for PromptChildNode {
    fn clone(&self) -> (r: Self)
        ensures
            r@ == self@,
    {
        match self {
            PromptChildNode::Msg(node) => PromptChildNode::Msg(node.clone()),
            PromptChildNode::Breakpoint(node) => PromptChildNode::Breakpoint(*node),
            PromptChildNode::Settings(node) => PromptChildNode::Settings(node.clone()),
        }
    }
}

/// What the steps `children` hold, one by one.
pub open spec fn children_view(children: Seq<PromptChildNode>) -> Seq<PromptChildNodeView> {
    Seq::new(children.len(), |i: int| children[i]@)
}

// ————————————————————————————————————————————————————————————————————————————
// PROMPT ELEMENT
// ————————————————————————————————————————————————————————————————————————————
/// A named script: its declared settings and its steps in order.
#[derive(Debug)]
pub struct PromptNode {
    pub settings: PromptArguments,
    pub children: Vec<PromptChildNode>,
}

/// What a [`PromptNode`] holds.
pub ghost struct PromptNodeView {
    pub settings: PromptArgumentsView,
    pub children: Seq<PromptChildNodeView>,
}

impl View for PromptNode {
    type V = PromptNodeView;

    open spec fn view(&self) -> PromptNodeView {
        PromptNodeView { settings: self.settings@, children: children_view(self.children@) }
    }
}

impl Clone for PromptNode {
    fn clone(&self) -> (r: Self)
        ensures
            r@ == self@,
    {
        let mut out: Vec<PromptChildNode> = Vec::new();
        let mut i: usize = 0;
        while i < self.children.len()
            invariant
                i <= self.children.len(),
                out.len() == i,
                forall|j: int| 0 <= j < i ==> (#[trigger] out@[j])@ == self.children@[j]@,
            decreases self.children.len() - i,
        {
            out.push(self.children[i].clone());
            i = i + 1;
        }
        assert(children_view(out@) =~= children_view(self.children@));
        PromptNode { settings: self.settings.clone(), children: out }
    }
}

impl PromptNode {
    /// The name of the tag of a prompt.
    pub open spec fn tag_name() -> Seq<char> {
        "prompt"@
    }

    /// The name under which the prompt is invoked.
    pub fn name(&self) -> (r: &str)
        ensures
            r@ == self@.settings.name,
    {
        self.settings.name.as_str()
    }

    /// The tag that elements of this kind have.
    pub fn tag_type() -> (r: TagBuf)
        ensures
            r@ == Self::tag_name(),
    {
        TagBuf::new("prompt")
    }

    /// Whether `tag` is the tag that elements of this kind have.
    pub fn matches(tag: &TagBuf) -> (r: bool)
        ensures
            r == tag_matches(Self::tag_name(), tag@),
    {
        Self::tag_type().matches(tag)
    }
}

} // verus!
