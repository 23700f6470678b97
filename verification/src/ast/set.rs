use vstd::prelude::*;

use crate::common::prompt::PromptSettings;
use crate::common::prompt::PromptSettingsView;
use crate::markup::tag_matches;
use crate::markup::TagBuf;

verus! {

/// A change of the generation parameters that holds from its place in the
/// script onwards.
#[derive(Debug)]
pub struct SetNode {
    pub prompt_settings: PromptSettings,
}

impl View for SetNode {
    type V = PromptSettingsView;

    open spec fn view(&self) -> PromptSettingsView {
        self.prompt_settings@
    }
}

impl Clone for SetNode {
    fn clone(&self) -> (r: Self)
        ensures
            r@ == self@,
    {
        SetNode { prompt_settings: self.prompt_settings.clone() }
    }
}

impl SetNode {
    /// The name of the tag of a change of parameters.
    pub open spec fn tag_name() -> Seq<char> {
        "set"@
    }

    /// The tag that elements of this kind have.
    pub fn tag_type() -> (r: TagBuf)
        ensures
            r@ == Self::tag_name(),
    {
        TagBuf::new("set")
    }

    /// Whether `tag` is the tag that elements of this kind have.
    pub fn matches(tag: &TagBuf) -> (r: bool)
        ensures
            r == tag_matches(Self::tag_name(), tag@),
    {
        Self::tag_type().matches(tag)
    }
}

} // verus!
