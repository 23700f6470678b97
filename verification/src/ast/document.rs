use vstd::prelude::*;

use crate::ast::prompt::PromptNode;
use crate::ast::prompt::PromptNodeView;

verus! {

/// What may stand at the top of a document.
#[derive(Debug)]
pub enum DocumentChildCode {
    Prompt(PromptNode),
}

impl View for DocumentChildCode {
    type V = PromptNodeView;

    open spec fn view(&self) -> PromptNodeView {
        match self {
            DocumentChildCode::Prompt(prompt) => prompt@,
        }
    }
}

/// A compiled document: its prompts in the order in which they were
/// declared.
#[derive(Debug)]
pub struct DocumentNode {
    pub children: Vec<DocumentChildCode>,
}

/// What a [`DocumentNode`] holds.
pub ghost struct DocumentNodeView {
    pub children: Seq<PromptNodeView>,
}

/// What the prompts `children` hold, one by one.
pub open spec fn prompts_view(children: Seq<DocumentChildCode>) -> Seq<PromptNodeView> {
    Seq::new(children.len(), |i: int| children[i]@)
}

impl View for DocumentNode {
    type V = DocumentNodeView;

    open spec fn view(&self) -> DocumentNodeView {
        DocumentNodeView { children: prompts_view(self.children@) }
    }
}

impl Clone for DocumentChildCode {
    fn clone(&self) -> (r: Self)
        ensures
            r@ == self@,
    {
        match self {
            DocumentChildCode::Prompt(prompt) => DocumentChildCode::Prompt(prompt.clone()),
        }
    }
}

impl Clone for DocumentNode {
    fn clone(&self) -> (r: Self)
        ensures
            r@ == self@,
    {
        let mut out: Vec<DocumentChildCode> = Vec::new();
        let mut i: usize = 0;
        while i < self.children.len()
            invariant
                i <= self.children.len(),
                out.len() == i,
                forall|j: int| 0 <= j < i ==> (#[trigger] out@[j])@ == self.children@[j]@,
            decreases self.children.len() - i,
        {
            out.push(self.children[i].clone());
            i = i + 1;
        }
        assert(prompts_view(out@) =~= prompts_view(self.children@));
        DocumentNode { children: out }
    }
}

} // verus!
