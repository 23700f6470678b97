use vstd::prelude::*;

use crate::ast::message::MsgNode;
use crate::markup::elements_of;
use crate::markup::nodes_view;
use crate::markup::plain_text;
use crate::markup::text_parts;
use crate::markup::ElementView;
use crate::markup::Node;
use crate::markup::NodeView;
use crate::text::concat_strings;
use crate::text::concatenated;
use crate::text::join_strings;
use crate::text::joined;
use crate::text::strings_view;

verus! {

/// The text under each of the elements, one text for each element.
pub open spec fn element_texts(elements: Seq<ElementView>) -> Seq<Seq<char>> {
    Seq::new(elements.len(), |i: int| plain_text(elements[i].children))
}

/// The text of a message body. A body of nothing but text is its pieces of
/// text put together as they are. Any other body is read by its structure:
/// the text under each of its elements, one line for each element, and the
/// text that stands between the elements is left out.
pub open spec fn body_text(children: Seq<NodeView>) -> Seq<char> {
    match text_parts(children) {
        Some(parts) => concatenated(parts),
        None => joined(element_texts(elements_of(children)), "\n"@),
    }
}

/// Puts the text under each element among `nodes` at the end of `out`.
fn element_texts_into(nodes: &Vec<Node>, out: &mut Vec<String>)
    ensures
        strings_view(final(out)@) == strings_view(old(out)@) + element_texts(
            elements_of(nodes_view(nodes@)),
        ),
    decreases nodes,
{
    let ghost all = nodes_view(nodes@);
    let ghost start = strings_view(out@);
    let mut i: usize = 0;
    while i < nodes.len()
        invariant
            i <= nodes.len(),
            all == nodes_view(nodes@),
            strings_view(out@) == start + element_texts(elements_of(all.take(i as int))),
        decreases nodes.len() - i,
    {
        proof {
            assert(all.take(i + 1).drop_last() =~= all.take(i as int));
            assert(decreases_to!(nodes => nodes@[i as int])) by {
                vstd::std_specs::vec::axiom_vec_index_decreases(*nodes, i as int);
            }
        }
        let ghost held = out@;
        match &nodes[i] {
            Node::Element(element) => {
                let text = element.children.plain_text();
                out.push(text);
                assert(strings_view(out@) =~= strings_view(held).push(
                    plain_text(element@.children),
                ));
            },
            Node::Text(_) => {},
            Node::Fragment(fragment) => {
                element_texts_into(&fragment.nodes, out);
            },
        }
        i = i + 1;
    }
    assert(all.take(nodes@.len() as int) =~= all);
}

impl MsgNode {
    /// The text of the message.
    pub fn text_content(&self) -> (r: String)
        ensures
            r@ == body_text(self@.children),
    {
        match self.children.extract_text_strict() {
            Some(text_only) => concat_strings(&text_only),
            None => {
                let mut lines: Vec<String> = Vec::new();
                element_texts_into(&self.children.nodes, &mut lines);
                join_strings(&lines, "\n")
            },
        }
    }
}

} // verus!
