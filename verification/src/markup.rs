//! The generic markup tree that scripts are compiled from: elements with a
//! tag, attributes and children, text, and fragments that group nodes without
//! a tag of their own.

use vstd::prelude::*;

use crate::text::eq_ignoring_case;
use crate::text::str_eq;
use crate::text::str_eq_ignore_ascii_case;
use crate::text::strings_view;

verus! {

// ————————————————————————————————————————————————————————————————————————————
// TAGS
// ————————————————————————————————————————————————————————————————————————————
/// The name of an element's tag.
#[derive(Debug)]
pub struct TagBuf {
    pub name: String,
}

impl View for TagBuf {
    type V = Seq<char>;

    open spec fn view(&self) -> Seq<char> {
        self.name@
    }
}

impl Clone for TagBuf {
    fn clone(&self) -> (r: Self)
        ensures
            r@ == self@,
    {
        TagBuf { name: self.name.clone() }
    }
}

/// Whether two tag names are the same tag: tags do not differ by the case of
/// their letters.
pub open spec fn tag_matches(a: Seq<char>, b: Seq<char>) -> bool {
    eq_ignoring_case(a, b)
}

impl TagBuf {
    /// The tag with the given name.
    pub fn new(name: &str) -> (r: Self)
        ensures
            r@ == name@,
    {
        TagBuf { name: name.to_owned() }
    }

    /// The name as it was given.
    pub fn as_str(&self) -> (r: &str)
        ensures
            r@ == self@,
    {
        self.name.as_str()
    }

    /// Whether `other` is the same tag as this one.
    pub fn matches(&self, other: &TagBuf) -> (r: bool)
        ensures
            r == tag_matches(self@, other@),
    {
        str_eq_ignore_ascii_case(self.name.as_str(), other.name.as_str())
    }
}

// ————————————————————————————————————————————————————————————————————————————
// ATTRIBUTES
// ————————————————————————————————————————————————————————————————————————————
/// The map that a list of key and value pairs stands for: of two pairs with
/// the same key the later one counts.
pub open spec fn entries_map(entries: Seq<(Seq<char>, Seq<char>)>) -> Map<Seq<char>, Seq<char>>
    decreases entries.len(),
{
    if entries.len() == 0 {
        Map::empty()
    } else {
        entries_map(entries.drop_last()).insert(entries.last().0, entries.last().1)
    }
}

/// A key that the last pair with it holds is mapped to the value of that
/// pair.
pub proof fn lemma_entries_map_present(entries: Seq<(Seq<char>, Seq<char>)>, key: Seq<char>, i: int)
    requires
        0 <= i < entries.len(),
        entries[i].0 == key,
        forall|j: int| i < j < entries.len() ==> entries[j].0 != key,
    ensures
        entries_map(entries).contains_key(key),
        entries_map(entries)[key] == entries[i].1,
    decreases entries.len(),
{
    if i < entries.len() - 1 {
        lemma_entries_map_present(entries.drop_last(), key, i);
    }
}

/// A key that no pair holds is not in the map.
pub proof fn lemma_entries_map_absent(entries: Seq<(Seq<char>, Seq<char>)>, key: Seq<char>)
    requires
        forall|j: int| 0 <= j < entries.len() ==> entries[j].0 != key,
    ensures
        !entries_map(entries).contains_key(key),
    decreases entries.len(),
{
    if entries.len() > 0 {
        lemma_entries_map_absent(entries.drop_last(), key);
    }
}

/// The attributes of an element: a map from keys to values. Keys are compared
/// as they are written, and the order in which attributes were given does not
/// matter.
#[derive(Debug)]
pub struct AttributeMap {
    entries: Vec<(String, String)>,
}

impl AttributeMap {
    /// The pairs of the list as sequences of characters.
    pub closed spec fn pairs(&self) -> Seq<(Seq<char>, Seq<char>)> {
        self.entries@.map_values(|e: (String, String)| (e.0@, e.1@))
    }
}

impl View for AttributeMap {
    type V = Map<Seq<char>, Seq<char>>;

    closed spec fn view(&self) -> Map<Seq<char>, Seq<char>> {
        entries_map(self.pairs())
    }
}

impl Clone for AttributeMap {
    fn clone(&self) -> (r: Self)
        ensures
            r@ == self@,
    {
        let mut entries: Vec<(String, String)> = Vec::new();
        let mut i: usize = 0;
        while i < self.entries.len()
            invariant
                i <= self.entries.len(),
                entries.len() == i,
                entries@.map_values(|e: (String, String)| (e.0@, e.1@)) == self.pairs().take(
                    i as int,
                ),
            decreases self.entries.len() - i,
        {
            let entry = &self.entries[i];
            entries.push((entry.0.clone(), entry.1.clone()));
            assert(entries@.map_values(|e: (String, String)| (e.0@, e.1@)) =~= self.pairs().take(
                i + 1,
            ));
            i = i + 1;
        }
        assert(self.pairs().take(self.entries.len() as int) =~= self.pairs());
        AttributeMap { entries }
    }
}

impl AttributeMap {
    /// No attributes.
    pub fn new() -> (r: Self)
        ensures
            r@ == Map::<Seq<char>, Seq<char>>::empty(),
    {
        let r = AttributeMap { entries: Vec::new() };
        r
    }

    /// Sets the attribute `key` to `value`, whether or not it had a value.
    pub fn insert(&mut self, key: String, value: String)
        ensures
            final(self)@ == old(self)@.insert(key@, value@),
    {
        self.entries.push((key, value));
        assert(self.pairs().drop_last() =~= old(self).pairs());
    }

    /// The value of the attribute `key`, if there is one.
    pub fn get(&self, key: &str) -> (r: Option<&String>)
        ensures
            match r {
                Some(value) => self@.contains_key(key@) && self@[key@] == value@,
                None => !self@.contains_key(key@),
            },
    {
        let mut i: usize = self.entries.len();
        while i > 0
            invariant
                i <= self.entries.len(),
                forall|j: int| i <= j < self.entries.len() ==> self.pairs()[j].0 != key@,
            decreases i,
        {
            i = i - 1;
            if str_eq(self.entries[i].0.as_str(), key) {
                proof {
                    lemma_entries_map_present(self.pairs(), key@, i as int);
                }
                return Some(&self.entries[i].1);
            }
        }
        proof {
            lemma_entries_map_absent(self.pairs(), key@);
        }
        None
    }

    /// Whether the attribute `key` has a value.
    pub fn contains_key(&self, key: &str) -> (r: bool)
        ensures
            r == self@.contains_key(key@),
    {
        self.get(key).is_some()
    }
}

// ————————————————————————————————————————————————————————————————————————————
// TREE
// ————————————————————————————————————————————————————————————————————————————
/// An element: a tag, attributes, and the nodes inside it.
#[derive(Debug)]
pub struct Element {
    pub tag: TagBuf,
    pub attributes: AttributeMap,
    pub children: Fragment,
}

/// A run of nodes.
#[derive(Debug)]
pub struct Fragment {
    pub nodes: Vec<Node>,
}

/// A node of the tree.
#[derive(Debug)]
pub enum Node {
    Element(Element),
    Text(String),
    Fragment(Fragment),
}

/// What an [`Element`] holds.
pub ghost struct ElementView {
    pub tag: Seq<char>,
    pub attributes: Map<Seq<char>, Seq<char>>,
    pub children: Seq<NodeView>,
}

/// What a [`Node`] holds.
pub ghost enum NodeView {
    Element(ElementView),
    Text(Seq<char>),
    Fragment(Seq<NodeView>),
}

/// What the node `node` holds.
pub open spec fn node_view(node: Node) -> NodeView
    decreases node,
{
    match node {
        Node::Element(element) => NodeView::Element(element_view(element)),
        Node::Text(text) => NodeView::Text(text@),
        Node::Fragment(fragment) => NodeView::Fragment(nodes_view(fragment.nodes@)),
    }
}

/// What the element `element` holds.
pub open spec fn element_view(element: Element) -> ElementView
    decreases element,
{
    ElementView {
        tag: element.tag@,
        attributes: element.attributes@,
        children: nodes_view(element.children.nodes@),
    }
}

/// What the nodes `nodes` hold, one by one.
pub open spec fn nodes_view(nodes: Seq<Node>) -> Seq<NodeView>
    decreases nodes,
{
    Seq::new(
        nodes.len(),
        |i: int|
            if 0 <= i < nodes.len() {
                node_view(nodes[i])
            } else {
                NodeView::Fragment(Seq::empty())
            },
    )
}

/// What the elements `elements` hold, one by one.
pub open spec fn elements_view(elements: Seq<Element>) -> Seq<ElementView> {
    Seq::new(elements.len(), |i: int| element_view(elements[i]))
}

impl View for Node {
    type V = NodeView;

    open spec fn view(&self) -> NodeView {
        node_view(*self)
    }
}

impl View for Element {
    type V = ElementView;

    open spec fn view(&self) -> ElementView {
        element_view(*self)
    }
}

impl View for Fragment {
    type V = Seq<NodeView>;

    open spec fn view(&self) -> Seq<NodeView> {
        nodes_view(self.nodes@)
    }
}

/// A copy of `node`.
fn clone_node(node: &Node) -> (r: Node)
    ensures
        r@ == node@,
    decreases node,
{
    match node {
        Node::Element(element) => Node::Element(
            Element {
                tag: element.tag.clone(),
                attributes: element.attributes.clone(),
                children: Fragment { nodes: clone_nodes(&element.children.nodes) },
            },
        ),
        Node::Text(text) => Node::Text(text.clone()),
        Node::Fragment(fragment) => Node::Fragment(
            Fragment { nodes: clone_nodes(&fragment.nodes) },
        ),
    }
}

/// A copy of `nodes`.
fn clone_nodes(nodes: &Vec<Node>) -> (r: Vec<Node>)
    ensures
        nodes_view(r@) == nodes_view(nodes@),
    decreases nodes,
{
    let mut out: Vec<Node> = Vec::new();
    let mut i: usize = 0;
    while i < nodes.len()
        invariant
            i <= nodes.len(),
            out.len() == i,
            forall|j: int| 0 <= j < i ==> node_view(#[trigger] out@[j]) == node_view(nodes@[j]),
        decreases nodes.len() - i,
    {
        proof {
            assert(decreases_to!(nodes => nodes@[i as int])) by {
                vstd::std_specs::vec::axiom_vec_index_decreases(*nodes, i as int);
            }
        }
        out.push(clone_node(&nodes[i]));
        i = i + 1;
    }
    out
}

impl Clone for Node {
    fn clone(&self) -> (r: Self)
        ensures
            r@ == self@,
    {
        clone_node(self)
    }
}

impl Clone for Fragment {
    fn clone(&self) -> (r: Self)
        ensures
            r@ == self@,
    {
        Fragment { nodes: clone_nodes(&self.nodes) }
    }
}

impl Clone for Element {
    fn clone(&self) -> (r: Self)
        ensures
            r@ == self@,
    {
        Element {
            tag: self.tag.clone(),
            attributes: self.attributes.clone(),
            children: Fragment { nodes: clone_nodes(&self.children.nodes) },
        }
    }
}

/// The node with its fragments resolved: the nodes of a fragment, each
/// flattened in turn; any other node by itself. What is inside an element
/// stays as it is.
pub open spec fn flatten(node: NodeView) -> Seq<NodeView>
    decreases node,
{
    match node {
        NodeView::Fragment(nodes) => flatten_all(nodes),
        _ => seq![node],
    }
}

/// The nodes with their fragments resolved, in document order.
pub open spec fn flatten_all(nodes: Seq<NodeView>) -> Seq<NodeView>
    decreases nodes,
{
    if nodes.len() == 0 {
        Seq::empty()
    } else {
        flatten_all(nodes.drop_last()) + flatten(nodes.last())
    }
}

/// The elements among the nodes, in document order: those inside fragments
/// count, text does not, and what is inside an element stays there.
pub open spec fn elements_of(nodes: Seq<NodeView>) -> Seq<ElementView>
    decreases nodes,
{
    if nodes.len() == 0 {
        Seq::empty()
    } else {
        elements_of(nodes.drop_last()) + match nodes.last() {
            NodeView::Element(element) => seq![element],
            NodeView::Text(_) => Seq::empty(),
            NodeView::Fragment(inner) => elements_of(inner),
        }
    }
}

/// The pieces of text among the nodes, in document order, where the nodes
/// hold nothing but text, fragments of text included; `None` as soon as there
/// is an element among them.
pub open spec fn text_parts(nodes: Seq<NodeView>) -> Option<Seq<Seq<char>>>
    decreases nodes,
{
    if nodes.len() == 0 {
        Some(Seq::empty())
    } else {
        match text_parts(nodes.drop_last()) {
            Some(before) => match nodes.last() {
                NodeView::Text(text) => Some(before.push(text)),
                NodeView::Fragment(inner) => match text_parts(inner) {
                    Some(parts) => Some(before + parts),
                    None => None,
                },
                NodeView::Element(_) => None,
            },
            None => None,
        }
    }
}

/// All the text under the nodes, in document order, with the tags left out.
pub open spec fn plain_text(nodes: Seq<NodeView>) -> Seq<char>
    decreases nodes,
{
    if nodes.len() == 0 {
        Seq::empty()
    } else {
        plain_text(nodes.drop_last()) + match nodes.last() {
            NodeView::Text(text) => text,
            NodeView::Fragment(inner) => plain_text(inner),
            NodeView::Element(element) => plain_text(element.children),
        }
    }
}

/// Where the nodes hold nothing but text, all the text under them is their
/// pieces of text put together.
pub proof fn lemma_plain_text_of_text_parts(nodes: Seq<NodeView>)
    requires
        text_parts(nodes) is Some,
    ensures
        plain_text(nodes) == crate::text::concatenated(text_parts(nodes)->0),
    decreases nodes,
{
    if nodes.len() > 0 {
        lemma_plain_text_of_text_parts(nodes.drop_last());
        let before = text_parts(nodes.drop_last())->0;
        match nodes.last() {
            NodeView::Text(text) => {
                assert(before.push(text).drop_last() =~= before);
            },
            NodeView::Fragment(inner) => {
                lemma_plain_text_of_text_parts(inner);
                crate::text::lemma_concatenated_append(before, text_parts(inner)->0);
            },
            NodeView::Element(_) => {},
        }
    }
}

/// The elements among the nodes are the elements among the flattened nodes.
pub proof fn lemma_elements_of_flattened(nodes: Seq<NodeView>)
    ensures
        elements_of(flatten_all(nodes)) == elements_of(nodes),
    decreases nodes,
{
    if nodes.len() > 0 {
        lemma_elements_of_flattened(nodes.drop_last());
        lemma_elements_of_append(flatten_all(nodes.drop_last()), flatten(nodes.last()));
        match nodes.last() {
            NodeView::Fragment(inner) => {
                lemma_elements_of_flattened(inner);
            },
            _ => {
                let single = seq![nodes.last()];
                assert(elements_of(single.drop_last()) =~= Seq::<ElementView>::empty());
            },
        }
    }
}

/// The elements among two runs of nodes are those of the first, then those of
/// the second.
pub proof fn lemma_elements_of_append(a: Seq<NodeView>, b: Seq<NodeView>)
    ensures
        elements_of(a + b) == elements_of(a) + elements_of(b),
    decreases b.len(),
{
    if b.len() > 0 {
        lemma_elements_of_append(a, b.drop_last());
        assert((a + b).drop_last() =~= a + b.drop_last());
    }
}

/// What a run of nodes holds after one more node was put at its end.
pub proof fn lemma_nodes_view_push(nodes: Seq<Node>, node: Node)
    ensures
        nodes_view(nodes.push(node)) == nodes_view(nodes).push(node_view(node)),
{
}

/// Puts the flattened `node` at the end of `out`.
fn flatten_into(node: Node, out: &mut Vec<Node>)
    ensures
        nodes_view(final(out)@) == nodes_view(old(out)@) + flatten(node@),
    decreases node,
{
    match node {
        Node::Fragment(fragment) => {
            flatten_nodes_into(fragment.nodes, out);
        },
        other => {
            proof {
                lemma_nodes_view_push(out@, other);
            }
            out.push(other);
        },
    }
}

/// Puts the flattened `nodes` at the end of `out`.
fn flatten_nodes_into(nodes: Vec<Node>, out: &mut Vec<Node>)
    ensures
        nodes_view(final(out)@) == nodes_view(old(out)@) + flatten_all(nodes_view(nodes@)),
    decreases nodes,
{
    let ghost all = nodes_view(nodes@);
    let ghost start = nodes_view(out@);
    for child in it: nodes
        invariant
            it.seq() == nodes@,
            all == nodes_view(nodes@),
            nodes_view(out@) == start + flatten_all(all.take(it.index() as int)),
    {
        let ghost i = it.index() as int;
        proof {
            assert(all.take(i + 1).drop_last() =~= all.take(i));
            assert(decreases_to!(nodes => child)) by {
                vstd::std_specs::vec::axiom_vec_index_decreases(nodes, i);
            }
        }
        flatten_into(child, out);
    }
    assert(all.take(nodes@.len() as int) =~= all);
}

/// Puts the elements among `node` and the fragments inside it at the end of
/// `out`.
fn elements_into(node: Node, out: &mut Vec<Element>)
    ensures
        elements_view(final(out)@) == elements_view(old(out)@) + elements_of(seq![node@]),
    decreases node,
{
    let ghost single = seq![node@];
    proof {
        assert(elements_of(single.drop_last()) =~= Seq::<ElementView>::empty());
    }
    match node {
        Node::Element(element) => {
            out.push(element);
        },
        Node::Text(_) => {},
        Node::Fragment(fragment) => {
            elements_of_nodes_into(fragment.nodes, out);
        },
    }
}

/// Puts the elements among `nodes` at the end of `out`.
fn elements_of_nodes_into(nodes: Vec<Node>, out: &mut Vec<Element>)
    ensures
        elements_view(final(out)@) == elements_view(old(out)@) + elements_of(nodes_view(nodes@)),
    decreases nodes,
{
    let ghost all = nodes_view(nodes@);
    let ghost start = elements_view(out@);
    for child in it: nodes
        invariant
            it.seq() == nodes@,
            all == nodes_view(nodes@),
            elements_view(out@) == start + elements_of(all.take(it.index() as int)),
    {
        let ghost i = it.index() as int;
        proof {
            assert(all.take(i + 1).drop_last() =~= all.take(i));
            assert(decreases_to!(nodes => child)) by {
                vstd::std_specs::vec::axiom_vec_index_decreases(nodes, i);
            }
            let single = seq![node_view(child)];
            assert(elements_of(single.drop_last()) =~= Seq::<ElementView>::empty());
        }
        elements_into(child, out);
    }
    assert(all.take(nodes@.len() as int) =~= all);
}

impl Node {
    /// The node with its fragments resolved into one flat run of nodes.
    pub fn flatten(self) -> (r: Vec<Node>)
        ensures
            nodes_view(r@) == flatten(self@),
    {
        let mut out: Vec<Node> = Vec::new();
        flatten_into(self, &mut out);
        out
    }
}

impl Fragment {
    /// The fragment of the given nodes.
    pub fn from_nodes(nodes: Vec<Node>) -> (r: Self)
        ensures
            r@ == nodes_view(nodes@),
    {
        Fragment { nodes }
    }

    /// How many there are.
    pub fn len(&self) -> (r: usize)
        ensures
            r == self@.len(),
    {
        self.nodes.len()
    }

    /// Whether there is none.
    pub fn is_empty(&self) -> (r: bool)
        ensures
            r == (self@.len() == 0),
    {
        self.nodes.len() == 0
    }

    /// The elements among the nodes, in document order: those inside nested
    /// fragments count, stray text is left out.
    pub fn extract_elements(self) -> (r: Vec<Element>)
        ensures
            elements_view(r@) == elements_of(self@),
    {
        let mut out: Vec<Element> = Vec::new();
        elements_of_nodes_into(self.nodes, &mut out);
        out
    }
}

impl Element {
    /// The elements among the children, in document order.
    pub fn extract_child_elements(self) -> (r: Vec<Element>)
        ensures
            elements_view(r@) == elements_of(self@.children),
    {
        self.children.extract_elements()
    }
}

/// Puts the pieces of text among `nodes` at the end of `out`, as long as
/// there is nothing but text; says whether that was so.
fn text_parts_into(nodes: &Vec<Node>, out: &mut Vec<String>) -> (ok: bool)
    ensures
        ok <==> text_parts(nodes_view(nodes@)) is Some,
        ok ==> strings_view(final(out)@) == strings_view(old(out)@) + text_parts(
            nodes_view(nodes@),
        )->0,
    decreases nodes,
{
    let ghost all = nodes_view(nodes@);
    let ghost start = strings_view(out@);
    let mut i: usize = 0;
    while i < nodes.len()
        invariant
            i <= nodes.len(),
            all == nodes_view(nodes@),
            text_parts(all.take(i as int)) is Some,
            strings_view(out@) == start + text_parts(all.take(i as int))->0,
        decreases nodes.len() - i,
    {
        proof {
            assert(all.take(i + 1).drop_last() =~= all.take(i as int));
            assert(decreases_to!(nodes => nodes@[i as int])) by {
                vstd::std_specs::vec::axiom_vec_index_decreases(*nodes, i as int);
            }
        }
        let ghost held = out@;
        let ok = match &nodes[i] {
            Node::Text(text) => {
                out.push(text.clone());
                assert(strings_view(out@) =~= strings_view(held).push(text@));
                true
            },
            Node::Fragment(fragment) => {
                text_parts_into(&fragment.nodes, out)
            },
            Node::Element(_) => false,
        };
        if !ok {
            proof {
                lemma_text_parts_prefix(all, i + 1);
            }
            return false;
        }
        i = i + 1;
    }
    assert(all.take(nodes@.len() as int) =~= all);
    true
}

/// Where a run of nodes holds nothing but text, so does each run that it
/// begins with.
pub proof fn lemma_text_parts_prefix(nodes: Seq<NodeView>, k: int)
    requires
        0 <= k <= nodes.len(),
        text_parts(nodes.take(k)) is None,
    ensures
        text_parts(nodes) is None,
    decreases nodes.len(),
{
    if k == nodes.len() {
        assert(nodes.take(k) =~= nodes);
    } else {
        assert(nodes.drop_last().take(k) =~= nodes.take(k));
        lemma_text_parts_prefix(nodes.drop_last(), k);
    }
}

/// Puts all the text under `nodes` at the end of `out`.
fn plain_text_into(nodes: &Vec<Node>, out: &mut String)
    ensures
        final(out)@ == old(out)@ + plain_text(nodes_view(nodes@)),
    decreases nodes,
{
    let ghost all = nodes_view(nodes@);
    let ghost start = out@;
    let mut i: usize = 0;
    while i < nodes.len()
        invariant
            i <= nodes.len(),
            all == nodes_view(nodes@),
            out@ == start + plain_text(all.take(i as int)),
        decreases nodes.len() - i,
    {
        proof {
            assert(all.take(i + 1).drop_last() =~= all.take(i as int));
            assert(all.take(i + 1).last() == node_view(nodes@[i as int]));
            assert(decreases_to!(nodes => nodes@[i as int])) by {
                vstd::std_specs::vec::axiom_vec_index_decreases(*nodes, i as int);
            }
        }
        match &nodes[i] {
            Node::Text(text) => {
                out.append(text.as_str());
            },
            Node::Fragment(fragment) => {
                plain_text_into(&fragment.nodes, out);
            },
            Node::Element(element) => {
                plain_text_into(&element.children.nodes, out);
            },
        }
        i = i + 1;
    }
    assert(all.take(nodes@.len() as int) =~= all);
}

impl Fragment {
    /// The pieces of text among the nodes, in document order, where the
    /// nodes hold nothing but text; `None` as soon as there is an element
    /// anywhere among them.
    pub fn extract_text_strict(&self) -> (r: Option<Vec<String>>)
        ensures
            match r {
                Some(parts) => text_parts(self@) == Some(strings_view(parts@)),
                None => text_parts(self@) is None,
            },
    {
        let mut out: Vec<String> = Vec::new();
        if text_parts_into(&self.nodes, &mut out) {
            Some(out)
        } else {
            None
        }
    }

    /// All the text under the nodes, in document order, with the tags left
    /// out.
    pub fn plain_text(&self) -> (r: String)
        ensures
            r@ == plain_text(self@),
    {
        let mut out = String::new();
        plain_text_into(&self.nodes, &mut out);
        out
    }
}

} // verus!
