use vstd::prelude::*;

use crate::ast::breakpoint::BreakpointNode;
use crate::ast::document::DocumentChildCode;
use crate::ast::document::DocumentNode;
use crate::ast::document::DocumentNodeView;
use crate::ast::document::prompts_view;
use crate::ast::message::MsgNode;
use crate::ast::message::MsgNodeView;
use crate::ast::prompt::children_view;
use crate::ast::prompt::PromptChildNode;
use crate::ast::prompt::PromptChildNodeView;
use crate::ast::prompt::PromptNode;
use crate::ast::prompt::PromptNodeView;
use crate::ast::set::SetNode;
use crate::common::message::MessageRole;
use crate::common::message::ParseRoleError;
use crate::common::prompt::attribute_errors;
use crate::common::prompt::setting_key_names;
use crate::common::prompt::settings_of;
use crate::common::prompt::InvalidAttribute;
use crate::common::prompt::PromptArgumentsView;
use crate::common::prompt::PromptSettings;
use crate::common::prompt::PromptSettingsView;
use crate::markup::elements_of;
use crate::markup::elements_view;
use crate::markup::flatten;
use crate::markup::tag_matches;
use crate::markup::Element;
use crate::markup::ElementView;
use crate::markup::Fragment;
use crate::markup::Node;
use crate::markup::NodeView;
use crate::text::join_strings;
use crate::text::joined;
use crate::text::strings_view;
use std::rc::Rc;

verus! {

// ————————————————————————————————————————————————————————————————————————————
// ERROR HANDLING
// ————————————————————————————————————————————————————————————————————————————
/// What can be wrong with a document: the closed set of the kinds of error,
/// each with what it is about.
#[derive(Debug)]
pub enum DslFormatErrorKind {
    InvalidMessageNode,
    InvalidMessageAttribute(ParseRoleError),
    InvalidMessageMissingRole,
    InvalidBreakpointNode,
    InvalidBreakpointAttribute,
    InvalidSetNode,
    InvalidSetAttribute(InvalidAttribute),
    InvalidPromptChild,
    InvalidPromptNode,
    InvalidPromptMissingName,
    InvalidPromptAttribute(InvalidAttribute),
    InvalidDocumentChildNode,
}

/// What a [`DslFormatErrorKind`] holds.
pub ghost enum DslFormatErrorKindView {
    InvalidMessageNode,
    InvalidMessageAttribute(Seq<char>),
    InvalidMessageMissingRole,
    InvalidBreakpointNode,
    InvalidBreakpointAttribute,
    InvalidSetNode,
    InvalidSetAttribute(InvalidAttribute),
    InvalidPromptChild,
    InvalidPromptNode,
    InvalidPromptMissingName,
    InvalidPromptAttribute(InvalidAttribute),
    InvalidDocumentChildNode,
}

impl View for DslFormatErrorKind {
    type V = DslFormatErrorKindView;

    open spec fn view(&self) -> DslFormatErrorKindView {
        match self {
            DslFormatErrorKind::InvalidMessageNode => DslFormatErrorKindView::InvalidMessageNode,
            DslFormatErrorKind::InvalidMessageAttribute(error) => DslFormatErrorKindView::InvalidMessageAttribute(error@),
            DslFormatErrorKind::InvalidMessageMissingRole => DslFormatErrorKindView::InvalidMessageMissingRole,
            DslFormatErrorKind::InvalidBreakpointNode => DslFormatErrorKindView::InvalidBreakpointNode,
            DslFormatErrorKind::InvalidBreakpointAttribute => DslFormatErrorKindView::InvalidBreakpointAttribute,
            DslFormatErrorKind::InvalidSetNode => DslFormatErrorKindView::InvalidSetNode,
            DslFormatErrorKind::InvalidSetAttribute(field) => DslFormatErrorKindView::InvalidSetAttribute(*field),
            DslFormatErrorKind::InvalidPromptChild => DslFormatErrorKindView::InvalidPromptChild,
            DslFormatErrorKind::InvalidPromptNode => DslFormatErrorKindView::InvalidPromptNode,
            DslFormatErrorKind::InvalidPromptMissingName => DslFormatErrorKindView::InvalidPromptMissingName,
            DslFormatErrorKind::InvalidPromptAttribute(field) => DslFormatErrorKindView::InvalidPromptAttribute(*field),
            DslFormatErrorKind::InvalidDocumentChildNode => DslFormatErrorKindView::InvalidDocumentChildNode,
        }
    }
}

impl Clone for DslFormatErrorKind {
    fn clone(&self) -> (r: Self)
        ensures
            r@ == self@,
    {
        match self {
            DslFormatErrorKind::InvalidMessageNode => DslFormatErrorKind::InvalidMessageNode,
            DslFormatErrorKind::InvalidMessageAttribute(error) => DslFormatErrorKind::InvalidMessageAttribute(error.clone()),
            DslFormatErrorKind::InvalidMessageMissingRole => DslFormatErrorKind::InvalidMessageMissingRole,
            DslFormatErrorKind::InvalidBreakpointNode => DslFormatErrorKind::InvalidBreakpointNode,
            DslFormatErrorKind::InvalidBreakpointAttribute => DslFormatErrorKind::InvalidBreakpointAttribute,
            DslFormatErrorKind::InvalidSetNode => DslFormatErrorKind::InvalidSetNode,
            DslFormatErrorKind::InvalidSetAttribute(field) => DslFormatErrorKind::InvalidSetAttribute(*field),
            DslFormatErrorKind::InvalidPromptChild => DslFormatErrorKind::InvalidPromptChild,
            DslFormatErrorKind::InvalidPromptNode => DslFormatErrorKind::InvalidPromptNode,
            DslFormatErrorKind::InvalidPromptMissingName => DslFormatErrorKind::InvalidPromptMissingName,
            DslFormatErrorKind::InvalidPromptAttribute(field) => DslFormatErrorKind::InvalidPromptAttribute(*field),
            DslFormatErrorKind::InvalidDocumentChildNode => DslFormatErrorKind::InvalidDocumentChildNode,
        }
    }
}

impl DslFormatErrorKindView {
    /// What the error says.
    pub open spec fn message(self) -> Seq<char> {
        match self {
            DslFormatErrorKindView::InvalidMessageNode => "invalid message element"@,
            DslFormatErrorKindView::InvalidMessageAttribute(given) => "invalid message attribute: "@ + ParseRoleError::message(given),
            DslFormatErrorKindView::InvalidMessageMissingRole => "invalid message: missing role attribute"@,
            DslFormatErrorKindView::InvalidBreakpointNode => "invalid message element"@,
            DslFormatErrorKindView::InvalidBreakpointAttribute => "invalid breakpoint attribute"@,
            DslFormatErrorKindView::InvalidSetNode => "invalid set element"@,
            DslFormatErrorKindView::InvalidSetAttribute(field) => "invalid set attribute: "@ + field.message(),
            DslFormatErrorKindView::InvalidPromptChild => "invalid prompt child"@,
            DslFormatErrorKindView::InvalidPromptNode => "invalid prompt element"@,
            DslFormatErrorKindView::InvalidPromptMissingName => "invalid prompt: missing name"@,
            DslFormatErrorKindView::InvalidPromptAttribute(field) => "invalid prompt attribute: "@ + field.message(),
            DslFormatErrorKindView::InvalidDocumentChildNode => "invalid document child node"@,
        }
    }
}

impl DslFormatErrorKind {
    /// What the error says, as a text.
    pub fn to_string(&self) -> (r: String)
        ensures
            r@ == self@.message(),
    {
        match self {
            DslFormatErrorKind::InvalidMessageNode => "invalid message element".to_owned(),
            DslFormatErrorKind::InvalidMessageAttribute(error) => {
                let mut out = "invalid message attribute: ".to_owned();
                let detail = error.to_string();
                out.append(detail.as_str());
                out
            },
            DslFormatErrorKind::InvalidMessageMissingRole => "invalid message: missing role attribute".to_owned(),
            DslFormatErrorKind::InvalidBreakpointNode => "invalid message element".to_owned(),
            DslFormatErrorKind::InvalidBreakpointAttribute => "invalid breakpoint attribute".to_owned(),
            DslFormatErrorKind::InvalidSetNode => "invalid set element".to_owned(),
            DslFormatErrorKind::InvalidSetAttribute(field) => {
                let mut out = "invalid set attribute: ".to_owned();
                let detail = field.to_string();
                out.append(detail.as_str());
                out
            },
            DslFormatErrorKind::InvalidPromptChild => "invalid prompt child".to_owned(),
            DslFormatErrorKind::InvalidPromptNode => "invalid prompt element".to_owned(),
            DslFormatErrorKind::InvalidPromptMissingName => "invalid prompt: missing name".to_owned(),
            DslFormatErrorKind::InvalidPromptAttribute(field) => {
                let mut out = "invalid prompt attribute: ".to_owned();
                let detail = field.to_string();
                out.append(detail.as_str());
                out
            },
            DslFormatErrorKind::InvalidDocumentChildNode => "invalid document child node".to_owned(),
        }
    }
}

/// What the errors `errors` hold, one by one.
pub open spec fn errors_view(errors: Seq<DslFormatErrorKind>) -> Seq<DslFormatErrorKindView> {
    Seq::new(errors.len(), |i: int| errors[i]@)
}

/// What each of the errors says.
pub open spec fn messages_of(errors: Seq<DslFormatErrorKindView>) -> Seq<Seq<char>> {
    Seq::new(errors.len(), |i: int| errors[i].message())
}

/// An error that compiling a document can report.
pub trait DslFormatError {
    /// Which kind of error this is, with what it is about.
    spec fn kind_view(&self) -> DslFormatErrorKindView;

    /// Which kind of error this is, with what it is about.
    fn kind(&self) -> (r: DslFormatErrorKind)
        ensures
            r@ == self.kind_view(),
    ;

    /// The list that holds this error and no other.
    fn singleton(&self) -> (r: DslFormatErrorList)
        ensures
            r@ == seq![self.kind_view()],
    ;
}

/// The errors found in a document, in the order in which they were met.
#[derive(Debug)]
pub struct DslFormatErrorList {
    pub errors: Vec<DslFormatErrorKind>,
}

impl View for DslFormatErrorList {
    type V = Seq<DslFormatErrorKindView>;

    open spec fn view(&self) -> Seq<DslFormatErrorKindView> {
        errors_view(self.errors@)
    }
}

impl Clone for DslFormatErrorList {
    fn clone(&self) -> (r: Self)
        ensures
            r@ == self@,
    {
        let mut errors: Vec<DslFormatErrorKind> = Vec::new();
        let mut i: usize = 0;
        while i < self.errors.len()
            invariant
                i <= self.errors.len(),
                errors.len() == i,
                errors_view(errors@) == self@.take(i as int),
            decreases self.errors.len() - i,
        {
            errors.push(self.errors[i].clone());
            i = i + 1;
        }
        DslFormatErrorList { errors }
    }
}

impl DslFormatErrorList {
    /// How many there are.
    pub fn len(&self) -> (r: usize)
        ensures
            r == self@.len(),
    {
        self.errors.len()
    }

    /// Whether there is none.
    pub fn is_empty(&self) -> (r: bool)
        ensures
            r == (self@.len() == 0),
    {
        self.errors.len() == 0
    }

    /// A list without errors, with room for `len` of them.
    pub fn with_capacity(len: usize) -> (r: Self)
        ensures
            r@ == Seq::<DslFormatErrorKindView>::empty(),
    {
        let r = Self { errors: Vec::with_capacity(len) };
        r
    }

    /// The list that holds an error of the given kind and no other.
    pub fn from_kind(kind: DslFormatErrorKind) -> (r: Self)
        ensures
            r@ == seq![kind@],
    {
        let mut errors: Vec<DslFormatErrorKind> = Vec::new();
        errors.push(kind);
        let r = Self { errors };
        r
    }

    /// The list that holds `item` and no other error.
    pub fn new<T: DslFormatError>(item: Rc<T>) -> (r: Self)
        ensures
            r@ == seq![item.kind_view()],
    {
        let mut errors: Vec<DslFormatErrorKind> = Vec::new();
        errors.push(item.kind());
        let r = Self { errors };
        r
    }

    /// The errors of this list, then those of `other`.
    pub fn union(self, other: Self) -> (r: Self)
        ensures
            r@ == self@ + other@,
    {
        let mut errors = self.errors;
        let mut other = other;
        errors.append(&mut other.errors);
        Self { errors }
    }

    /// Puts `new` at the end of the list.
    pub fn push<T: DslFormatError>(&mut self, new: Rc<T>)
        ensures
            final(self)@ == old(self)@.push(new.kind_view()),
    {
        self.errors.push(new.kind());
    }

    /// Puts the errors of `other` at the end of the list, in their order.
    pub fn extend(&mut self, other: Self)
        ensures
            final(self)@ == old(self)@ + other@,
    {
        let mut other = other;
        self.errors.append(&mut other.errors);
    }

    /// The errors of this list, then `next`.
    pub fn join<T: DslFormatError>(self, next: Rc<T>) -> (r: Self)
        ensures
            r@ == self@.push(next.kind_view()),
    {
        let mut errors = self.errors;
        errors.push(next.kind());
        Self { errors }
    }

    /// What the errors say, in their order, with `separator` between
    /// neighbours.
    pub fn joined(&self, separator: &str) -> (r: String)
        ensures
            r@ == joined(messages_of(self@), separator@),
    {
        let mut messages: Vec<String> = Vec::new();
        let mut i: usize = 0;
        while i < self.errors.len()
            invariant
                i <= self.errors.len(),
                messages.len() == i,
                strings_view(messages@) == messages_of(self@).take(i as int),
            decreases self.errors.len() - i,
        {
            messages.push(self.errors[i].to_string());
            i = i + 1;
        }
        assert(messages_of(self@).take(self.errors.len() as int) =~= messages_of(self@));
        join_strings(&messages, separator)
    }

    /// The separator between the errors of a list where it is shown as one
    /// text.
    pub open spec fn separator() -> Seq<char> {
        " \u{2219} "@
    }

    /// What the errors say, in their order, as one text.
    pub fn to_string(&self) -> (r: String)
        ensures
            r@ == joined(messages_of(self@), Self::separator()),
    {
        self.joined(" \u{2219} ")
    }
}

impl<T: DslFormatError> From<T> for DslFormatErrorList {
    /// The list that holds `value` and no other error.
    fn from(value: T) -> (r: Self)
        ensures
            r@ == seq![value.kind_view()],
    {
        value.singleton()
    }
}

/// What the conversion gives is stated over the view of the list, in the
/// contract of `from` itself; nothing is claimed of the list as a value.
impl<T: DslFormatError> vstd::std_specs::convert::FromSpecImpl<T> for DslFormatErrorList {
    open spec fn obeys_from_spec() -> bool {
        false
    }

    open spec fn from_spec(value: T) -> Self {
        arbitrary()
    }
}

/// An element that is no message stands where a message is read.
#[derive(Debug, Clone, Copy, PartialEq, Eq, Structural)]
pub struct InvalidMessageNode;

impl DslFormatError for InvalidMessageNode {
    open spec fn kind_view(&self) -> DslFormatErrorKindView {
        DslFormatErrorKindView::InvalidMessageNode
    }

    fn kind(&self) -> (r: DslFormatErrorKind) {
        DslFormatErrorKind::InvalidMessageNode
    }

    fn singleton(&self) -> (r: DslFormatErrorList) {
        DslFormatErrorList::from_kind(DslFormatErrorKind::InvalidMessageNode)
    }
}

impl InvalidMessageNode {
    /// What the error says, as a text.
    pub fn to_string(&self) -> (r: String)
        ensures
            r@ == self.kind_view().message(),
    {
        self.kind().to_string()
    }
}

/// The `role` of a message names no role.
#[derive(Debug)]
pub struct InvalidMessageAttribute(pub ParseRoleError);

impl Clone for InvalidMessageAttribute {
    fn clone(&self) -> (r: Self)
        ensures
            r.0@ == self.0@,
    {
        InvalidMessageAttribute(self.0.clone())
    }
}

impl DslFormatError for InvalidMessageAttribute {
    open spec fn kind_view(&self) -> DslFormatErrorKindView {
        DslFormatErrorKindView::InvalidMessageAttribute(self.0@)
    }

    fn kind(&self) -> (r: DslFormatErrorKind) {
        DslFormatErrorKind::InvalidMessageAttribute(self.0.clone())
    }

    fn singleton(&self) -> (r: DslFormatErrorList) {
        DslFormatErrorList::from_kind(DslFormatErrorKind::InvalidMessageAttribute(self.0.clone()))
    }
}

impl InvalidMessageAttribute {
    /// What the error says, as a text.
    pub fn to_string(&self) -> (r: String)
        ensures
            r@ == self.kind_view().message(),
    {
        self.kind().to_string()
    }
}

/// A message has no `role`.
#[derive(Debug, Clone, Copy, PartialEq, Eq, Structural)]
pub struct InvalidMessageMissingRole;

impl DslFormatError for InvalidMessageMissingRole {
    open spec fn kind_view(&self) -> DslFormatErrorKindView {
        DslFormatErrorKindView::InvalidMessageMissingRole
    }

    fn kind(&self) -> (r: DslFormatErrorKind) {
        DslFormatErrorKind::InvalidMessageMissingRole
    }

    fn singleton(&self) -> (r: DslFormatErrorList) {
        DslFormatErrorList::from_kind(DslFormatErrorKind::InvalidMessageMissingRole)
    }
}

impl InvalidMessageMissingRole {
    /// What the error says, as a text.
    pub fn to_string(&self) -> (r: String)
        ensures
            r@ == self.kind_view().message(),
    {
        self.kind().to_string()
    }
}

/// An element that is no breakpoint stands where a breakpoint is read.
#[derive(Debug, Clone, Copy, PartialEq, Eq, Structural)]
pub struct InvalidBreakpointNode;

impl DslFormatError for InvalidBreakpointNode {
    open spec fn kind_view(&self) -> DslFormatErrorKindView {
        DslFormatErrorKindView::InvalidBreakpointNode
    }

    fn kind(&self) -> (r: DslFormatErrorKind) {
        DslFormatErrorKind::InvalidBreakpointNode
    }

    fn singleton(&self) -> (r: DslFormatErrorList) {
        DslFormatErrorList::from_kind(DslFormatErrorKind::InvalidBreakpointNode)
    }
}

impl InvalidBreakpointNode {
    /// What the error says, as a text.
    pub fn to_string(&self) -> (r: String)
        ensures
            r@ == self.kind_view().message(),
    {
        self.kind().to_string()
    }
}

/// A breakpoint has no `role`, or one that names no role.
#[derive(Debug, Clone, Copy, PartialEq, Eq, Structural)]
pub struct InvalidBreakpointAttribute;

impl DslFormatError for InvalidBreakpointAttribute {
    open spec fn kind_view(&self) -> DslFormatErrorKindView {
        DslFormatErrorKindView::InvalidBreakpointAttribute
    }

    fn kind(&self) -> (r: DslFormatErrorKind) {
        DslFormatErrorKind::InvalidBreakpointAttribute
    }

    fn singleton(&self) -> (r: DslFormatErrorList) {
        DslFormatErrorList::from_kind(DslFormatErrorKind::InvalidBreakpointAttribute)
    }
}

impl InvalidBreakpointAttribute {
    /// What the error says, as a text.
    pub fn to_string(&self) -> (r: String)
        ensures
            r@ == self.kind_view().message(),
    {
        self.kind().to_string()
    }
}

/// An element that is no change of parameters stands where one is read.
#[derive(Debug, Clone, Copy, PartialEq, Eq, Structural)]
pub struct InvalidSetNode;

impl DslFormatError for InvalidSetNode {
    open spec fn kind_view(&self) -> DslFormatErrorKindView {
        DslFormatErrorKindView::InvalidSetNode
    }

    fn kind(&self) -> (r: DslFormatErrorKind) {
        DslFormatErrorKind::InvalidSetNode
    }

    fn singleton(&self) -> (r: DslFormatErrorList) {
        DslFormatErrorList::from_kind(DslFormatErrorKind::InvalidSetNode)
    }
}

impl InvalidSetNode {
    /// What the error says, as a text.
    pub fn to_string(&self) -> (r: String)
        ensures
            r@ == self.kind_view().message(),
    {
        self.kind().to_string()
    }
}

/// A change of parameters gives a parameter a value that cannot be read.
#[derive(Debug, Clone, Copy, PartialEq, Eq, Structural)]
pub struct InvalidSetAttribute(pub InvalidAttribute);

impl DslFormatError for InvalidSetAttribute {
    open spec fn kind_view(&self) -> DslFormatErrorKindView {
        DslFormatErrorKindView::InvalidSetAttribute(self.0)
    }

    fn kind(&self) -> (r: DslFormatErrorKind) {
        DslFormatErrorKind::InvalidSetAttribute(self.0)
    }

    fn singleton(&self) -> (r: DslFormatErrorList) {
        DslFormatErrorList::from_kind(DslFormatErrorKind::InvalidSetAttribute(self.0))
    }
}

impl InvalidSetAttribute {
    /// What the error says, as a text.
    pub fn to_string(&self) -> (r: String)
        ensures
            r@ == self.kind_view().message(),
    {
        self.kind().to_string()
    }
}

/// An element that is no step of a script stands inside a prompt.
#[derive(Debug, Clone, Copy, PartialEq, Eq, Structural)]
pub struct InvalidPromptChild;

impl DslFormatError for InvalidPromptChild {
    open spec fn kind_view(&self) -> DslFormatErrorKindView {
        DslFormatErrorKindView::InvalidPromptChild
    }

    fn kind(&self) -> (r: DslFormatErrorKind) {
        DslFormatErrorKind::InvalidPromptChild
    }

    fn singleton(&self) -> (r: DslFormatErrorList) {
        DslFormatErrorList::from_kind(DslFormatErrorKind::InvalidPromptChild)
    }
}

impl InvalidPromptChild {
    /// What the error says, as a text.
    pub fn to_string(&self) -> (r: String)
        ensures
            r@ == self.kind_view().message(),
    {
        self.kind().to_string()
    }
}

/// An element that is no prompt stands where a prompt is read.
#[derive(Debug, Clone, Copy, PartialEq, Eq, Structural)]
pub struct InvalidPromptNode;

impl DslFormatError for InvalidPromptNode {
    open spec fn kind_view(&self) -> DslFormatErrorKindView {
        DslFormatErrorKindView::InvalidPromptNode
    }

    fn kind(&self) -> (r: DslFormatErrorKind) {
        DslFormatErrorKind::InvalidPromptNode
    }

    fn singleton(&self) -> (r: DslFormatErrorList) {
        DslFormatErrorList::from_kind(DslFormatErrorKind::InvalidPromptNode)
    }
}

impl InvalidPromptNode {
    /// What the error says, as a text.
    pub fn to_string(&self) -> (r: String)
        ensures
            r@ == self.kind_view().message(),
    {
        self.kind().to_string()
    }
}

/// A prompt has no `name`.
#[derive(Debug, Clone, Copy, PartialEq, Eq, Structural)]
pub struct InvalidPromptMissingName;

impl DslFormatError for InvalidPromptMissingName {
    open spec fn kind_view(&self) -> DslFormatErrorKindView {
        DslFormatErrorKindView::InvalidPromptMissingName
    }

    fn kind(&self) -> (r: DslFormatErrorKind) {
        DslFormatErrorKind::InvalidPromptMissingName
    }

    fn singleton(&self) -> (r: DslFormatErrorList) {
        DslFormatErrorList::from_kind(DslFormatErrorKind::InvalidPromptMissingName)
    }
}

impl InvalidPromptMissingName {
    /// What the error says, as a text.
    pub fn to_string(&self) -> (r: String)
        ensures
            r@ == self.kind_view().message(),
    {
        self.kind().to_string()
    }
}

/// A prompt gives a parameter a value that cannot be read, or has an empty name.
#[derive(Debug, Clone, Copy, PartialEq, Eq, Structural)]
pub struct InvalidPromptAttribute(pub InvalidAttribute);

impl DslFormatError for InvalidPromptAttribute {
    open spec fn kind_view(&self) -> DslFormatErrorKindView {
        DslFormatErrorKindView::InvalidPromptAttribute(self.0)
    }

    fn kind(&self) -> (r: DslFormatErrorKind) {
        DslFormatErrorKind::InvalidPromptAttribute(self.0)
    }

    fn singleton(&self) -> (r: DslFormatErrorList) {
        DslFormatErrorList::from_kind(DslFormatErrorKind::InvalidPromptAttribute(self.0))
    }
}

impl InvalidPromptAttribute {
    /// What the error says, as a text.
    pub fn to_string(&self) -> (r: String)
        ensures
            r@ == self.kind_view().message(),
    {
        self.kind().to_string()
    }
}

/// An element that is no prompt stands at the top of a document.
#[derive(Debug, Clone, Copy, PartialEq, Eq, Structural)]
pub struct InvalidDocumentChildNode;

impl DslFormatError for InvalidDocumentChildNode {
    open spec fn kind_view(&self) -> DslFormatErrorKindView {
        DslFormatErrorKindView::InvalidDocumentChildNode
    }

    fn kind(&self) -> (r: DslFormatErrorKind) {
        DslFormatErrorKind::InvalidDocumentChildNode
    }

    fn singleton(&self) -> (r: DslFormatErrorList) {
        DslFormatErrorList::from_kind(DslFormatErrorKind::InvalidDocumentChildNode)
    }
}

impl InvalidDocumentChildNode {
    /// What the error says, as a text.
    pub fn to_string(&self) -> (r: String)
        ensures
            r@ == self.kind_view().message(),
    {
        self.kind().to_string()
    }
}

// ————————————————————————————————————————————————————————————————————————————
// MESSAGE NODE
// ————————————————————————————————————————————————————————————————————————————
/// The key of the attribute that gives a message or a breakpoint its role.
pub open spec fn role_key() -> Seq<char> {
    "role"@
}

/// What an element compiles to where a message is read, or what is wrong
/// with it. A missing role and a role that names none are different errors,
/// and the second carries the text that was given.
pub open spec fn compile_msg(element: ElementView) -> Result<
    MsgNodeView,
    Seq<DslFormatErrorKindView>,
> {
    if !tag_matches(MsgNode::tag_name(), element.tag) {
        Err(seq![DslFormatErrorKindView::InvalidMessageNode])
    } else if !element.attributes.contains_key(role_key()) {
        Err(seq![DslFormatErrorKindView::InvalidMessageMissingRole])
    } else {
        match MessageRole::parse(element.attributes[role_key()]) {
            Some(role) => Ok(
                MsgNodeView { role, breakpoint_mode: false, children: element.children },
            ),
            None => Err(
                seq![
                    DslFormatErrorKindView::InvalidMessageAttribute(
                        element.attributes[role_key()],
                    ),
                ],
            ),
        }
    }
}

impl MsgNode {
    /// Compiles a message. Its body is taken over as it is.
    pub fn from_element(element: Element) -> (r: Result<Self, DslFormatErrorList>)
        ensures
            match r {
                Ok(node) => compile_msg(element@) == Ok::<
                    MsgNodeView,
                    Seq<DslFormatErrorKindView>,
                >(node@),
                Err(errors) => compile_msg(element@) == Err::<
                    MsgNodeView,
                    Seq<DslFormatErrorKindView>,
                >(errors@),
            },
    {
        if !Self::matches(&element.tag) {
            return Err(DslFormatErrorList::new(Rc::new(InvalidMessageNode)));
        }
        let role = match element.attributes.get("role") {
            Some(role) => role,
            None => {
                return Err(InvalidMessageMissingRole.singleton());
            },
        };
        let role = match MessageRole::from_str(role.as_str()) {
            Ok(role) => role,
            Err(error) => {
                return Err(InvalidMessageAttribute(error).singleton());
            },
        };
        let children = element.children;
        Ok(Self { role, breakpoint_mode: false, children })
    }
}

// ————————————————————————————————————————————————————————————————————————————
// BREAKPOINT NODE
// ————————————————————————————————————————————————————————————————————————————
/// What an element compiles to where a breakpoint is read, or what is wrong
/// with it. A breakpoint has a role, read as that of a message, and no body.
pub open spec fn compile_breakpoint(element: ElementView) -> Result<
    BreakpointNode,
    Seq<DslFormatErrorKindView>,
> {
    if !tag_matches(BreakpointNode::tag_name(), element.tag) {
        Err(seq![DslFormatErrorKindView::InvalidBreakpointNode])
    } else if !element.attributes.contains_key(role_key()) {
        Err(seq![DslFormatErrorKindView::InvalidBreakpointAttribute])
    } else {
        match MessageRole::parse(element.attributes[role_key()]) {
            Some(role) => Ok(BreakpointNode { role }),
            None => Err(seq![DslFormatErrorKindView::InvalidBreakpointAttribute]),
        }
    }
}

impl BreakpointNode {
    /// Compiles a breakpoint.
    pub fn from_element(element: Element) -> (r: Result<Self, DslFormatErrorList>)
        ensures
            match r {
                Ok(node) => compile_breakpoint(element@) == Ok::<
                    BreakpointNode,
                    Seq<DslFormatErrorKindView>,
                >(node),
                Err(errors) => compile_breakpoint(element@) == Err::<
                    BreakpointNode,
                    Seq<DslFormatErrorKindView>,
                >(errors@),
            },
    {
        if !Self::matches(&element.tag) {
            return Err(DslFormatErrorList::new(Rc::new(InvalidBreakpointNode)));
        }
        let role = match element.attributes.get("role") {
            Some(role) => role,
            None => {
                return Err(InvalidBreakpointAttribute.singleton());
            },
        };
        let role = match MessageRole::from_str(role.as_str()) {
            Ok(role) => role,
            Err(_) => {
                return Err(InvalidBreakpointAttribute.singleton());
            },
        };
        Ok(Self { role })
    }
}

// ————————————————————————————————————————————————————————————————————————————
// SET NODE
// ————————————————————————————————————————————————————————————————————————————
/// One error of a change of parameters for each parameter that could not be
/// read.
pub open spec fn set_attribute_errors(fields: Seq<InvalidAttribute>) -> Seq<
    DslFormatErrorKindView,
> {
    Seq::new(fields.len(), |i: int| DslFormatErrorKindView::InvalidSetAttribute(fields[i]))
}

/// What an element compiles to where a change of parameters is read, or what
/// is wrong with it. Attributes that name no parameter are passed over; each
/// parameter whose value cannot be read is an error of its own.
pub open spec fn compile_set(element: ElementView) -> Result<
    PromptSettingsView,
    Seq<DslFormatErrorKindView>,
> {
    if !tag_matches(SetNode::tag_name(), element.tag) {
        Err(seq![DslFormatErrorKindView::InvalidSetNode])
    } else {
        let fields = attribute_errors(element.attributes, setting_key_names());
        if fields.len() == 0 {
            Ok(settings_of(element.attributes, setting_key_names()))
        } else {
            Err(set_attribute_errors(fields))
        }
    }
}

impl SetNode {
    /// Compiles a change of parameters.
    pub fn from_element(element: Element) -> (r: Result<Self, DslFormatErrorList>)
        ensures
            match r {
                Ok(node) => compile_set(element@) == Ok::<
                    PromptSettingsView,
                    Seq<DslFormatErrorKindView>,
                >(node@),
                Err(errors) => compile_set(element@) == Err::<
                    PromptSettingsView,
                    Seq<DslFormatErrorKindView>,
                >(errors@),
            },
    {
        if !Self::matches(&element.tag) {
            return Err(DslFormatErrorList::new(Rc::new(InvalidSetNode)));
        }
        let (prompt_settings, fields) = PromptSettings::from_attributes(&element.attributes);
        if fields.len() == 0 {
            return Ok(Self { prompt_settings });
        }
        let mut errors = DslFormatErrorList::with_capacity(fields.len());
        let mut i: usize = 0;
        while i < fields.len()
            invariant
                i <= fields.len(),
                errors@ == set_attribute_errors(fields@.take(i as int)),
            decreases fields.len() - i,
        {
            errors.push(Rc::new(InvalidSetAttribute(fields[i])));
            i = i + 1;
        }
        assert(fields@.take(fields.len() as int) =~= fields@);
        Err(errors)
    }
}

// ————————————————————————————————————————————————————————————————————————————
// PROMPT CHILD
// ————————————————————————————————————————————————————————————————————————————
/// What an element compiles to as a step of a script, or what is wrong with
/// it. The tag decides which step is read; an element with any other tag is
/// an error.
pub open spec fn compile_child(element: ElementView) -> Result<
    PromptChildNodeView,
    Seq<DslFormatErrorKindView>,
> {
    if tag_matches(MsgNode::tag_name(), element.tag) {
        match compile_msg(element) {
            Ok(node) => Ok(PromptChildNodeView::Msg(node)),
            Err(errors) => Err(errors),
        }
    } else if tag_matches(BreakpointNode::tag_name(), element.tag) {
        match compile_breakpoint(element) {
            Ok(node) => Ok(PromptChildNodeView::Breakpoint(node)),
            Err(errors) => Err(errors),
        }
    } else if tag_matches(SetNode::tag_name(), element.tag) {
        match compile_set(element) {
            Ok(node) => Ok(PromptChildNodeView::Settings(node)),
            Err(errors) => Err(errors),
        }
    } else {
        Err(seq![DslFormatErrorKindView::InvalidPromptChild])
    }
}

impl PromptChildNode {
    /// Compiles one step of a script.
    pub fn from_element(element: Element) -> (r: Result<Self, DslFormatErrorList>)
        ensures
            match r {
                Ok(node) => compile_child(element@) == Ok::<
                    PromptChildNodeView,
                    Seq<DslFormatErrorKindView>,
                >(node@),
                Err(errors) => compile_child(element@) == Err::<
                    PromptChildNodeView,
                    Seq<DslFormatErrorKindView>,
                >(errors@),
            },
    {
        if MsgNode::matches(&element.tag) {
            return match MsgNode::from_element(element) {
                Ok(node) => Ok(Self::Msg(node)),
                Err(errors) => Err(errors),
            };
        }
        if BreakpointNode::matches(&element.tag) {
            return match BreakpointNode::from_element(element) {
                Ok(node) => Ok(Self::Breakpoint(node)),
                Err(errors) => Err(errors),
            };
        }
        if SetNode::matches(&element.tag) {
            return match SetNode::from_element(element) {
                Ok(node) => Ok(Self::Settings(node)),
                Err(errors) => Err(errors),
            };
        }
        Err(DslFormatErrorList::new(Rc::new(InvalidPromptChild)))
    }
}

// ————————————————————————————————————————————————————————————————————————————
// PROMPT
// ————————————————————————————————————————————————————————————————————————————
/// The errors of `result`, if it is one.
pub open spec fn errors_of<T>(result: Result<T, Seq<DslFormatErrorKindView>>) -> Seq<
    DslFormatErrorKindView,
> {
    match result {
        Ok(_) => Seq::empty(),
        Err(errors) => errors,
    }
}

/// The errors of all the elements as steps of a script, in the order of the
/// elements: none of them is left out, and none ends the search.
pub open spec fn child_errors(elements: Seq<ElementView>) -> Seq<DslFormatErrorKindView>
    decreases elements.len(),
{
    if elements.len() == 0 {
        Seq::empty()
    } else {
        child_errors(elements.drop_last()) + errors_of(compile_child(elements.last()))
    }
}

/// The steps that the elements compile to, in the order of the elements, with
/// the elements that are in error left out.
pub open spec fn child_nodes(elements: Seq<ElementView>) -> Seq<PromptChildNodeView>
    decreases elements.len(),
{
    if elements.len() == 0 {
        Seq::empty()
    } else {
        match compile_child(elements.last()) {
            Ok(node) => child_nodes(elements.drop_last()).push(node),
            Err(_) => child_nodes(elements.drop_last()),
        }
    }
}

/// One error of a prompt for each parameter that could not be read.
pub open spec fn prompt_attribute_errors(fields: Seq<InvalidAttribute>) -> Seq<
    DslFormatErrorKindView,
> {
    Seq::new(fields.len(), |i: int| DslFormatErrorKindView::InvalidPromptAttribute(fields[i]))
}

/// What is wrong with the name among the settings of a prompt: a prompt must
/// have a name, and the name must not be empty.
pub open spec fn name_errors(settings: PromptSettingsView) -> Seq<DslFormatErrorKindView> {
    match settings.name {
        None => seq![DslFormatErrorKindView::InvalidPromptMissingName],
        Some(name) => if name.len() == 0 {
            seq![DslFormatErrorKindView::InvalidPromptAttribute(InvalidAttribute::Name)]
        } else {
            Seq::empty()
        },
    }
}

/// All that is wrong with an element that has the tag of a prompt: first the
/// parameters that cannot be read, then the name, then the errors of its
/// children.
pub open spec fn prompt_errors(element: ElementView) -> Seq<DslFormatErrorKindView> {
    prompt_attribute_errors(attribute_errors(element.attributes, setting_key_names()))
        + name_errors(settings_of(element.attributes, setting_key_names())) + child_errors(
        elements_of(element.children),
    )
}

/// What an element compiles to where a prompt is read, or what is wrong with
/// it. A prompt compiles only if nothing at all is wrong with it and with
/// its children.
pub open spec fn compile_prompt(element: ElementView) -> Result<
    PromptNodeView,
    Seq<DslFormatErrorKindView>,
> {
    if !tag_matches(PromptNode::tag_name(), element.tag) {
        Err(seq![DslFormatErrorKindView::InvalidPromptNode])
    } else if prompt_errors(element).len() == 0 {
        Ok(
            PromptNodeView {
                settings: settings_of(element.attributes, setting_key_names()).to_arguments(),
                children: child_nodes(elements_of(element.children)),
            },
        )
    } else {
        Err(prompt_errors(element))
    }
}

impl PromptNode {
    /// Compiles a prompt with its children. Everything that is wrong is
    /// reported, in document order; the first error does not end the search.
    pub fn from_element(element: Element) -> (r: Result<Self, DslFormatErrorList>)
        ensures
            match r {
                Ok(node) => compile_prompt(element@) == Ok::<
                    PromptNodeView,
                    Seq<DslFormatErrorKindView>,
                >(node@),
                Err(errors) => compile_prompt(element@) == Err::<
                    PromptNodeView,
                    Seq<DslFormatErrorKindView>,
                >(errors@),
            },
    {
        if !Self::matches(&element.tag) {
            return Err(DslFormatErrorList::new(Rc::new(InvalidPromptNode)));
        }
        let (prompt_settings, fields) = PromptSettings::from_attributes(&element.attributes);
        let ghost declared = prompt_settings@;
        let mut errors = DslFormatErrorList::with_capacity(fields.len());
        let mut i: usize = 0;
        while i < fields.len()
            invariant
                i <= fields.len(),
                errors@ == prompt_attribute_errors(fields@.take(i as int)),
            decreases fields.len() - i,
        {
            errors.push(Rc::new(InvalidPromptAttribute(fields[i])));
            i = i + 1;
        }
        let prompt_attributes = prompt_settings.build_to_prompt_arguments();
        match &prompt_attributes {
            Some(arguments) => {
                if arguments.name.as_str().unicode_len() == 0 {
                    errors.push(Rc::new(InvalidPromptAttribute(InvalidAttribute::Name)));
                }
            },
            None => {
                errors.push(Rc::new(InvalidPromptMissingName));
            },
        }
        let ghost own = prompt_attribute_errors(fields@) + name_errors(declared);
        let children = element.extract_child_elements();
        let ghost elements = elements_view(children@);
        let mut items: Vec<PromptChildNode> = Vec::new();
        for child in it: children
            invariant
                it.seq() == children@,
                elements == elements_view(children@),
                children_view(items@) == child_nodes(elements.take(it.index() as int)),
                errors@ == own + child_errors(elements.take(it.index() as int)),
        {
            let ghost i = it.index() as int;
            proof {
                assert(elements.take(i + 1).drop_last() =~= elements.take(i));
            }
            match PromptChildNode::from_element(child) {
                Ok(item) => {
                    items.push(item);
                },
                Err(error) => {
                    errors.extend(error);
                },
            }
        }
        assert(elements.take(children@.len() as int) =~= elements);
        if !errors.is_empty() {
            return Err(errors);
        }
        match prompt_attributes {
            Some(settings) => Ok(Self { settings, children: items }),
            None => Err(errors),
        }
    }
}

// ————————————————————————————————————————————————————————————————————————————
// DOCUMENT CHILD NODE
// ————————————————————————————————————————————————————————————————————————————
/// What an element compiles to at the top of a document, or what is wrong
/// with it: a prompt, and nothing else, may stand there.
pub open spec fn compile_document_child(element: ElementView) -> Result<
    PromptNodeView,
    Seq<DslFormatErrorKindView>,
> {
    if tag_matches(PromptNode::tag_name(), element.tag) {
        compile_prompt(element)
    } else {
        Err(seq![DslFormatErrorKindView::InvalidDocumentChildNode])
    }
}

impl DocumentChildCode {
    /// Compiles one element at the top of a document.
    pub fn from_element(element: Element) -> (r: Result<Self, DslFormatErrorList>)
        ensures
            match r {
                Ok(node) => compile_document_child(element@) == Ok::<
                    PromptNodeView,
                    Seq<DslFormatErrorKindView>,
                >(node@),
                Err(errors) => compile_document_child(element@) == Err::<
                    PromptNodeView,
                    Seq<DslFormatErrorKindView>,
                >(errors@),
            },
    {
        if PromptNode::matches(&element.tag) {
            return match PromptNode::from_element(element) {
                Ok(prompt) => Ok(DocumentChildCode::Prompt(prompt)),
                Err(errors) => Err(errors),
            };
        }
        Err(DslFormatErrorList::new(Rc::new(InvalidDocumentChildNode)))
    }
}

// ————————————————————————————————————————————————————————————————————————————
// DOCUMENT
// ————————————————————————————————————————————————————————————————————————————
/// The errors of all the elements at the top of a document, in the order of
/// the elements: none of them is left out, and none ends the search.
pub open spec fn document_errors(elements: Seq<ElementView>) -> Seq<DslFormatErrorKindView>
    decreases elements.len(),
{
    if elements.len() == 0 {
        Seq::empty()
    } else {
        document_errors(elements.drop_last()) + errors_of(
            compile_document_child(elements.last()),
        )
    }
}

/// The prompts that the elements compile to, in the order of the elements,
/// with the elements that are in error left out.
pub open spec fn document_prompts(elements: Seq<ElementView>) -> Seq<PromptNodeView>
    decreases elements.len(),
{
    if elements.len() == 0 {
        Seq::empty()
    } else {
        match compile_document_child(elements.last()) {
            Ok(prompt) => document_prompts(elements.drop_last()).push(prompt),
            Err(_) => document_prompts(elements.drop_last()),
        }
    }
}

/// What the nodes at the top of a document compile to, or what is wrong with
/// them. Fragments are resolved and text between the elements is passed
/// over; each element has to be a prompt. The document compiles only if
/// nothing at all is wrong in it.
pub open spec fn compile_document(nodes: Seq<NodeView>) -> Result<
    DocumentNodeView,
    Seq<DslFormatErrorKindView>,
> {
    let elements = elements_of(nodes);
    if document_errors(elements).len() == 0 {
        Ok(DocumentNodeView { children: document_prompts(elements) })
    } else {
        Err(document_errors(elements))
    }
}

impl DocumentNode {
    /// Compiles the nodes at the top of a document. Everything that is wrong
    /// is reported, in document order; the first error does not end the
    /// search.
    pub fn from_fragment(fragment: Fragment) -> (r: Result<Self, DslFormatErrorList>)
        ensures
            match r {
                Ok(node) => compile_document(fragment@) == Ok::<
                    DocumentNodeView,
                    Seq<DslFormatErrorKindView>,
                >(node@),
                Err(errors) => compile_document(fragment@) == Err::<
                    DocumentNodeView,
                    Seq<DslFormatErrorKindView>,
                >(errors@),
            },
    {
        let mut errors = DslFormatErrorList::with_capacity(fragment.len());
        let children = fragment.extract_elements();
        let ghost elements = elements_view(children@);
        let mut items: Vec<DocumentChildCode> = Vec::new();
        for child in it: children
            invariant
                it.seq() == children@,
                elements == elements_view(children@),
                prompts_view(items@) == document_prompts(elements.take(it.index() as int)),
                errors@ == document_errors(elements.take(it.index() as int)),
        {
            let ghost i = it.index() as int;
            proof {
                assert(elements.take(i + 1).drop_last() =~= elements.take(i));
            }
            match DocumentChildCode::from_element(child) {
                Ok(item) => {
                    items.push(item);
                },
                Err(error) => {
                    errors.extend(error);
                },
            }
        }
        assert(elements.take(children@.len() as int) =~= elements);
        if !errors.is_empty() {
            return Err(errors);
        }
        Ok(Self { children: items })
    }

    /// Compiles a document from the root of its markup tree.
    pub fn from_node(node: Node) -> (r: Result<Self, DslFormatErrorList>)
        ensures
            match r {
                Ok(document) => compile_document(flatten(node@)) == Ok::<
                    DocumentNodeView,
                    Seq<DslFormatErrorKindView>,
                >(document@),
                Err(errors) => compile_document(flatten(node@)) == Err::<
                    DocumentNodeView,
                    Seq<DslFormatErrorKindView>,
                >(errors@),
            },
    {
        Self::from_fragment(Fragment::from_nodes(node.flatten()))
    }
}

// ————————————————————————————————————————————————————————————————————————————
// LAWS
// ————————————————————————————————————————————————————————————————————————————
/// How many of the elements do not compile as prompts.
pub open spec fn document_failures(elements: Seq<ElementView>) -> nat
    decreases elements.len(),
{
    if elements.len() == 0 {
        0
    } else if compile_document_child(elements.last()) is Err {
        document_failures(elements.drop_last()) + 1
    } else {
        document_failures(elements.drop_last())
    }
}

/// How many of the elements do not compile as steps of a script.
pub open spec fn child_failures(elements: Seq<ElementView>) -> nat
    decreases elements.len(),
{
    if elements.len() == 0 {
        0
    } else if compile_child(elements.last()) is Err {
        child_failures(elements.drop_last()) + 1
    } else {
        child_failures(elements.drop_last())
    }
}

/// An element that does not compile as a step of a script has at least one
/// error.
pub proof fn lemma_child_error_not_empty(element: ElementView)
    requires
        compile_child(element) is Err,
    ensures
        errors_of(compile_child(element)).len() >= 1,
{
}

/// An element that does not compile as a prompt has at least one error.
pub proof fn lemma_document_child_error_not_empty(element: ElementView)
    requires
        compile_document_child(element) is Err,
    ensures
        errors_of(compile_document_child(element)).len() >= 1,
{
}

/// A prompt that compiles has a name that is not empty, and as many steps as
/// it has elements among its children.
pub proof fn lemma_compiled_prompt(element: ElementView)
    requires
        compile_prompt(element) is Ok,
    ensures
        compile_prompt(element)->Ok_0.settings.name.len() > 0,
        child_failures(elements_of(element.children)) == 0,
        compile_prompt(element)->Ok_0.children.len() == elements_of(element.children).len(),
{
    lemma_children_report_every_failure(elements_of(element.children));
}

/// The errors of the children of a prompt account for every child that does
/// not compile: there is at least one error for each, the errors of each
/// child stand together in the list, and the children stand in it in document
/// order. Only where no child fails are there as many steps as elements.
pub proof fn lemma_children_report_every_failure(elements: Seq<ElementView>)
    ensures
        child_errors(elements).len() >= child_failures(elements),
        child_failures(elements) == 0 <==> child_errors(elements).len() == 0,
        child_nodes(elements).len() + child_failures(elements) == elements.len(),
        forall|i: int|
            0 <= i < elements.len() ==> {
                let at = #[trigger] child_errors(elements.take(i)).len() as int;
                let own = errors_of(compile_child(elements[i]));
                &&& at + own.len() <= child_errors(elements).len()
                &&& child_errors(elements).subrange(at, at + own.len()) == own
            },
    decreases elements.len(),
{
    if elements.len() > 0 {
        let before = elements.drop_last();
        lemma_children_report_every_failure(before);
        if compile_child(elements.last()) is Err {
            lemma_child_error_not_empty(elements.last());
        }
        assert forall|i: int| 0 <= i < elements.len() implies {
            let at = #[trigger] child_errors(elements.take(i)).len() as int;
            let own = errors_of(compile_child(elements[i]));
            &&& at + own.len() <= child_errors(elements).len()
            &&& child_errors(elements).subrange(at, at + own.len()) == own
        } by {
            if i < elements.len() - 1 {
                assert(before.take(i) =~= elements.take(i));
            }
        }
    }
}

/// A prompt with children that do not compile never compiles: it fails with
/// a list of errors that has at least one error for each such child, after
/// the errors of the prompt itself, whatever the number of its sound
/// children.
pub proof fn lemma_prompt_reports_every_failure(element: ElementView)
    requires
        tag_matches(PromptNode::tag_name(), element.tag),
    ensures
        child_failures(elements_of(element.children)) > 0 ==> compile_prompt(element) is Err,
        compile_prompt(element) matches Err(errors) ==> errors == prompt_errors(element)
            && errors.len() >= child_failures(elements_of(element.children)),
{
    lemma_children_report_every_failure(elements_of(element.children));
}

/// The errors of a document account for every element that does not compile
/// as a prompt: there is at least one error for each, the errors of each
/// element stand together in the list, and the elements stand in it in
/// document order. Only where no element fails are there as many prompts as
/// elements.
pub proof fn lemma_elements_report_every_failure(elements: Seq<ElementView>)
    ensures
        document_errors(elements).len() >= document_failures(elements),
        document_failures(elements) == 0 <==> document_errors(elements).len() == 0,
        document_prompts(elements).len() + document_failures(elements) == elements.len(),
        forall|i: int|
            0 <= i < elements.len() ==> {
                let at = #[trigger] document_errors(elements.take(i)).len() as int;
                let own = errors_of(compile_document_child(elements[i]));
                &&& at + own.len() <= document_errors(elements).len()
                &&& document_errors(elements).subrange(at, at + own.len()) == own
            },
    decreases elements.len(),
{
    if elements.len() > 0 {
        let before = elements.drop_last();
        lemma_elements_report_every_failure(before);
        if compile_document_child(elements.last()) is Err {
            lemma_document_child_error_not_empty(elements.last());
        }
        assert forall|i: int| 0 <= i < elements.len() implies {
            let at = #[trigger] document_errors(elements.take(i)).len() as int;
            let own = errors_of(compile_document_child(elements[i]));
            &&& at + own.len() <= document_errors(elements).len()
            &&& document_errors(elements).subrange(at, at + own.len()) == own
        } by {
            if i < elements.len() - 1 {
                assert(before.take(i) =~= elements.take(i));
            }
        }
    }
}

/// A document with elements that do not compile never compiles: it fails
/// with a list of errors that has at least one error for each such element,
/// whatever the number of its sound siblings. A document without such an
/// element compiles, to as many prompts as it has elements.
pub proof fn lemma_document_reports_every_failure(nodes: Seq<NodeView>)
    ensures
        document_failures(elements_of(nodes)) > 0 <==> compile_document(nodes) is Err,
        compile_document(nodes) matches Err(errors) ==> errors.len() >= document_failures(
            elements_of(nodes),
        ) && errors == document_errors(elements_of(nodes)),
        compile_document(nodes) matches Ok(document) ==> document.children.len() == elements_of(
            nodes,
        ).len(),
{
    lemma_elements_report_every_failure(elements_of(nodes));
}

} // verus!
