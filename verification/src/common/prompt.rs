use vstd::prelude::*;

use super::Integer;
use super::Number;
use crate::markup::AttributeMap;
use crate::text::ascii_lowercase;
use crate::text::char_ascii_lower;
use crate::text::chars_of;
use crate::text::is_number_literal;
use crate::text::parse_bool;
use crate::text::parse_boolean;
use crate::text::parse_integer;
use crate::text::parse_isize;
use crate::text::str_eq;
use crate::text::trim;
use crate::text::trimmed;
use std::str::FromStr;

verus! {

// ————————————————————————————————————————————————————————————————————————————
// ATTRIBUTE TYPES
// ————————————————————————————————————————————————————————————————————————————
/// The model that is asked.
#[derive(Debug)]
pub struct Model(pub String);

/// The sampling temperature.
#[derive(Debug)]
pub struct Temperature(pub Number);

/// How many choices the backend is asked for.
#[derive(Debug, Clone, Copy, PartialEq, Eq, Structural)]
pub struct N(pub Integer);

/// The limit on the length of an answer, in tokens.
#[derive(Debug, Clone, Copy, PartialEq, Eq, Structural)]
pub struct MaxTokens(pub Integer);

/// The share of the probability mass that sampling keeps to.
#[derive(Debug)]
pub struct TopP(pub Number);

/// The penalty on tokens by how often they have occurred.
#[derive(Debug)]
pub struct FrequencyPenalty(pub Number);

/// The penalty on tokens that have occurred at all.
#[derive(Debug)]
pub struct PresencePenalty(pub Number);

/// Whether the backend reports the log probabilities of its tokens.
#[derive(Debug, Clone, Copy, PartialEq, Eq, Structural)]
pub struct Logprobs(pub bool);

/// For how many of the most likely tokens log probabilities are reported.
#[derive(Debug, Clone, Copy, PartialEq, Eq, Structural)]
pub struct TopLogprobs(pub Integer);

/// The shape in which the backend is asked to answer.
#[derive(Debug, Clone, Copy, PartialEq, Eq, Structural)]
pub struct ResponseFormat(pub ResponseFormatType);

impl View for Model {
    type V = Seq<char>;

    open spec fn view(&self) -> Seq<char> {
        self.0@
    }
}

impl Clone for Model {
    fn clone(&self) -> (r: Self)
        ensures
            r@ == self@,
    {
        Model(self.0.clone())
    }
}

impl View for Temperature {
    type V = Seq<char>;

    open spec fn view(&self) -> Seq<char> {
        self.0@
    }
}

impl Clone for Temperature {
    fn clone(&self) -> (r: Self)
        ensures
            r@ == self@,
    {
        Temperature(self.0.clone())
    }
}

impl View for TopP {
    type V = Seq<char>;

    open spec fn view(&self) -> Seq<char> {
        self.0@
    }
}

impl Clone for TopP {
    fn clone(&self) -> (r: Self)
        ensures
            r@ == self@,
    {
        TopP(self.0.clone())
    }
}

impl View for FrequencyPenalty {
    type V = Seq<char>;

    open spec fn view(&self) -> Seq<char> {
        self.0@
    }
}

impl Clone for FrequencyPenalty {
    fn clone(&self) -> (r: Self)
        ensures
            r@ == self@,
    {
        FrequencyPenalty(self.0.clone())
    }
}

impl View for PresencePenalty {
    type V = Seq<char>;

    open spec fn view(&self) -> Seq<char> {
        self.0@
    }
}

impl Clone for PresencePenalty {
    fn clone(&self) -> (r: Self)
        ensures
            r@ == self@,
    {
        PresencePenalty(self.0.clone())
    }
}

impl Model {
    /// Any text names a model.
    pub fn from_str(s: &str) -> (r: Result<Model, InvalidModelAttribute>)
        ensures
            r matches Ok(model) && model@ == s@,
    {
        Ok(Self(s.to_owned()))
    }
}

impl Temperature {
    /// Reads a number literal.
    pub fn from_str(s: &str) -> (r: Result<Temperature, InvalidTemperatureAttribute>)
        ensures
            r is Ok <==> is_number_literal(s@),
            r matches Ok(value) ==> value@ == s@,
    {
        match Number::from_str(s) {
            Ok(number) => Ok(Self(number)),
            Err(_) => Err(InvalidTemperatureAttribute),
        }
    }
}

impl TopP {
    /// Reads a number literal.
    pub fn from_str(s: &str) -> (r: Result<TopP, InvalidTopPAttribute>)
        ensures
            r is Ok <==> is_number_literal(s@),
            r matches Ok(value) ==> value@ == s@,
    {
        match Number::from_str(s) {
            Ok(number) => Ok(Self(number)),
            Err(_) => Err(InvalidTopPAttribute),
        }
    }
}

impl FrequencyPenalty {
    /// Reads a number literal.
    pub fn from_str(s: &str) -> (r: Result<FrequencyPenalty, InvalidFrequencyPenaltyAttribute>)
        ensures
            r is Ok <==> is_number_literal(s@),
            r matches Ok(value) ==> value@ == s@,
    {
        match Number::from_str(s) {
            Ok(number) => Ok(Self(number)),
            Err(_) => Err(InvalidFrequencyPenaltyAttribute),
        }
    }
}

impl PresencePenalty {
    /// Reads a number literal.
    pub fn from_str(s: &str) -> (r: Result<PresencePenalty, InvalidPresencePenaltyAttribute>)
        ensures
            r is Ok <==> is_number_literal(s@),
            r matches Ok(value) ==> value@ == s@,
    {
        match Number::from_str(s) {
            Ok(number) => Ok(Self(number)),
            Err(_) => Err(InvalidPresencePenaltyAttribute),
        }
    }
}

impl N {
    /// Reads an integer in base ten.
    pub fn from_str(s: &str) -> (r: Result<N, InvalidNAttribute>)
        ensures
            match r {
                Ok(value) => parse_integer(s@) == Some(value.0 as int),
                Err(_) => parse_integer(s@) is None,
            },
    {
        match parse_isize(s) {
            Some(value) => Ok(Self(value)),
            None => Err(InvalidNAttribute),
        }
    }
}

impl MaxTokens {
    /// Reads an integer in base ten.
    pub fn from_str(s: &str) -> (r: Result<MaxTokens, InvalidMaxTokensAttribute>)
        ensures
            match r {
                Ok(value) => parse_integer(s@) == Some(value.0 as int),
                Err(_) => parse_integer(s@) is None,
            },
    {
        match parse_isize(s) {
            Some(value) => Ok(Self(value)),
            None => Err(InvalidMaxTokensAttribute),
        }
    }
}

impl TopLogprobs {
    /// Reads an integer in base ten.
    pub fn from_str(s: &str) -> (r: Result<TopLogprobs, InvalidTopLogprobsAttribute>)
        ensures
            match r {
                Ok(value) => parse_integer(s@) == Some(value.0 as int),
                Err(_) => parse_integer(s@) is None,
            },
    {
        match parse_isize(s) {
            Some(value) => Ok(Self(value)),
            None => Err(InvalidTopLogprobsAttribute),
        }
    }
}

impl Logprobs {
    /// Reads `true` or `false`.
    pub fn from_str(s: &str) -> (r: Result<Logprobs, InvalidLogprobsAttribute>)
        ensures
            match r {
                Ok(value) => parse_boolean(s@) == Some(value.0),
                Err(_) => parse_boolean(s@) is None,
            },
    {
        match parse_bool(s) {
            Some(value) => Ok(Self(value)),
            None => Err(InvalidLogprobsAttribute),
        }
    }
}

impl ResponseFormat {
    /// Reads the name of a response format.
    pub fn from_str(s: &str) -> (r: Result<ResponseFormat, InvalidResponseFormatAttribute>)
        ensures
            match r {
                Ok(value) => ResponseFormatType::parse(s@) == Some(value.0),
                Err(_) => ResponseFormatType::parse(s@) is None,
            },
    {
        match ResponseFormatType::from_str(s) {
            Ok(value) => Ok(Self(value)),
            Err(_) => Err(InvalidResponseFormatAttribute),
        }
    }
}

impl FromStr for Model {
    type Err = InvalidModelAttribute;

    fn from_str(s: &str) -> (r: Result<Self, Self::Err>)
        ensures
            r matches Ok(model) && model@ == s@,
    {
        Model::from_str(s)
    }
}

impl FromStr for Temperature {
    type Err = InvalidTemperatureAttribute;

    fn from_str(s: &str) -> (r: Result<Self, Self::Err>)
        ensures
            r is Ok <==> is_number_literal(s@),
            r matches Ok(value) ==> value@ == s@,
    {
        Temperature::from_str(s)
    }
}

impl FromStr for N {
    type Err = InvalidNAttribute;

    fn from_str(s: &str) -> (r: Result<Self, Self::Err>)
        ensures
            match r {
                Ok(value) => parse_integer(s@) == Some(value.0 as int),
                Err(_) => parse_integer(s@) is None,
            },
    {
        N::from_str(s)
    }
}

impl FromStr for MaxTokens {
    type Err = InvalidMaxTokensAttribute;

    fn from_str(s: &str) -> (r: Result<Self, Self::Err>)
        ensures
            match r {
                Ok(value) => parse_integer(s@) == Some(value.0 as int),
                Err(_) => parse_integer(s@) is None,
            },
    {
        MaxTokens::from_str(s)
    }
}

impl FromStr for TopP {
    type Err = InvalidTopPAttribute;

    fn from_str(s: &str) -> (r: Result<Self, Self::Err>)
        ensures
            r is Ok <==> is_number_literal(s@),
            r matches Ok(value) ==> value@ == s@,
    {
        TopP::from_str(s)
    }
}

impl FromStr for FrequencyPenalty {
    type Err = InvalidFrequencyPenaltyAttribute;

    fn from_str(s: &str) -> (r: Result<Self, Self::Err>)
        ensures
            r is Ok <==> is_number_literal(s@),
            r matches Ok(value) ==> value@ == s@,
    {
        FrequencyPenalty::from_str(s)
    }
}

impl FromStr for PresencePenalty {
    type Err = InvalidPresencePenaltyAttribute;

    fn from_str(s: &str) -> (r: Result<Self, Self::Err>)
        ensures
            r is Ok <==> is_number_literal(s@),
            r matches Ok(value) ==> value@ == s@,
    {
        PresencePenalty::from_str(s)
    }
}

impl FromStr for Logprobs {
    type Err = InvalidLogprobsAttribute;

    fn from_str(s: &str) -> (r: Result<Self, Self::Err>)
        ensures
            match r {
                Ok(value) => parse_boolean(s@) == Some(value.0),
                Err(_) => parse_boolean(s@) is None,
            },
    {
        Logprobs::from_str(s)
    }
}

impl FromStr for TopLogprobs {
    type Err = InvalidTopLogprobsAttribute;

    fn from_str(s: &str) -> (r: Result<Self, Self::Err>)
        ensures
            match r {
                Ok(value) => parse_integer(s@) == Some(value.0 as int),
                Err(_) => parse_integer(s@) is None,
            },
    {
        TopLogprobs::from_str(s)
    }
}

impl FromStr for ResponseFormat {
    type Err = InvalidResponseFormatAttribute;

    fn from_str(s: &str) -> (r: Result<Self, Self::Err>)
        ensures
            match r {
                Ok(value) => ResponseFormatType::parse(s@) == Some(value.0),
                Err(_) => ResponseFormatType::parse(s@) is None,
            },
    {
        ResponseFormat::from_str(s)
    }
}

/// The value given for this parameter cannot be read.
#[derive(Debug, Clone, Copy, PartialEq, Eq, Structural)]
pub struct InvalidModelAttribute;

/// The value given for this parameter cannot be read.
#[derive(Debug, Clone, Copy, PartialEq, Eq, Structural)]
pub struct InvalidStreamAttribute;

/// The value given for this parameter cannot be read.
#[derive(Debug, Clone, Copy, PartialEq, Eq, Structural)]
pub struct InvalidTemperatureAttribute;

/// The value given for this parameter cannot be read.
#[derive(Debug, Clone, Copy, PartialEq, Eq, Structural)]
pub struct InvalidNAttribute;

/// The value given for this parameter cannot be read.
#[derive(Debug, Clone, Copy, PartialEq, Eq, Structural)]
pub struct InvalidMaxTokensAttribute;

/// The value given for this parameter cannot be read.
#[derive(Debug, Clone, Copy, PartialEq, Eq, Structural)]
pub struct InvalidTopPAttribute;

/// The value given for this parameter cannot be read.
#[derive(Debug, Clone, Copy, PartialEq, Eq, Structural)]
pub struct InvalidFrequencyPenaltyAttribute;

/// The value given for this parameter cannot be read.
#[derive(Debug, Clone, Copy, PartialEq, Eq, Structural)]
pub struct InvalidPresencePenaltyAttribute;

/// The value given for this parameter cannot be read.
#[derive(Debug, Clone, Copy, PartialEq, Eq, Structural)]
pub struct InvalidLogprobsAttribute;

/// The value given for this parameter cannot be read.
#[derive(Debug, Clone, Copy, PartialEq, Eq, Structural)]
pub struct InvalidTopLogprobsAttribute;

/// The value given for this parameter cannot be read.
#[derive(Debug, Clone, Copy, PartialEq, Eq, Structural)]
pub struct InvalidResponseFormatAttribute;

impl InvalidModelAttribute {
    /// What the error says.
    pub open spec fn message() -> Seq<char> {
        "InvalidModelAttribute"@
    }

    /// What the error says, as a text.
    pub fn to_string(&self) -> (r: String)
        ensures
            r@ == Self::message(),
    {
        "InvalidModelAttribute".to_owned()
    }
}

impl InvalidStreamAttribute {
    /// What the error says.
    pub open spec fn message() -> Seq<char> {
        "InvalidStreamAttribute"@
    }

    /// What the error says, as a text.
    pub fn to_string(&self) -> (r: String)
        ensures
            r@ == Self::message(),
    {
        "InvalidStreamAttribute".to_owned()
    }
}

impl InvalidTemperatureAttribute {
    /// What the error says.
    pub open spec fn message() -> Seq<char> {
        "InvalidTemperatureAttribute"@
    }

    /// What the error says, as a text.
    pub fn to_string(&self) -> (r: String)
        ensures
            r@ == Self::message(),
    {
        "InvalidTemperatureAttribute".to_owned()
    }
}

impl InvalidNAttribute {
    /// What the error says.
    pub open spec fn message() -> Seq<char> {
        "InvalidNAttribute"@
    }

    /// What the error says, as a text.
    pub fn to_string(&self) -> (r: String)
        ensures
            r@ == Self::message(),
    {
        "InvalidNAttribute".to_owned()
    }
}

impl InvalidMaxTokensAttribute {
    /// What the error says.
    pub open spec fn message() -> Seq<char> {
        "InvalidMaxTokensAttribute"@
    }

    /// What the error says, as a text.
    pub fn to_string(&self) -> (r: String)
        ensures
            r@ == Self::message(),
    {
        "InvalidMaxTokensAttribute".to_owned()
    }
}

impl InvalidTopPAttribute {
    /// What the error says.
    pub open spec fn message() -> Seq<char> {
        "InvalidTopPAttribute"@
    }

    /// What the error says, as a text.
    pub fn to_string(&self) -> (r: String)
        ensures
            r@ == Self::message(),
    {
        "InvalidTopPAttribute".to_owned()
    }
}

impl InvalidFrequencyPenaltyAttribute {
    /// What the error says.
    pub open spec fn message() -> Seq<char> {
        "InvalidFrequencyPenaltyAttribute"@
    }

    /// What the error says, as a text.
    pub fn to_string(&self) -> (r: String)
        ensures
            r@ == Self::message(),
    {
        "InvalidFrequencyPenaltyAttribute".to_owned()
    }
}

impl InvalidPresencePenaltyAttribute {
    /// What the error says.
    pub open spec fn message() -> Seq<char> {
        "InvalidPresencePenaltyAttribute"@
    }

    /// What the error says, as a text.
    pub fn to_string(&self) -> (r: String)
        ensures
            r@ == Self::message(),
    {
        "InvalidPresencePenaltyAttribute".to_owned()
    }
}

impl InvalidLogprobsAttribute {
    /// What the error says.
    pub open spec fn message() -> Seq<char> {
        "InvalidLogprobsAttribute"@
    }

    /// What the error says, as a text.
    pub fn to_string(&self) -> (r: String)
        ensures
            r@ == Self::message(),
    {
        "InvalidLogprobsAttribute".to_owned()
    }
}

impl InvalidTopLogprobsAttribute {
    /// What the error says.
    pub open spec fn message() -> Seq<char> {
        "InvalidTopLogprobsAttribute"@
    }

    /// What the error says, as a text.
    pub fn to_string(&self) -> (r: String)
        ensures
            r@ == Self::message(),
    {
        "InvalidTopLogprobsAttribute".to_owned()
    }
}

impl InvalidResponseFormatAttribute {
    /// What the error says.
    pub open spec fn message() -> Seq<char> {
        "InvalidResponseFormatAttribute"@
    }

    /// What the error says, as a text.
    pub fn to_string(&self) -> (r: String)
        ensures
            r@ == Self::message(),
    {
        "InvalidResponseFormatAttribute".to_owned()
    }
}

// ————————————————————————————————————————————————————————————————————————————
// ATTRIBUTE TYPES - SPECIAL
// ————————————————————————————————————————————————————————————————————————————
/// The shape in which the backend is asked to answer.
#[derive(Debug, Clone, Copy, PartialEq, Eq, Structural)]
pub enum ResponseFormatType {
    JsonObject,
    Text,
}

/// A text that names no response format.
#[derive(Debug, Clone, Copy, PartialEq, Eq, Structural)]
pub struct ParseErrorResponseFormatType;

impl ParseErrorResponseFormatType {
    /// What the error says.
    pub open spec fn message() -> Seq<char> {
        "invalid response format type"@
    }

    /// What the error says, as a text.
    pub fn to_string(&self) -> (r: String)
        ensures
            r@ == Self::message(),
    {
        "invalid response format type".to_owned()
    }
}

/// Whether `c` separates the words of a name: a hyphen or an underscore.
pub open spec fn is_separator(c: char) -> bool {
    c == '-' || c == '_'
}

/// `s` without its hyphens and underscores.
pub open spec fn without_separators(s: Seq<char>) -> Seq<char>
    decreases s.len(),
{
    if s.len() == 0 {
        Seq::empty()
    } else if is_separator(s.last()) {
        without_separators(s.drop_last())
    } else {
        without_separators(s.drop_last()).push(s.last())
    }
}

/// The form in which the name of a response format is compared: whitespace
/// around it left out, separators removed, letters in lower case.
pub open spec fn format_token(s: Seq<char>) -> Seq<char> {
    ascii_lowercase(without_separators(trimmed(s)))
}

impl ResponseFormatType {
    /// The response format that `s` names, whatever its separators and the
    /// case of its letters. Any other text names none.
    pub open spec fn parse(s: Seq<char>) -> Option<ResponseFormatType> {
        let token = format_token(s);
        if token == "jsonobject"@ {
            Some(ResponseFormatType::JsonObject)
        } else if token == "text"@ {
            Some(ResponseFormatType::Text)
        } else {
            None
        }
    }

    /// Reads the name of a response format.
    pub fn from_str(s: &str) -> (r: Result<ResponseFormatType, ParseErrorResponseFormatType>)
        ensures
            match r {
                Ok(format) => ResponseFormatType::parse(s@) == Some(format),
                Err(_) => ResponseFormatType::parse(s@) is None,
            },
    {
        let source = chars_of(trim(s));
        let mut cleaned: Vec<char> = Vec::new();
        let mut i: usize = 0;
        while i < source.len()
            invariant
                i <= source.len(),
                cleaned@ == ascii_lowercase(without_separators(source@.take(i as int))),
            decreases source.len() - i,
        {
            let c = source[i];
            proof {
                assert(source@.take(i + 1).drop_last() =~= source@.take(i as int));
            }
            if c != '-' && c != '_' {
                cleaned.push(char_ascii_lower(c));
            }
            i = i + 1;
        }
        assert(source@.take(source.len() as int) =~= source@);
        let json_object = chars_of("jsonobject");
        let text = chars_of("text");
        if chars_eq(&cleaned, &json_object) {
            Ok(Self::JsonObject)
        } else if chars_eq(&cleaned, &text) {
            Ok(Self::Text)
        } else {
            Err(ParseErrorResponseFormatType)
        }
    }
}

impl FromStr for ResponseFormatType {
    type Err = ParseErrorResponseFormatType;

    fn from_str(s: &str) -> (r: Result<Self, Self::Err>)
        ensures
            match r {
                Ok(format) => ResponseFormatType::parse(s@) == Some(format),
                Err(_) => ResponseFormatType::parse(s@) is None,
            },
    {
        ResponseFormatType::from_str(s)
    }
}

/// Whether two runs of characters are the same.
fn chars_eq(a: &Vec<char>, b: &Vec<char>) -> (r: bool)
    ensures
        r == (a@ == b@),
{
    if a.len() != b.len() {
        return false;
    }
    let mut i: usize = 0;
    while i < a.len()
        invariant
            i <= a.len(),
            a.len() == b.len(),
            forall|j: int| 0 <= j < i ==> a@[j] == b@[j],
        decreases a.len() - i,
    {
        if a[i] != b[i] {
            return false;
        }
        i = i + 1;
    }
    assert(a@ =~= b@);
    true
}

/// A change of separators or of the case of letters in the name of a response
/// format does not change what is read: two texts with the same compared form
/// are read alike.
pub proof fn lemma_response_format_insensitive(a: Seq<char>, b: Seq<char>)
    requires
        format_token(a) == format_token(b),
    ensures
        ResponseFormatType::parse(a) == ResponseFormatType::parse(b),
{
}

// ————————————————————————————————————————————————————————————————————————————
// ATTRIBUTE TYPES - ERROR TYPES
// ————————————————————————————————————————————————————————————————————————————
/// The generation parameter whose value could not be read.
#[derive(Debug, Clone, Copy, PartialEq, Eq, Structural)]
pub enum InvalidAttribute {
    Name,
    Model,
    Stream,
    Temperature,
    N,
    MaxTokens,
    TopP,
    FrequencyPenalty,
    PresencePenalty,
    Logprobs,
    TopLogprobs,
    ResponseFormat,
}

impl InvalidAttribute {
    /// What the error says.
    pub open spec fn message(self) -> Seq<char> {
        match self {
            InvalidAttribute::Name => "invalid `Name` attribute"@,
            InvalidAttribute::Model => "invalid `Model` attribute"@,
            InvalidAttribute::Stream => "invalid `Stream` attribute"@,
            InvalidAttribute::Temperature => "invalid `Temperature` attribute"@,
            InvalidAttribute::N => "invalid `N` attribute"@,
            InvalidAttribute::MaxTokens => "invalid `MaxTokens` attribute"@,
            InvalidAttribute::TopP => "invalid `TopP` attribute"@,
            InvalidAttribute::FrequencyPenalty => "invalid `FrequencyPenalty` attribute"@,
            InvalidAttribute::PresencePenalty => "invalid `PresencePenalty` attribute"@,
            InvalidAttribute::Logprobs => "invalid `Logprobs` attribute"@,
            InvalidAttribute::TopLogprobs => "invalid `TopLogprobs` attribute"@,
            InvalidAttribute::ResponseFormat => "invalid `ResponseFormat` attribute"@,
        }
    }

    /// What the error says, as a text.
    pub fn to_string(&self) -> (r: String)
        ensures
            r@ == self.message(),
    {
        match self {
            InvalidAttribute::Name => "invalid `Name` attribute".to_owned(),
            InvalidAttribute::Model => "invalid `Model` attribute".to_owned(),
            InvalidAttribute::Stream => "invalid `Stream` attribute".to_owned(),
            InvalidAttribute::Temperature => "invalid `Temperature` attribute".to_owned(),
            InvalidAttribute::N => "invalid `N` attribute".to_owned(),
            InvalidAttribute::MaxTokens => "invalid `MaxTokens` attribute".to_owned(),
            InvalidAttribute::TopP => "invalid `TopP` attribute".to_owned(),
            InvalidAttribute::FrequencyPenalty => "invalid `FrequencyPenalty` attribute".to_owned(),
            InvalidAttribute::PresencePenalty => "invalid `PresencePenalty` attribute".to_owned(),
            InvalidAttribute::Logprobs => "invalid `Logprobs` attribute".to_owned(),
            InvalidAttribute::TopLogprobs => "invalid `TopLogprobs` attribute".to_owned(),
            InvalidAttribute::ResponseFormat => "invalid `ResponseFormat` attribute".to_owned(),
        }
    }
}

// ————————————————————————————————————————————————————————————————————————————
// ATTRIBUTES PRODUCT
// ————————————————————————————————————————————————————————————————————————————
/// One generation parameter with its value, as read from an attribute.
#[derive(Debug)]
pub enum PromptAttributeEntry {
    Name(String),
    Model(Model),
    Temperature(Temperature),
    N(N),
    MaxTokens(MaxTokens),
    TopP(TopP),
    FrequencyPenalty(FrequencyPenalty),
    PresencePenalty(PresencePenalty),
    Logprobs(Logprobs),
    TopLogprobs(TopLogprobs),
    ResponseFormat(ResponseFormat),
}

/// What a [`PromptAttributeEntry`] holds: texts as sequences of characters,
/// numbers as their literals, integers as mathematical integers.
pub ghost enum PromptAttributeEntryView {
    Name(Seq<char>),
    Model(Seq<char>),
    Temperature(Seq<char>),
    N(int),
    MaxTokens(int),
    TopP(Seq<char>),
    FrequencyPenalty(Seq<char>),
    PresencePenalty(Seq<char>),
    Logprobs(bool),
    TopLogprobs(int),
    ResponseFormat(ResponseFormatType),
}

impl View for PromptAttributeEntry {
    type V = PromptAttributeEntryView;

    open spec fn view(&self) -> PromptAttributeEntryView {
        match self {
            PromptAttributeEntry::Name(value) => PromptAttributeEntryView::Name(value@),
            PromptAttributeEntry::Model(value) => PromptAttributeEntryView::Model(value@),
            PromptAttributeEntry::Temperature(value) => PromptAttributeEntryView::Temperature(
                value@,
            ),
            PromptAttributeEntry::N(value) => PromptAttributeEntryView::N(value.0 as int),
            PromptAttributeEntry::MaxTokens(value) => PromptAttributeEntryView::MaxTokens(
                value.0 as int,
            ),
            PromptAttributeEntry::TopP(value) => PromptAttributeEntryView::TopP(value@),
            PromptAttributeEntry::FrequencyPenalty(
                value,
            ) => PromptAttributeEntryView::FrequencyPenalty(value@),
            PromptAttributeEntry::PresencePenalty(
                value,
            ) => PromptAttributeEntryView::PresencePenalty(value@),
            PromptAttributeEntry::Logprobs(value) => PromptAttributeEntryView::Logprobs(value.0),
            PromptAttributeEntry::TopLogprobs(value) => PromptAttributeEntryView::TopLogprobs(
                value.0 as int,
            ),
            PromptAttributeEntry::ResponseFormat(
                value,
            ) => PromptAttributeEntryView::ResponseFormat(value.0),
        }
    }
}

impl Clone for PromptAttributeEntry {
    fn clone(&self) -> (r: Self)
        ensures
            r@ == self@,
    {
        match self {
            PromptAttributeEntry::Name(value) => PromptAttributeEntry::Name(value.clone()),
            PromptAttributeEntry::Model(value) => PromptAttributeEntry::Model(value.clone()),
            PromptAttributeEntry::Temperature(value) => PromptAttributeEntry::Temperature(value.clone()),
            PromptAttributeEntry::N(value) => PromptAttributeEntry::N(*value),
            PromptAttributeEntry::MaxTokens(value) => PromptAttributeEntry::MaxTokens(*value),
            PromptAttributeEntry::TopP(value) => PromptAttributeEntry::TopP(value.clone()),
            PromptAttributeEntry::FrequencyPenalty(value) => PromptAttributeEntry::FrequencyPenalty(value.clone()),
            PromptAttributeEntry::PresencePenalty(value) => PromptAttributeEntry::PresencePenalty(value.clone()),
            PromptAttributeEntry::Logprobs(value) => PromptAttributeEntry::Logprobs(*value),
            PromptAttributeEntry::TopLogprobs(value) => PromptAttributeEntry::TopLogprobs(*value),
            PromptAttributeEntry::ResponseFormat(value) => PromptAttributeEntry::ResponseFormat(*value),
        }
    }
}

/// The table of the generation parameters: for each attribute key the
/// parameter it sets and how its value is read. `None` for a key that names
/// no parameter; an error that names the parameter where the value cannot be
/// read.
pub open spec fn attribute_entry(key: Seq<char>, value: Seq<char>) -> Option<
    Result<PromptAttributeEntryView, InvalidAttribute>,
> {
    if key == "name"@ {
        Some(Ok(PromptAttributeEntryView::Name(value)))
    } else if key == "model"@ {
        Some(Ok(PromptAttributeEntryView::Model(value)))
    } else if key == "temperature"@ {
        Some(
            if is_number_literal(value) {
                Ok(PromptAttributeEntryView::Temperature(value))
            } else {
                Err(InvalidAttribute::Temperature)
            },
        )
    } else if key == "n"@ {
        Some(
            match parse_integer(value) {
                Some(number) => Ok(PromptAttributeEntryView::N(number)),
                None => Err(InvalidAttribute::N),
            },
        )
    } else if key == "max-tokens"@ {
        Some(
            match parse_integer(value) {
                Some(number) => Ok(PromptAttributeEntryView::MaxTokens(number)),
                None => Err(InvalidAttribute::MaxTokens),
            },
        )
    } else if key == "top-p"@ {
        Some(
            if is_number_literal(value) {
                Ok(PromptAttributeEntryView::TopP(value))
            } else {
                Err(InvalidAttribute::TopP)
            },
        )
    } else if key == "frequency-penalty"@ {
        Some(
            if is_number_literal(value) {
                Ok(PromptAttributeEntryView::FrequencyPenalty(value))
            } else {
                Err(InvalidAttribute::FrequencyPenalty)
            },
        )
    } else if key == "presence-penalty"@ {
        Some(
            if is_number_literal(value) {
                Ok(PromptAttributeEntryView::PresencePenalty(value))
            } else {
                Err(InvalidAttribute::PresencePenalty)
            },
        )
    } else if key == "logprobs"@ {
        Some(
            match parse_boolean(value) {
                Some(flag) => Ok(PromptAttributeEntryView::Logprobs(flag)),
                None => Err(InvalidAttribute::Logprobs),
            },
        )
    } else if key == "top-logprobs"@ {
        Some(
            match parse_integer(value) {
                Some(number) => Ok(PromptAttributeEntryView::TopLogprobs(number)),
                None => Err(InvalidAttribute::TopLogprobs),
            },
        )
    } else if key == "response-format"@ {
        Some(
            match ResponseFormatType::parse(value) {
                Some(format) => Ok(PromptAttributeEntryView::ResponseFormat(format)),
                None => Err(InvalidAttribute::ResponseFormat),
            },
        )
    } else {
        None
    }
}

impl PromptAttributeEntry {
    /// Reads one attribute. The outcome is one of three: the key names no
    /// generation parameter (`None`); it names one and the value is read; it
    /// names one and the value cannot be read, which is an error that names
    /// the parameter.
    pub fn try_from(key: &str, value: &str) -> (r: Option<Result<Self, InvalidAttribute>>)
        ensures
            match r {
                None => attribute_entry(key@, value@) is None,
                Some(Ok(entry)) => attribute_entry(key@, value@) == Some(
                    Ok::<PromptAttributeEntryView, InvalidAttribute>(entry@),
                ),
                Some(Err(error)) => attribute_entry(key@, value@) == Some(
                    Err::<PromptAttributeEntryView, InvalidAttribute>(error),
                ),
            },
    {
        if str_eq(key, "name") {
            Some(Ok(Self::Name(value.to_owned())))
        } else if str_eq(key, "model") {
            Some(
                match Model::from_str(value) {
                    Ok(model) => Ok(Self::Model(model)),
                    Err(_) => Err(InvalidAttribute::Model),
                },
            )
        } else if str_eq(key, "temperature") {
            Some(
                match Temperature::from_str(value) {
                    Ok(temperature) => Ok(Self::Temperature(temperature)),
                    Err(_) => Err(InvalidAttribute::Temperature),
                },
            )
        } else if str_eq(key, "n") {
            Some(
                match N::from_str(value) {
                    Ok(n) => Ok(Self::N(n)),
                    Err(_) => Err(InvalidAttribute::N),
                },
            )
        } else if str_eq(key, "max-tokens") {
            Some(
                match MaxTokens::from_str(value) {
                    Ok(max_tokens) => Ok(Self::MaxTokens(max_tokens)),
                    Err(_) => Err(InvalidAttribute::MaxTokens),
                },
            )
        } else if str_eq(key, "top-p") {
            Some(
                match TopP::from_str(value) {
                    Ok(top_p) => Ok(Self::TopP(top_p)),
                    Err(_) => Err(InvalidAttribute::TopP),
                },
            )
        } else if str_eq(key, "frequency-penalty") {
            Some(
                match FrequencyPenalty::from_str(value) {
                    Ok(frequency_penalty) => Ok(Self::FrequencyPenalty(frequency_penalty)),
                    Err(_) => Err(InvalidAttribute::FrequencyPenalty),
                },
            )
        } else if str_eq(key, "presence-penalty") {
            Some(
                match PresencePenalty::from_str(value) {
                    Ok(presence_penalty) => Ok(Self::PresencePenalty(presence_penalty)),
                    Err(_) => Err(InvalidAttribute::PresencePenalty),
                },
            )
        } else if str_eq(key, "logprobs") {
            Some(
                match Logprobs::from_str(value) {
                    Ok(logprobs) => Ok(Self::Logprobs(logprobs)),
                    Err(_) => Err(InvalidAttribute::Logprobs),
                },
            )
        } else if str_eq(key, "top-logprobs") {
            Some(
                match TopLogprobs::from_str(value) {
                    Ok(top_logprobs) => Ok(Self::TopLogprobs(top_logprobs)),
                    Err(_) => Err(InvalidAttribute::TopLogprobs),
                },
            )
        } else if str_eq(key, "response-format") {
            Some(
                match ResponseFormat::from_str(value) {
                    Ok(response_format) => Ok(Self::ResponseFormat(response_format)),
                    Err(_) => Err(InvalidAttribute::ResponseFormat),
                },
            )
        } else {
            None
        }
    }
}

/// Generation parameters, each of them optional. A parameter that is absent
/// is inherited from the enclosing scope.
#[derive(Debug)]
pub struct PromptSettings {
    pub name: Option<String>,
    pub model: Option<Model>,
    pub temperature: Option<Temperature>,
    pub n: Option<N>,
    pub max_tokens: Option<MaxTokens>,
    pub top_p: Option<TopP>,
    pub frequency_penalty: Option<FrequencyPenalty>,
    pub presence_penalty: Option<PresencePenalty>,
    pub logprobs: Option<Logprobs>,
    pub top_logprobs: Option<TopLogprobs>,
    pub response_format: Option<ResponseFormat>,
}

/// What a [`PromptSettings`] holds.
pub ghost struct PromptSettingsView {
    pub name: Option<Seq<char>>,
    pub model: Option<Seq<char>>,
    pub temperature: Option<Seq<char>>,
    pub n: Option<int>,
    pub max_tokens: Option<int>,
    pub top_p: Option<Seq<char>>,
    pub frequency_penalty: Option<Seq<char>>,
    pub presence_penalty: Option<Seq<char>>,
    pub logprobs: Option<bool>,
    pub top_logprobs: Option<int>,
    pub response_format: Option<ResponseFormatType>,
}

/// `over` where it is present, else `base`.
pub open spec fn overridden<T>(base: Option<T>, over: Option<T>) -> Option<T> {
    if over is Some {
        over
    } else {
        base
    }
}

impl PromptSettingsView {
    /// The settings with no parameter present.
    pub open spec fn empty() -> PromptSettingsView {
        PromptSettingsView {
            name: None,
            model: None,
            temperature: None,
            n: None,
            max_tokens: None,
            top_p: None,
            frequency_penalty: None,
            presence_penalty: None,
            logprobs: None,
            top_logprobs: None,
            response_format: None,
        }
    }

    /// These settings overridden by `other`: each parameter is that of
    /// `other` where `other` has it, else that of `self`.
    pub open spec fn merge(self, other: PromptSettingsView) -> PromptSettingsView {
        PromptSettingsView {
            name: overridden(self.name, other.name),
            model: overridden(self.model, other.model),
            temperature: overridden(self.temperature, other.temperature),
            n: overridden(self.n, other.n),
            max_tokens: overridden(self.max_tokens, other.max_tokens),
            top_p: overridden(self.top_p, other.top_p),
            frequency_penalty: overridden(self.frequency_penalty, other.frequency_penalty),
            presence_penalty: overridden(self.presence_penalty, other.presence_penalty),
            logprobs: overridden(self.logprobs, other.logprobs),
            top_logprobs: overridden(self.top_logprobs, other.top_logprobs),
            response_format: overridden(self.response_format, other.response_format),
        }
    }

    /// These settings with the parameter of `entry` set to its value.
    pub open spec fn with_entry(self, entry: PromptAttributeEntryView) -> PromptSettingsView {
        match entry {
            PromptAttributeEntryView::Name(value) => PromptSettingsView {
                name: Some(value),
                ..self
            },
            PromptAttributeEntryView::Model(value) => PromptSettingsView {
                model: Some(value),
                ..self
            },
            PromptAttributeEntryView::Temperature(value) => PromptSettingsView {
                temperature: Some(value),
                ..self
            },
            PromptAttributeEntryView::N(value) => PromptSettingsView {
                n: Some(value),
                ..self
            },
            PromptAttributeEntryView::MaxTokens(value) => PromptSettingsView {
                max_tokens: Some(value),
                ..self
            },
            PromptAttributeEntryView::TopP(value) => PromptSettingsView {
                top_p: Some(value),
                ..self
            },
            PromptAttributeEntryView::FrequencyPenalty(value) => PromptSettingsView {
                frequency_penalty: Some(value),
                ..self
            },
            PromptAttributeEntryView::PresencePenalty(value) => PromptSettingsView {
                presence_penalty: Some(value),
                ..self
            },
            PromptAttributeEntryView::Logprobs(value) => PromptSettingsView {
                logprobs: Some(value),
                ..self
            },
            PromptAttributeEntryView::TopLogprobs(value) => PromptSettingsView {
                top_logprobs: Some(value),
                ..self
            },
            PromptAttributeEntryView::ResponseFormat(value) => PromptSettingsView {
                response_format: Some(value),
                ..self
            },
        }
    }

    /// These settings after the attribute `key` with `value` was offered to
    /// them: changed where the key names a parameter and the value is read,
    /// else as before.
    pub open spec fn with_attribute(self, key: Seq<char>, value: Seq<char>) -> PromptSettingsView {
        match attribute_entry(key, value) {
            Some(Ok(entry)) => self.with_entry(entry),
            _ => self,
        }
    }

    /// These settings as the arguments of a prompt: the same parameters,
    /// with the name taken out of its option.
    pub open spec fn to_arguments(self) -> PromptArgumentsView {
        PromptArgumentsView {
            name: match self.name {
                Some(name) => name,
                None => Seq::empty(),
            },
            model: self.model,
            temperature: self.temperature,
            n: self.n,
            max_tokens: self.max_tokens,
            top_p: self.top_p,
            frequency_penalty: self.frequency_penalty,
            presence_penalty: self.presence_penalty,
            logprobs: self.logprobs,
            top_logprobs: self.top_logprobs,
            response_format: self.response_format,
        }
    }

    /// These settings overridden by each of `overrides` in turn.
    pub open spec fn merge_all(self, overrides: Seq<PromptSettingsView>) -> PromptSettingsView
        decreases overrides.len(),
    {
        if overrides.len() == 0 {
            self
        } else {
            self.merge_all(overrides.drop_last()).merge(overrides.last())
        }
    }
}

impl View for PromptSettings {
    type V = PromptSettingsView;

    open spec fn view(&self) -> PromptSettingsView {
        PromptSettingsView {
            name: match self.name {
                Some(v) => Some(v@),
                None => None,
            },
            model: match self.model {
                Some(v) => Some(v@),
                None => None,
            },
            temperature: match self.temperature {
                Some(v) => Some(v@),
                None => None,
            },
            n: match self.n {
                Some(v) => Some(v.0 as int),
                None => None,
            },
            max_tokens: match self.max_tokens {
                Some(v) => Some(v.0 as int),
                None => None,
            },
            top_p: match self.top_p {
                Some(v) => Some(v@),
                None => None,
            },
            frequency_penalty: match self.frequency_penalty {
                Some(v) => Some(v@),
                None => None,
            },
            presence_penalty: match self.presence_penalty {
                Some(v) => Some(v@),
                None => None,
            },
            logprobs: match self.logprobs {
                Some(v) => Some(v.0),
                None => None,
            },
            top_logprobs: match self.top_logprobs {
                Some(v) => Some(v.0 as int),
                None => None,
            },
            response_format: match self.response_format {
                Some(v) => Some(v.0),
                None => None,
            },
        }
    }
}

impl Default for PromptSettings {
    fn default() -> (r: Self)
        ensures
            r@ == PromptSettingsView::empty(),
    {
        PromptSettings {
            name: None,
            model: None,
            temperature: None,
            n: None,
            max_tokens: None,
            top_p: None,
            frequency_penalty: None,
            presence_penalty: None,
            logprobs: None,
            top_logprobs: None,
            response_format: None,
        }
    }
}

impl Clone for PromptSettings {
    fn clone(&self) -> (r: Self)
        ensures
            r@ == self@,
    {
        PromptSettings {
            name: match &self.name {
                Some(v) => Some(v.clone()),
                None => None,
            },
            model: match &self.model {
                Some(v) => Some(v.clone()),
                None => None,
            },
            temperature: match &self.temperature {
                Some(v) => Some(v.clone()),
                None => None,
            },
            n: self.n,
            max_tokens: self.max_tokens,
            top_p: match &self.top_p {
                Some(v) => Some(v.clone()),
                None => None,
            },
            frequency_penalty: match &self.frequency_penalty {
                Some(v) => Some(v.clone()),
                None => None,
            },
            presence_penalty: match &self.presence_penalty {
                Some(v) => Some(v.clone()),
                None => None,
            },
            logprobs: self.logprobs,
            top_logprobs: self.top_logprobs,
            response_format: self.response_format,
        }
    }
}

impl PromptSettings {
    /// Overrides these settings by `other`, in place.
    pub fn merge_mut(&mut self, other: Self)
        ensures
            final(self)@ == old(self)@.merge(other@),
    {
        if other.name.is_some() {
            self.name = other.name;
        }
        if other.model.is_some() {
            self.model = other.model;
        }
        if other.temperature.is_some() {
            self.temperature = other.temperature;
        }
        if other.n.is_some() {
            self.n = other.n;
        }
        if other.max_tokens.is_some() {
            self.max_tokens = other.max_tokens;
        }
        if other.top_p.is_some() {
            self.top_p = other.top_p;
        }
        if other.frequency_penalty.is_some() {
            self.frequency_penalty = other.frequency_penalty;
        }
        if other.presence_penalty.is_some() {
            self.presence_penalty = other.presence_penalty;
        }
        if other.logprobs.is_some() {
            self.logprobs = other.logprobs;
        }
        if other.top_logprobs.is_some() {
            self.top_logprobs = other.top_logprobs;
        }
        if other.response_format.is_some() {
            self.response_format = other.response_format;
        }
    }

    /// These settings overridden by `other`: each parameter is that of
    /// `other` where `other` has it, else that of `self`.
    pub fn merge(self, other: Self) -> (r: Self)
        ensures
            r@ == self@.merge(other@),
    {
        Self {
            name: match other.name {
                Some(v) => Some(v),
                None => self.name,
            },
            model: match other.model {
                Some(v) => Some(v),
                None => self.model,
            },
            temperature: match other.temperature {
                Some(v) => Some(v),
                None => self.temperature,
            },
            n: match other.n {
                Some(v) => Some(v),
                None => self.n,
            },
            max_tokens: match other.max_tokens {
                Some(v) => Some(v),
                None => self.max_tokens,
            },
            top_p: match other.top_p {
                Some(v) => Some(v),
                None => self.top_p,
            },
            frequency_penalty: match other.frequency_penalty {
                Some(v) => Some(v),
                None => self.frequency_penalty,
            },
            presence_penalty: match other.presence_penalty {
                Some(v) => Some(v),
                None => self.presence_penalty,
            },
            logprobs: match other.logprobs {
                Some(v) => Some(v),
                None => self.logprobs,
            },
            top_logprobs: match other.top_logprobs {
                Some(v) => Some(v),
                None => self.top_logprobs,
            },
            response_format: match other.response_format {
                Some(v) => Some(v),
                None => self.response_format,
            },
        }
    }

    /// Offers one attribute to the settings. The outcome is one of three. The
    /// key names no generation parameter: `None`, and nothing changes. It
    /// names one and the value is read: the parameter is set. It names one
    /// and the value cannot be read: an error that names the parameter, and
    /// nothing changes.
    pub fn try_merge(&mut self, key: &str, value: &str) -> (r: Option<
        Result<(), InvalidAttribute>,
    >)
        ensures
            final(self)@ == old(self)@.with_attribute(key@, value@),
            match attribute_entry(key@, value@) {
                None => r is None,
                Some(Ok(_)) => r == Some(Ok::<(), InvalidAttribute>(())),
                Some(Err(error)) => r == Some(Err::<(), InvalidAttribute>(error)),
            },
    {
        match PromptAttributeEntry::try_from(key, value) {
            Some(Ok(PromptAttributeEntry::Name(value))) => {
                self.name = Some(value);
                Some(Ok(()))
            },
            Some(Ok(PromptAttributeEntry::Model(value))) => {
                self.model = Some(value);
                Some(Ok(()))
            },
            Some(Ok(PromptAttributeEntry::Temperature(value))) => {
                self.temperature = Some(value);
                Some(Ok(()))
            },
            Some(Ok(PromptAttributeEntry::N(value))) => {
                self.n = Some(value);
                Some(Ok(()))
            },
            Some(Ok(PromptAttributeEntry::MaxTokens(value))) => {
                self.max_tokens = Some(value);
                Some(Ok(()))
            },
            Some(Ok(PromptAttributeEntry::TopP(value))) => {
                self.top_p = Some(value);
                Some(Ok(()))
            },
            Some(Ok(PromptAttributeEntry::FrequencyPenalty(value))) => {
                self.frequency_penalty = Some(value);
                Some(Ok(()))
            },
            Some(Ok(PromptAttributeEntry::PresencePenalty(value))) => {
                self.presence_penalty = Some(value);
                Some(Ok(()))
            },
            Some(Ok(PromptAttributeEntry::Logprobs(value))) => {
                self.logprobs = Some(value);
                Some(Ok(()))
            },
            Some(Ok(PromptAttributeEntry::TopLogprobs(value))) => {
                self.top_logprobs = Some(value);
                Some(Ok(()))
            },
            Some(Ok(PromptAttributeEntry::ResponseFormat(value))) => {
                self.response_format = Some(value);
                Some(Ok(()))
            },
            Some(Err(error)) => Some(Err(error)),
            None => None,
        }
    }

    /// The arguments of a prompt, which must have a name: `None` where these
    /// settings have none.
    pub fn build_to_prompt_arguments(self) -> (r: Option<PromptArguments>)
        ensures
            r is Some <==> self@.name is Some,
            r matches Some(arguments) ==> arguments@ == self@.to_arguments(),
    {
        match self.name {
            Some(name) => Some(
                PromptArguments {
                    name,
                    model: self.model,
                    temperature: self.temperature,
                    n: self.n,
                    max_tokens: self.max_tokens,
                    top_p: self.top_p,
                    frequency_penalty: self.frequency_penalty,
                    presence_penalty: self.presence_penalty,
                    logprobs: self.logprobs,
                    top_logprobs: self.top_logprobs,
                    response_format: self.response_format,
                },
            ),
            None => None,
        }
    }
}

/// The declared settings of a prompt: generation parameters and the name that
/// a prompt must have.
#[derive(Debug)]
pub struct PromptArguments {
    pub name: String,
    pub model: Option<Model>,
    pub temperature: Option<Temperature>,
    pub n: Option<N>,
    pub max_tokens: Option<MaxTokens>,
    pub top_p: Option<TopP>,
    pub frequency_penalty: Option<FrequencyPenalty>,
    pub presence_penalty: Option<PresencePenalty>,
    pub logprobs: Option<Logprobs>,
    pub top_logprobs: Option<TopLogprobs>,
    pub response_format: Option<ResponseFormat>,
}

/// What a [`PromptArguments`] holds.
pub ghost struct PromptArgumentsView {
    pub name: Seq<char>,
    pub model: Option<Seq<char>>,
    pub temperature: Option<Seq<char>>,
    pub n: Option<int>,
    pub max_tokens: Option<int>,
    pub top_p: Option<Seq<char>>,
    pub frequency_penalty: Option<Seq<char>>,
    pub presence_penalty: Option<Seq<char>>,
    pub logprobs: Option<bool>,
    pub top_logprobs: Option<int>,
    pub response_format: Option<ResponseFormatType>,
}

impl PromptArgumentsView {
    /// The same parameters as settings, the name among them.
    pub open spec fn to_settings(self) -> PromptSettingsView {
        PromptSettingsView {
            name: Some(self.name),
            model: self.model,
            temperature: self.temperature,
            n: self.n,
            max_tokens: self.max_tokens,
            top_p: self.top_p,
            frequency_penalty: self.frequency_penalty,
            presence_penalty: self.presence_penalty,
            logprobs: self.logprobs,
            top_logprobs: self.top_logprobs,
            response_format: self.response_format,
        }
    }
}

impl View for PromptArguments {
    type V = PromptArgumentsView;

    open spec fn view(&self) -> PromptArgumentsView {
        PromptArgumentsView {
            name: self.name@,
            model: match self.model {
                Some(v) => Some(v@),
                None => None,
            },
            temperature: match self.temperature {
                Some(v) => Some(v@),
                None => None,
            },
            n: match self.n {
                Some(v) => Some(v.0 as int),
                None => None,
            },
            max_tokens: match self.max_tokens {
                Some(v) => Some(v.0 as int),
                None => None,
            },
            top_p: match self.top_p {
                Some(v) => Some(v@),
                None => None,
            },
            frequency_penalty: match self.frequency_penalty {
                Some(v) => Some(v@),
                None => None,
            },
            presence_penalty: match self.presence_penalty {
                Some(v) => Some(v@),
                None => None,
            },
            logprobs: match self.logprobs {
                Some(v) => Some(v.0),
                None => None,
            },
            top_logprobs: match self.top_logprobs {
                Some(v) => Some(v.0 as int),
                None => None,
            },
            response_format: match self.response_format {
                Some(v) => Some(v.0),
                None => None,
            },
        }
    }
}

impl Clone for PromptArguments {
    fn clone(&self) -> (r: Self)
        ensures
            r@ == self@,
    {
        PromptArguments {
            name: self.name.clone(),
            model: match &self.model {
                Some(v) => Some(v.clone()),
                None => None,
            },
            temperature: match &self.temperature {
                Some(v) => Some(v.clone()),
                None => None,
            },
            n: self.n,
            max_tokens: self.max_tokens,
            top_p: match &self.top_p {
                Some(v) => Some(v.clone()),
                None => None,
            },
            frequency_penalty: match &self.frequency_penalty {
                Some(v) => Some(v.clone()),
                None => None,
            },
            presence_penalty: match &self.presence_penalty {
                Some(v) => Some(v.clone()),
                None => None,
            },
            logprobs: self.logprobs,
            top_logprobs: self.top_logprobs,
            response_format: self.response_format,
        }
    }
}

impl PromptArguments {
    /// The same parameters as settings, the name among them.
    pub fn to_settings(&self) -> (r: PromptSettings)
        ensures
            r@ == self@.to_settings(),
    {
        PromptSettings {
            name: Some(self.name.clone()),
            model: match &self.model {
                Some(v) => Some(v.clone()),
                None => None,
            },
            temperature: match &self.temperature {
                Some(v) => Some(v.clone()),
                None => None,
            },
            n: self.n,
            max_tokens: self.max_tokens,
            top_p: match &self.top_p {
                Some(v) => Some(v.clone()),
                None => None,
            },
            frequency_penalty: match &self.frequency_penalty {
                Some(v) => Some(v.clone()),
                None => None,
            },
            presence_penalty: match &self.presence_penalty {
                Some(v) => Some(v.clone()),
                None => None,
            },
            logprobs: self.logprobs,
            top_logprobs: self.top_logprobs,
            response_format: self.response_format,
        }
    }
}

/// The keys of the generation parameters, in the order in which the
/// attributes of an element are read.
pub open spec fn setting_key_names() -> Seq<Seq<char>> {
    seq![
        "name"@,
        "model"@,
        "temperature"@,
        "n"@,
        "max-tokens"@,
        "top-p"@,
        "frequency-penalty"@,
        "presence-penalty"@,
        "logprobs"@,
        "top-logprobs"@,
        "response-format"@,
    ]
}

/// The settings that the attributes give for the parameters `keys`: each key
/// that is among the attributes is offered with its value, in the order of
/// `keys`. Attributes with any other key do not count.
pub open spec fn settings_of(
    attributes: Map<Seq<char>, Seq<char>>,
    keys: Seq<Seq<char>>,
) -> PromptSettingsView
    decreases keys.len(),
{
    if keys.len() == 0 {
        PromptSettingsView::empty()
    } else {
        let before = settings_of(attributes, keys.drop_last());
        let key = keys.last();
        if attributes.contains_key(key) {
            before.with_attribute(key, attributes[key])
        } else {
            before
        }
    }
}

/// The parameters among `keys` whose value among the attributes cannot be
/// read, in the order of `keys`.
pub open spec fn attribute_errors(
    attributes: Map<Seq<char>, Seq<char>>,
    keys: Seq<Seq<char>>,
) -> Seq<InvalidAttribute>
    decreases keys.len(),
{
    if keys.len() == 0 {
        Seq::empty()
    } else {
        let before = attribute_errors(attributes, keys.drop_last());
        let key = keys.last();
        if attributes.contains_key(key) {
            match attribute_entry(key, attributes[key]) {
                Some(Err(error)) => before.push(error),
                _ => before,
            }
        } else {
            before
        }
    }
}

/// The strings as sequences of characters.
pub open spec fn strs_view(strs: Seq<&'static str>) -> Seq<Seq<char>> {
    Seq::new(strs.len(), |i: int| strs[i]@)
}

/// The keys of the generation parameters, in the order in which the
/// attributes of an element are read.
pub fn setting_keys() -> (r: Vec<&'static str>)
    ensures
        strs_view(r@) == setting_key_names(),
{
    let keys = vec![
        "name",
        "model",
        "temperature",
        "n",
        "max-tokens",
        "top-p",
        "frequency-penalty",
        "presence-penalty",
        "logprobs",
        "top-logprobs",
        "response-format",
    ];
    keys
}

impl PromptSettings {
    /// Reads the generation parameters among the attributes of an element.
    /// Every parameter is looked up by its key, so attributes with any other
    /// key are passed over, and every value that cannot be read is reported,
    /// in the order of the table of parameters.
    pub fn from_attributes(attributes: &AttributeMap) -> (r: (Self, Vec<InvalidAttribute>))
        ensures
            r.0@ == settings_of(attributes@, setting_key_names()),
            r.1@ == attribute_errors(attributes@, setting_key_names()),
    {
        let keys = setting_keys();
        let ghost names = setting_key_names();
        let mut settings = PromptSettings::default();
        let mut errors: Vec<InvalidAttribute> = Vec::new();
        let mut i: usize = 0;
        while i < keys.len()
            invariant
                i <= keys.len(),
                names == strs_view(keys@),
                settings@ == settings_of(attributes@, names.take(i as int)),
                errors@ == attribute_errors(attributes@, names.take(i as int)),
            decreases keys.len() - i,
        {
            let key = keys[i];
            proof {
                assert(names.take(i + 1).drop_last() =~= names.take(i as int));
            }
            match attributes.get(key) {
                Some(value) => {
                    match settings.try_merge(key, value.as_str()) {
                        Some(Err(error)) => {
                            errors.push(error);
                        },
                        _ => {},
                    }
                },
                None => {},
            }
            i = i + 1;
        }
        assert(names.take(keys.len() as int) =~= names);
        (settings, errors)
    }
}

/// The last of `a`, `b` and `c`, in this order, that is present.
pub open spec fn last_present<T>(a: Option<T>, b: Option<T>, c: Option<T>) -> Option<T> {
    if c is Some {
        c
    } else if b is Some {
        b
    } else {
        a
    }
}

/// Overriding is decided for each parameter by itself, and the last of three
/// settings that has a parameter decides it.
pub proof fn lemma_merge_last_writer_wins(
    a: PromptSettingsView,
    b: PromptSettingsView,
    c: PromptSettingsView,
)
    ensures
        a.merge(b).merge(c).name == last_present(a.name, b.name, c.name),
        a.merge(b).merge(c).model == last_present(a.model, b.model, c.model),
        a.merge(b).merge(c).temperature == last_present(a.temperature, b.temperature, c.temperature),
        a.merge(b).merge(c).n == last_present(a.n, b.n, c.n),
        a.merge(b).merge(c).max_tokens == last_present(a.max_tokens, b.max_tokens, c.max_tokens),
        a.merge(b).merge(c).top_p == last_present(a.top_p, b.top_p, c.top_p),
        a.merge(b).merge(c).frequency_penalty == last_present(a.frequency_penalty, b.frequency_penalty, c.frequency_penalty),
        a.merge(b).merge(c).presence_penalty == last_present(a.presence_penalty, b.presence_penalty, c.presence_penalty),
        a.merge(b).merge(c).logprobs == last_present(a.logprobs, b.logprobs, c.logprobs),
        a.merge(b).merge(c).top_logprobs == last_present(a.top_logprobs, b.top_logprobs, c.top_logprobs),
        a.merge(b).merge(c).response_format == last_present(a.response_format, b.response_format, c.response_format),
{
}

/// Overriding is associative: it does not matter how a chain of overrides is
/// grouped.
pub proof fn lemma_merge_associative(
    a: PromptSettingsView,
    b: PromptSettingsView,
    c: PromptSettingsView,
)
    ensures
        a.merge(b).merge(c) == a.merge(b.merge(c)),
{
}

/// Overriding by two chains of settings, one after the other, is overriding
/// by the one chain that they form together.
pub proof fn lemma_merge_all_append(
    a: PromptSettingsView,
    first: Seq<PromptSettingsView>,
    second: Seq<PromptSettingsView>,
)
    ensures
        a.merge_all(first + second) == a.merge_all(first).merge_all(second),
    decreases second.len(),
{
    if second.len() > 0 {
        lemma_merge_all_append(a, first, second.drop_last());
        assert((first + second).drop_last() =~= first + second.drop_last());
    }
}

/// Folding a chain of overrides from the left gives the same settings
/// however the chain is grouped: overriding by settings that a chain has
/// overridden is overriding by the settings and then by the chain.
pub proof fn lemma_merge_all_grouping(
    a: PromptSettingsView,
    b: PromptSettingsView,
    overrides: Seq<PromptSettingsView>,
)
    ensures
        a.merge(b.merge_all(overrides)) == a.merge(b).merge_all(overrides),
    decreases overrides.len(),
{
    if overrides.len() > 0 {
        lemma_merge_all_grouping(a, b, overrides.drop_last());
        lemma_merge_associative(a, b.merge_all(overrides.drop_last()), overrides.last());
    }
}

/// Settings with no parameter present override nothing and are overridden by
/// everything.
pub proof fn lemma_merge_empty(a: PromptSettingsView)
    ensures
        a.merge(PromptSettingsView::empty()) == a,
        PromptSettingsView::empty().merge(a) == a,
{
}

} // verus!
