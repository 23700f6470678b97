//! Common data types & utilities

use vstd::prelude::*;

use crate::text::is_number;
use crate::text::is_number_literal;

pub mod breakpoint;
pub mod message;
pub mod prompt;

verus! {

/// The integers of the generation parameters.
pub type Integer = isize;

/// A decimal number of the generation parameters, kept as the literal that
/// denotes it: an optional sign, then either digits with at most one point
/// among them and an optional exponent, or one of the names `inf`, `infinity`
/// and `nan`.
#[derive(Debug)]
pub struct Number {
    literal: String,
}

/// The text given for a [`Number`] is no number literal.
#[derive(Debug, Clone, Copy, PartialEq, Eq, Structural)]
pub struct ParseNumberError;

impl View for Number {
    type V = Seq<char>;

    closed spec fn view(&self) -> Seq<char> {
        self.literal@
    }
}

impl Clone for Number {
    fn clone(&self) -> (r: Self)
        ensures
            r@ == self@,
    {
        proof {
            use_type_invariant(self);
        }
        Number { literal: self.literal.clone() }
    }
}

impl Number {
    #[verifier::type_invariant]
    spec fn well_formed(&self) -> bool {
        is_number_literal(self.literal@)
    }

    /// The number that `s` denotes, where `s` is a number literal.
    pub fn from_str(s: &str) -> (r: Result<Number, ParseNumberError>)
        ensures
            r is Ok <==> is_number_literal(s@),
            r matches Ok(n) ==> n@ == s@,
    {
        if is_number(s) {
            Ok(Number { literal: s.to_owned() })
        } else {
            Err(ParseNumberError)
        }
    }

    /// The literal that denotes the number.
    pub fn as_str(&self) -> (r: &str)
        ensures
            r@ == self@,
            is_number_literal(r@),
    {
        proof {
            use_type_invariant(self);
        }
        self.literal.as_str()
    }
}

impl ParseNumberError {
    /// What the error says.
    pub open spec fn message() -> Seq<char> {
        "invalid number literal"@
    }

    /// What the error says, as a text.
    pub fn to_string(&self) -> (r: String)
        ensures
            r@ == Self::message(),
    {
        "invalid number literal".to_owned()
    }
}

} // verus!
