//! The single error of the engine: a syntax error that names what was wrong and
//! carries the offending fragment of the pattern.

use vstd::prelude::*;
use vstd::string::*;

verus! {

/// What was wrong with a pattern.
#[derive(Clone, Copy, Debug, PartialEq, Eq, Structural)]
pub enum SyntaxErrorKind {
    /// The leading tokens name no known utility family.
    UnknownUtility,
    /// A spacing utility names no known axis.
    UnknownAxis,
    /// The tokens form no anchor point.
    UnknownAnchor,
    /// The tokens form no value of the expected kind.
    UnknownValue,
    /// Neither a value token nor an arbitrary value was given.
    MissingValue,
    /// The text is not an integer.
    NotAnInteger,
    /// A color weight is below zero.
    NegativeWeight,
    /// The tokens form no color reference.
    UnknownColor,
    /// A minus sign stands before a utility that has no negative form.
    UnexpectedNegative,
}

/// A failed parse of one utility.
#[derive(Debug, PartialEq, Eq)]
pub struct SyntaxError {
    pub kind: SyntaxErrorKind,
    pub fragment: String,
}

/// A syntax error as a plain value: its kind and the characters of the fragment.
pub struct SyntaxErrorModel {
    pub kind: SyntaxErrorKind,
    pub fragment: Seq<char>,
}

impl View for SyntaxError {
    type V = SyntaxErrorModel;

    open spec fn view(&self) -> SyntaxErrorModel {
        SyntaxErrorModel { kind: self.kind, fragment: self.fragment@ }
    }
}

/// The failure of the given kind on the given fragment.
pub open spec fn failure<T>(kind: SyntaxErrorKind, fragment: Seq<char>) -> Result<
    T,
    SyntaxErrorModel,
> {
    Err(SyntaxErrorModel { kind, fragment })
}

/// A result with both sides replaced by their views.
pub open spec fn outcome<T: View, E: View>(r: Result<T, E>) -> Result<T::V, E::V> {
    match r {
        Ok(value) => Ok(value@),
        Err(error) => Err(error@),
    }
}

/// An optional value replaced by its view.
pub open spec fn found<T: View>(value: Option<T>) -> Option<T::V> {
    match value {
        Some(value) => Some(value@),
        None => None,
    }
}

/// The sentence that introduces the fragment in an error message.
pub open spec fn kind_text(kind: SyntaxErrorKind) -> Seq<char> {
    match kind {
        SyntaxErrorKind::UnknownUtility => "unknown utility: "@,
        SyntaxErrorKind::UnknownAxis => "unknown axis: "@,
        SyntaxErrorKind::UnknownAnchor => "unknown anchor point: "@,
        SyntaxErrorKind::UnknownValue => "unknown value: "@,
        SyntaxErrorKind::MissingValue => "missing value: "@,
        SyntaxErrorKind::NotAnInteger => "not an integer: "@,
        SyntaxErrorKind::NegativeWeight => "negative color weight: "@,
        SyntaxErrorKind::UnknownColor => "unknown color pattern: "@,
        SyntaxErrorKind::UnexpectedNegative => "unexpected negative sign: "@,
    }
}

/// The human-readable message of an error.
pub open spec fn message_text(error: SyntaxErrorModel) -> Seq<char> {
    kind_text(error.kind) + error.fragment
}

impl SyntaxErrorKind {
    /// The sentence that introduces the fragment in an error message.
    pub fn text(self) -> (s: &'static str)
        ensures
            s@ == kind_text(self),
    {
        match self {
            SyntaxErrorKind::UnknownUtility => "unknown utility: ",
            SyntaxErrorKind::UnknownAxis => "unknown axis: ",
            SyntaxErrorKind::UnknownAnchor => "unknown anchor point: ",
            SyntaxErrorKind::UnknownValue => "unknown value: ",
            SyntaxErrorKind::MissingValue => "missing value: ",
            SyntaxErrorKind::NotAnInteger => "not an integer: ",
            SyntaxErrorKind::NegativeWeight => "negative color weight: ",
            SyntaxErrorKind::UnknownColor => "unknown color pattern: ",
            SyntaxErrorKind::UnexpectedNegative => "unexpected negative sign: ",
        }
    }
}

impl SyntaxError {
    /// An error of the given kind on the given fragment.
    pub fn new(kind: SyntaxErrorKind, fragment: &str) -> (error: Self)
        ensures
            error@ == (SyntaxErrorModel { kind, fragment: fragment@ }),
    {
        SyntaxError { kind, fragment: fragment.to_owned() }
    }

    /// The human-readable message: what was wrong, then the offending fragment.
    pub fn message(&self) -> (text: String)
        ensures
            text@ == message_text(self@),
    {
        let mut text = String::from_str(self.kind.text());
        text.append(self.fragment.as_str());
        text
    }
}

impl Clone for SyntaxError {
    fn clone(&self) -> (copy: Self)
        ensures
            copy == *self,
    {
        SyntaxError { kind: self.kind, fragment: self.fragment.clone() }
    }
}

} // verus!
