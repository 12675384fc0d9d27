//! Arbitrary values: the raw text of a bracket-delimited suffix.

use vstd::prelude::*;
use vstd::string::*;
use crate::error::{failure, outcome, SyntaxError, SyntaxErrorKind, SyntaxErrorModel};
use crate::text::{integer_i32, parse_i32};

verus! {

/// The raw content of a bracket-delimited suffix, without the brackets. Nothing
/// is known of it until a typed value is asked for.
#[derive(Debug, PartialEq, Eq)]
pub struct TailwindArbitrary {
    inner: String,
}

impl View for TailwindArbitrary {
    type V = Seq<char>;

    closed spec fn view(&self) -> Seq<char> {
        self.inner@
    }
}

/// An arbitrary value in bracket syntax, as it stands in a class name.
pub open spec fn bracketed(raw: Seq<char>) -> Seq<char> {
    seq!['['] + raw + seq![']']
}

/// What `as_integer` makes of a raw text.
pub open spec fn integer_of(raw: Seq<char>) -> Result<i32, SyntaxErrorModel> {
    match integer_i32(raw) {
        Some(value) => Ok(value),
        None => failure(SyntaxErrorKind::NotAnInteger, raw),
    }
}

impl Clone for TailwindArbitrary {
    fn clone(&self) -> (copy: Self)
        ensures
            copy == *self,
    {
        TailwindArbitrary { inner: self.inner.clone() }
    }
}

impl TailwindArbitrary {
    /// Wraps the content of a bracket-delimited suffix. The absent suffix is the
    /// empty text.
    pub fn new(raw: &str) -> (value: Self)
        ensures
            value@ == raw@,
    {
        TailwindArbitrary { inner: raw.to_owned() }
    }

    /// Whether a suffix was given.
    pub fn is_some(&self) -> (present: bool)
        ensures
            present == (self@.len() > 0),
    {
        !self.inner.as_str().is_empty()
    }

    /// Whether no suffix was given.
    pub fn is_none(&self) -> (absent: bool)
        ensures
            absent == (self@.len() == 0),
    {
        self.inner.as_str().is_empty()
    }

    /// The raw text.
    pub fn as_str(&self) -> (raw: &str)
        ensures
            raw@ == self@,
    {
        self.inner.as_str()
    }

    /// The raw text as an owned string.
    pub fn as_string(&self) -> (raw: String)
        ensures
            raw@ == self@,
    {
        self.inner.clone()
    }

    /// The raw text read as a decimal integer.
    pub fn as_integer(&self) -> (value: Result<i32, SyntaxError>)
        ensures
            outcome(value) == integer_of(self@),
    {
        match parse_i32(self.inner.as_str()) {
            Some(value) => Ok(value),
            None => Err(SyntaxError::new(SyntaxErrorKind::NotAnInteger, self.inner.as_str())),
        }
    }

    /// The value as it is emitted inside brackets: verbatim.
    pub fn render(&self) -> (raw: String)
        ensures
            raw@ == self@,
    {
        self.inner.clone()
    }

    /// The value in bracket syntax.
    pub fn get_class(&self) -> (class: String)
        ensures
            class@ == bracketed(self@),
    {
        let mut class = String::new();
        self.write(&mut class);
        proof {
            assert(Seq::<char>::empty() + bracketed(self@) =~= bracketed(self@));
        }
        class
    }

    /// Appends the value in bracket syntax to `out`.
    pub fn write(&self, out: &mut String)
        ensures
            final(out)@ == old(out)@ + bracketed(self@),
    {
        proof {
            reveal_strlit("[");
            reveal_strlit("]");
        }
        out.append("[");
        out.append(self.inner.as_str());
        out.append("]");
        proof {
            assert("["@ =~= seq!['[']);
            assert("]"@ =~= seq![']']);
            assert(out@ =~= old(out)@ + bracketed(self@));
        }
    }
}

} // verus!
