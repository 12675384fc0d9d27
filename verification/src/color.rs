//! Color references: a themed name with a weight, a keyword, a fixed keyword, or
//! an arbitrary value.

use vstd::prelude::*;
use vstd::string::*;
use crate::arbitrary::{bracketed, TailwindArbitrary};
use crate::error::{failure, outcome, SyntaxError, SyntaxErrorKind, SyntaxErrorModel};
use crate::text::{integer_i32, join_tokens, joined, numeral, push_u32, str_eq, words};

verus! {

/// A reference to a color, in one of four forms.
#[derive(Debug, PartialEq, Eq)]
pub enum TailwindColor {
    /// A name of the theme and a weight, as in `blue-500`.
    Themed(String, u32),
    /// A color keyword, taken as it was written.
    Keyword(String),
    /// A keyword fixed at compile time.
    Static(&'static str),
    /// A raw value from bracket syntax.
    Arbitrary(TailwindArbitrary),
}

/// A color reference as a plain value.
pub enum ColorModel {
    Themed(Seq<char>, u32),
    Keyword(Seq<char>),
    Static(Seq<char>),
    Arbitrary(Seq<char>),
}

impl View for TailwindColor {
    type V = ColorModel;

    open spec fn view(&self) -> ColorModel {
        match self {
            TailwindColor::Themed(name, weight) => ColorModel::Themed(name@, *weight),
            TailwindColor::Keyword(keyword) => ColorModel::Keyword(keyword@),
            TailwindColor::Static(keyword) => ColorModel::Static(keyword@),
            TailwindColor::Arbitrary(raw) => ColorModel::Arbitrary(raw@),
        }
    }
}

/// The class-name text of a color reference.
pub open spec fn color_text(color: ColorModel) -> Seq<char> {
    match color {
        ColorModel::Themed(name, weight) => name + seq!['-'] + numeral(weight as nat),
        ColorModel::Keyword(keyword) => keyword,
        ColorModel::Static(keyword) => keyword,
        ColorModel::Arbitrary(raw) => bracketed(raw),
    }
}

/// The keyword that a single token stands for. `none` is another spelling of
/// `transparent`; `white` gives the same keyword as `black`.
pub open spec fn color_keyword(token: Seq<char>) -> Seq<char> {
    if token == "none"@ || token == "transparent"@ {
        "transparent"@
    } else if token == "black"@ || token == "white"@ {
        "black"@
    } else {
        token
    }
}

/// What `TailwindColor::parse_themed` makes of a name and a weight: the weight
/// must be an integer, and not below zero.
pub open spec fn color_themed(name: Seq<char>, weight: Seq<char>) -> Result<
    ColorModel,
    SyntaxErrorModel,
> {
    match integer_i32(weight) {
        None => failure(SyntaxErrorKind::NotAnInteger, weight),
        Some(value) => if value < 0 {
            failure(SyntaxErrorKind::NegativeWeight, weight)
        } else {
            Ok(ColorModel::Themed(name, value as u32))
        },
    }
}

/// What `TailwindColor::parse` makes of a pattern and an arbitrary value, by the
/// number of tokens: none, the arbitrary value; one, a keyword; two, a themed
/// name and its weight; more, a failure.
pub open spec fn color_parse(tokens: Seq<Seq<char>>, arbitrary: Seq<char>) -> Result<
    ColorModel,
    SyntaxErrorModel,
> {
    if tokens.len() == 0 {
        Ok(ColorModel::Arbitrary(arbitrary))
    } else if tokens.len() == 1 {
        Ok(ColorModel::Keyword(color_keyword(tokens[0])))
    } else if tokens.len() == 2 {
        color_themed(tokens[0], tokens[1])
    } else {
        failure(SyntaxErrorKind::UnknownColor, joined(tokens))
    }
}

impl Clone for TailwindColor {
    fn clone(&self) -> (copy: Self)
        ensures
            copy == *self,
    {
        match self {
            TailwindColor::Themed(name, weight) => TailwindColor::Themed(name.clone(), *weight),
            TailwindColor::Keyword(keyword) => TailwindColor::Keyword(keyword.clone()),
            TailwindColor::Static(keyword) => TailwindColor::Static(*keyword),
            TailwindColor::Arbitrary(raw) => TailwindColor::Arbitrary(raw.clone()),
        }
    }
}

impl TailwindColor {
    /// The fixed color `black`.
    pub fn black() -> (color: Self)
        ensures
            color@ == ColorModel::Static("black"@),
    {
        TailwindColor::Static("black")
    }

    /// The fixed color `white`.
    ///
    /// Implementation note: this is the same value as `black()`. The two names
    /// have never been told apart here; the inconsistency is kept as it is, and
    /// stated in the contract, until it is decided which color `white` shall be.
    pub fn white() -> (color: Self)
        ensures
            color@ == ColorModel::Static("black"@),
    {
        TailwindColor::Static("black")
    }

    /// Reads a color reference from a pattern of up to two tokens.
    ///
    /// Implementation note: the token `white` gives the keyword `black`, as the
    /// token `black` does. The inconsistency is kept as it is, and stated in
    /// `color_keyword`, until it is decided which color `white` shall be.
    pub fn parse(pattern: &[&str], arbitrary: &TailwindArbitrary) -> (color: Result<
        Self,
        SyntaxError,
    >)
        ensures
            outcome(color) == color_parse(words(pattern@), arbitrary@),
    {
        if pattern.len() == 0 {
            Ok(TailwindColor::Arbitrary(arbitrary.clone()))
        } else if pattern.len() == 1 {
            let token = pattern[0];
            if str_eq(token, "none") || str_eq(token, "transparent") {
                Ok(TailwindColor::Keyword("transparent".to_owned()))
            } else if str_eq(token, "black") || str_eq(token, "white") {
                Ok(TailwindColor::Keyword("black".to_owned()))
            } else {
                Ok(TailwindColor::Keyword(token.to_owned()))
            }
        } else if pattern.len() == 2 {
            TailwindColor::parse_themed(pattern[0], pattern[1])
        } else {
            Err(SyntaxError::new(SyntaxErrorKind::UnknownColor, join_tokens(pattern).as_str()))
        }
    }

    /// A themed color from its name and the text of its weight.
    pub fn parse_themed(name: &str, weight: &str) -> (color: Result<TailwindColor, SyntaxError>)
        ensures
            outcome(color) == color_themed(name@, weight@),
    {
        let number = match TailwindArbitrary::new(weight).as_integer() {
            Ok(number) => number,
            Err(error) => {
                return Err(error);
            },
        };
        if number < 0 {
            return Err(SyntaxError::new(SyntaxErrorKind::NegativeWeight, weight));
        }
        Ok(TailwindColor::Themed(name.to_owned(), number as u32))
    }

    /// The class-name text of the color.
    pub fn get_class(&self) -> (class: String)
        ensures
            class@ == color_text(self@),
    {
        match self {
            TailwindColor::Themed(name, weight) => {
                let mut class = name.clone();
                proof {
                    reveal_strlit("-");
                    assert("-"@ =~= seq!['-']);
                }
                class.append("-");
                push_u32(&mut class, *weight);
                class
            },
            TailwindColor::Keyword(keyword) => keyword.clone(),
            TailwindColor::Static(keyword) => String::from_str(keyword),
            TailwindColor::Arbitrary(raw) => raw.get_class(),
        }
    }
}

} // verus!
