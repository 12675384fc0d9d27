//! Dimensions: a keyword, a number with an optional length unit, or an arbitrary
//! value, with the negative marker that came with it.

use vstd::prelude::*;
use vstd::string::*;
use vstd::utf8::*;
use crate::arbitrary::{bracketed, TailwindArbitrary};
use crate::error::{
    failure, found, outcome, SyntaxError, SyntaxErrorKind, SyntaxErrorModel,
};
use crate::negative::{sign_text, Negative};
use crate::text::{
    digit_run, is_digit, join_tokens, joined, lemma_digit_run, lemma_digit_run_bounds, numeral,
    numeral_u32, parse_u32, push_u32, str_eq, words,
};

verus! {

/// The units a length may be measured in.
#[derive(Clone, Copy, Debug, PartialEq, Eq, Structural)]
pub enum LengthUnit {
    Px,
    Em,
    Rem,
    Percent,
    Vw,
    Vh,
}

/// How large a dimension is, apart from its sign.
#[derive(Debug, PartialEq, Eq)]
pub enum Magnitude {
    /// The keyword `px`: one pixel.
    Px,
    /// The keyword `full`: all of the containing box.
    Full,
    /// The keyword `auto`.
    Auto,
    /// A step of the numeric scale.
    Number(u32),
    /// A number with a unit.
    Length(u32, LengthUnit),
    /// A raw value from bracket syntax.
    Arbitrary(TailwindArbitrary),
}

/// A dimension: a magnitude and the negative marker.
#[derive(Debug, PartialEq, Eq)]
pub struct UnitValue {
    pub negative: Negative,
    pub magnitude: Magnitude,
}

/// A magnitude as a plain value.
pub enum MagnitudeModel {
    Px,
    Full,
    Auto,
    Number(u32),
    Length(u32, LengthUnit),
    Arbitrary(Seq<char>),
}

/// A dimension as a plain value.
pub struct UnitModel {
    pub negative: Negative,
    pub magnitude: MagnitudeModel,
}

impl View for Magnitude {
    type V = MagnitudeModel;

    open spec fn view(&self) -> MagnitudeModel {
        match self {
            Magnitude::Px => MagnitudeModel::Px,
            Magnitude::Full => MagnitudeModel::Full,
            Magnitude::Auto => MagnitudeModel::Auto,
            Magnitude::Number(n) => MagnitudeModel::Number(*n),
            Magnitude::Length(n, unit) => MagnitudeModel::Length(*n, *unit),
            Magnitude::Arbitrary(raw) => MagnitudeModel::Arbitrary(raw@),
        }
    }
}

impl View for UnitValue {
    type V = UnitModel;

    open spec fn view(&self) -> UnitModel {
        UnitModel { negative: self.negative, magnitude: self.magnitude@ }
    }
}

/// The suffix that names a unit.
pub open spec fn unit_text(unit: LengthUnit) -> Seq<char> {
    match unit {
        LengthUnit::Px => "px"@,
        LengthUnit::Em => "em"@,
        LengthUnit::Rem => "rem"@,
        LengthUnit::Percent => "%"@,
        LengthUnit::Vw => "vw"@,
        LengthUnit::Vh => "vh"@,
    }
}

/// The unit that a suffix names.
pub open spec fn unit_of(suffix: Seq<char>) -> Option<LengthUnit> {
    if suffix == "px"@ {
        Some(LengthUnit::Px)
    } else if suffix == "em"@ {
        Some(LengthUnit::Em)
    } else if suffix == "rem"@ {
        Some(LengthUnit::Rem)
    } else if suffix == "%"@ {
        Some(LengthUnit::Percent)
    } else if suffix == "vw"@ {
        Some(LengthUnit::Vw)
    } else if suffix == "vh"@ {
        Some(LengthUnit::Vh)
    } else {
        None
    }
}

/// The keyword tier: the magnitude that a keyword token names.
pub open spec fn keyword_of(token: Seq<char>) -> Option<MagnitudeModel> {
    if token == "px"@ {
        Some(MagnitudeModel::Px)
    } else if token == "full"@ {
        Some(MagnitudeModel::Full)
    } else if token == "auto"@ {
        Some(MagnitudeModel::Auto)
    } else {
        None
    }
}

/// The numeric tier: a numeral that fits in 32 bits, followed by nothing or by
/// the name of a unit.
pub open spec fn measure_of(token: Seq<char>) -> Option<MagnitudeModel> {
    let digits = digit_run(token) as int;
    if digits == 0 {
        None
    } else {
        match numeral_u32(token.take(digits)) {
            None => None,
            Some(n) => if digits == token.len() {
                Some(MagnitudeModel::Number(n))
            } else {
                match unit_of(token.skip(digits)) {
                    Some(unit) => Some(MagnitudeModel::Length(n, unit)),
                    None => None,
                }
            },
        }
    }
}

/// What the dimension parser makes of a pattern and an arbitrary value: a single
/// token is tried as a keyword, then as a number; with no token at all the
/// arbitrary value is taken. The first tier that matches decides.
pub open spec fn magnitude_parse(tokens: Seq<Seq<char>>, arbitrary: Seq<char>) -> Result<
    MagnitudeModel,
    SyntaxErrorModel,
> {
    if tokens.len() == 0 {
        if arbitrary.len() > 0 {
            Ok(MagnitudeModel::Arbitrary(arbitrary))
        } else {
            failure(SyntaxErrorKind::MissingValue, Seq::empty())
        }
    } else if tokens.len() == 1 {
        match keyword_of(tokens[0]) {
            Some(magnitude) => Ok(magnitude),
            None => match measure_of(tokens[0]) {
                Some(magnitude) => Ok(magnitude),
                None => failure(SyntaxErrorKind::UnknownValue, joined(tokens)),
            },
        }
    } else {
        failure(SyntaxErrorKind::UnknownValue, joined(tokens))
    }
}

/// What `UnitValue::parse` returns: the magnitude read from the pattern, with the
/// negative marker as it was handed in.
pub open spec fn unit_parse(tokens: Seq<Seq<char>>, arbitrary: Seq<char>, negative: Negative)
    -> Result<UnitModel, SyntaxErrorModel> {
    match magnitude_parse(tokens, arbitrary) {
        Ok(magnitude) => Ok(UnitModel { negative, magnitude }),
        Err(error) => Err(error),
    }
}

/// The class-name text of a magnitude.
pub open spec fn magnitude_text(magnitude: MagnitudeModel) -> Seq<char> {
    match magnitude {
        MagnitudeModel::Px => "px"@,
        MagnitudeModel::Full => "full"@,
        MagnitudeModel::Auto => "auto"@,
        MagnitudeModel::Number(n) => numeral(n as nat),
        MagnitudeModel::Length(n, unit) => numeral(n as nat) + unit_text(unit),
        MagnitudeModel::Arbitrary(raw) => bracketed(raw),
    }
}

/// The keyword values of a CSS length that may be `auto`.
pub open spec fn is_auto_keyword(mode: Seq<char>) -> bool {
    ||| mode == "auto"@
    ||| mode == "inherit"@
    ||| mode == "initial"@
    ||| mode == "revert"@
    ||| mode == "unset"@
}

/// The name of every unit is made of ASCII characters and does not begin with a
/// digit.
pub proof fn lemma_unit_text(unit: LengthUnit)
    ensures
        is_ascii_chars(unit_text(unit)),
        unit_text(unit).len() > 0,
        !is_digit(unit_text(unit)[0]),
        unit_of(unit_text(unit)) == Some(unit),
{
    reveal_strlit("px");
    reveal_strlit("em");
    reveal_strlit("rem");
    reveal_strlit("%");
    reveal_strlit("vw");
    reveal_strlit("vh");
    let s = unit_text(unit);
    assert(unit_text(LengthUnit::Px)[0] == 'p');
    assert(unit_text(LengthUnit::Em)[0] == 'e');
    assert(unit_text(LengthUnit::Rem)[0] == 'r');
    assert(unit_text(LengthUnit::Percent)[0] == '%');
    assert(unit_text(LengthUnit::Vw)[1] == 'w');
    assert(unit_text(LengthUnit::Vh)[1] == 'h');
}

/// A suffix names a unit only if it is that unit's name.
pub proof fn lemma_unit_of(suffix: Seq<char>)
    ensures
        unit_of(suffix) matches Some(unit) ==> unit_text(unit) == suffix,
{
}

/// A token of the numeric tier is made of ASCII characters.
pub proof fn lemma_measure_ascii(token: Seq<char>)
    requires
        measure_of(token) is Some,
    ensures
        is_ascii_chars(token),
{
    let digits = digit_run(token) as int;
    lemma_digit_run_bounds(token);
    if digits < token.len() {
        let unit = unit_of(token.skip(digits))->0;
        lemma_unit_of(token.skip(digits));
        lemma_unit_text(unit);
    }
    assert forall|i: int| 0 <= i < token.len() implies '\0' <= #[trigger] token[i]
        <= '\u{7f}' by {
        if i < digits {
            assert(is_digit(token[i]));
        } else {
            assert(token[i] == token.skip(digits)[i - digits]);
        }
    }
}

/// Whether `mode` is a keyword value of a CSS length that may be `auto`.
pub fn check_valid_auto(mode: &str) -> (valid: bool)
    ensures
        valid == is_auto_keyword(mode@),
{
    str_eq(mode, "auto") || str_eq(mode, "inherit") || str_eq(mode, "initial") || str_eq(
        mode,
        "revert",
    ) || str_eq(mode, "unset")
}

impl LengthUnit {
    /// The suffix that names the unit.
    pub fn name(self) -> (text: &'static str)
        ensures
            text@ == unit_text(self),
    {
        match self {
            LengthUnit::Px => "px",
            LengthUnit::Em => "em",
            LengthUnit::Rem => "rem",
            LengthUnit::Percent => "%",
            LengthUnit::Vw => "vw",
            LengthUnit::Vh => "vh",
        }
    }

    /// The unit that a suffix names.
    pub fn parse(suffix: &str) -> (unit: Option<LengthUnit>)
        ensures
            unit == unit_of(suffix@),
    {
        if str_eq(suffix, "px") {
            Some(LengthUnit::Px)
        } else if str_eq(suffix, "em") {
            Some(LengthUnit::Em)
        } else if str_eq(suffix, "rem") {
            Some(LengthUnit::Rem)
        } else if str_eq(suffix, "%") {
            Some(LengthUnit::Percent)
        } else if str_eq(suffix, "vw") {
            Some(LengthUnit::Vw)
        } else if str_eq(suffix, "vh") {
            Some(LengthUnit::Vh)
        } else {
            None
        }
    }
}

impl Clone for Magnitude {
    fn clone(&self) -> (copy: Self)
        ensures
            copy == *self,
    {
        match self {
            Magnitude::Px => Magnitude::Px,
            Magnitude::Full => Magnitude::Full,
            Magnitude::Auto => Magnitude::Auto,
            Magnitude::Number(n) => Magnitude::Number(*n),
            Magnitude::Length(n, unit) => Magnitude::Length(*n, *unit),
            Magnitude::Arbitrary(raw) => Magnitude::Arbitrary(raw.clone()),
        }
    }
}

impl Magnitude {
    /// The keyword tier of the dimension grammar.
    pub fn keyword(token: &str) -> (magnitude: Option<Magnitude>)
        ensures
            found(magnitude) == keyword_of(token@),
    {
        if str_eq(token, "px") {
            Some(Magnitude::Px)
        } else if str_eq(token, "full") {
            Some(Magnitude::Full)
        } else if str_eq(token, "auto") {
            Some(Magnitude::Auto)
        } else {
            None
        }
    }

    /// The numeric tier of the dimension grammar.
    pub fn measure(token: &str) -> (magnitude: Option<Magnitude>)
        ensures
            found(magnitude) == measure_of(token@),
    {
        if !token.is_ascii() {
            proof {
                if measure_of(token@) is Some {
                    lemma_measure_ascii(token@);
                }
            }
            return None;
        }
        let bytes = token.as_bytes();
        proof {
            is_ascii_chars_encode_utf8(token@);
        }
        let len = bytes.len();
        let mut digits: usize = 0;
        while digits < len && 48 <= bytes[digits] && bytes[digits] <= 57
            invariant
                digits <= len,
                len == bytes@.len(),
                bytes@.len() == token@.len(),
                is_ascii_chars(token@),
                forall|j: int| 0 <= j < token@.len() ==> token@[j] as u8 == #[trigger] bytes@[j],
                forall|j: int| 0 <= j < digits ==> is_digit(#[trigger] token@[j]),
            decreases len - digits,
        {
            proof {
                assert(token@[digits as int] as u8 == bytes@[digits as int]);
                assert('\0' <= token@[digits as int] <= '\u{7f}');
            }
            digits += 1;
        }
        proof {
            if digits < len {
                assert(token@[digits as int] as u8 == bytes@[digits as int]);
                assert('\0' <= token@[digits as int] <= '\u{7f}');
            }
            lemma_digit_run(token@, digits as int);
        }
        if digits == 0 {
            return None;
        }
        let head = token.substring_ascii(0, digits);
        proof {
            assert(head@ =~= token@.take(digits as int));
        }
        let n = match parse_u32(head) {
            Some(n) => n,
            None => {
                return None;
            },
        };
        if digits == len {
            return Some(Magnitude::Number(n));
        }
        let tail = token.substring_ascii(digits, len);
        proof {
            assert(tail@ =~= token@.skip(digits as int));
        }
        match LengthUnit::parse(tail) {
            Some(unit) => Some(Magnitude::Length(n, unit)),
            None => None,
        }
    }

    /// Reads a magnitude from the pattern, or from the arbitrary value where the
    /// pattern is empty.
    pub fn parse(pattern: &[&str], arbitrary: &TailwindArbitrary) -> (magnitude: Result<
        Self,
        SyntaxError,
    >)
        ensures
            outcome(magnitude) == magnitude_parse(words(pattern@), arbitrary@),
    {
        if pattern.len() == 0 {
            if arbitrary.is_some() {
                return Ok(Magnitude::Arbitrary(arbitrary.clone()));
            }
            proof {
                reveal_strlit("");
                assert(""@ =~= Seq::<char>::empty());
            }
            return Err(SyntaxError::new(SyntaxErrorKind::MissingValue, ""));
        }
        if pattern.len() == 1 {
            if let Some(magnitude) = Magnitude::keyword(pattern[0]) {
                return Ok(magnitude);
            }
            if let Some(magnitude) = Magnitude::measure(pattern[0]) {
                return Ok(magnitude);
            }
        }
        Err(SyntaxError::new(SyntaxErrorKind::UnknownValue, join_tokens(pattern).as_str()))
    }

    /// Appends the class-name text of the magnitude to `out`.
    pub fn write(&self, out: &mut String)
        ensures
            final(out)@ == old(out)@ + magnitude_text(self@),
    {
        match self {
            Magnitude::Px => out.append("px"),
            Magnitude::Full => out.append("full"),
            Magnitude::Auto => out.append("auto"),
            Magnitude::Number(n) => push_u32(out, *n),
            Magnitude::Length(n, unit) => {
                push_u32(out, *n);
                out.append(unit.name());
                assert(out@ =~= old(out)@ + magnitude_text(self@));
            },
            Magnitude::Arbitrary(raw) => raw.write(out),
        }
    }
}

impl Clone for UnitValue {
    fn clone(&self) -> (copy: Self)
        ensures
            copy == *self,
    {
        UnitValue { negative: self.negative, magnitude: self.magnitude.clone() }
    }
}

impl UnitValue {
    /// The dimension parser: keywords first, then numbers, then the arbitrary
    /// value. The negative marker is recorded as it was handed in.
    pub fn parse(
        pattern: &[&str],
        arbitrary: &TailwindArbitrary,
        negative: Negative,
    ) -> (value: Result<Self, SyntaxError>)
        ensures
            outcome(value) == unit_parse(words(pattern@), arbitrary@, negative),
    {
        match Magnitude::parse(pattern, arbitrary) {
            Ok(magnitude) => Ok(UnitValue { negative, magnitude }),
            Err(error) => Err(error),
        }
    }

    /// Appends the minus sign to `out` if the dimension is negative.
    pub fn write_negative(&self, out: &mut String)
        ensures
            final(out)@ == old(out)@ + sign_text(self@.negative),
    {
        self.negative.write(out);
    }

    /// Appends `before` and the text of the magnitude to `out`.
    pub fn write_class(&self, out: &mut String, before: &str)
        ensures
            final(out)@ == old(out)@ + before@ + magnitude_text(self@.magnitude),
    {
        out.append(before);
        self.magnitude.write(out);
    }
}

} // verus!
