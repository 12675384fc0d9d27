//! Spacing: the axis a spacing utility acts on, and the size it sets.

use vstd::prelude::*;
use vstd::string::*;
use crate::arbitrary::{bracketed, TailwindArbitrary};
use crate::error::{failure, outcome, SyntaxError, SyntaxErrorKind, SyntaxErrorModel};
use crate::text::{
    join_tokens, joined, numeral, numeral_u32, parse_u32, push_u32, str_eq, texts, words,
};

verus! {

/// The sides of a box that a spacing utility sets.
#[derive(Clone, Copy, Debug, PartialEq, Eq, Structural)]
pub enum SpacingAxis {
    All,
    X,
    Y,
    Top,
    Right,
    Bottom,
    Left,
}

/// The size that a spacing utility sets.
#[derive(Debug, PartialEq, Eq)]
pub enum SpacingSize {
    /// A step of the numeric scale.
    Unit(u32),
    /// A keyword: `px`, `full`, or one that the family accepts.
    Standard(String),
    /// A raw value from bracket syntax.
    Arbitrary(TailwindArbitrary),
}

/// A spacing size as a plain value.
pub enum SizeModel {
    Unit(u32),
    Standard(Seq<char>),
    Arbitrary(Seq<char>),
}

impl View for SpacingSize {
    type V = SizeModel;

    open spec fn view(&self) -> SizeModel {
        match self {
            SpacingSize::Unit(n) => SizeModel::Unit(*n),
            SpacingSize::Standard(keyword) => SizeModel::Standard(keyword@),
            SpacingSize::Arbitrary(raw) => SizeModel::Arbitrary(raw@),
        }
    }
}

/// The letter that names an axis in a class name. All sides have none.
pub open spec fn axis_letter(axis: SpacingAxis) -> Seq<char> {
    match axis {
        SpacingAxis::All => ""@,
        SpacingAxis::X => "x"@,
        SpacingAxis::Y => "y"@,
        SpacingAxis::Top => "t"@,
        SpacingAxis::Right => "r"@,
        SpacingAxis::Bottom => "b"@,
        SpacingAxis::Left => "l"@,
    }
}

/// The axis that a padding token names.
pub open spec fn padding_axis_of(token: Seq<char>) -> Option<SpacingAxis> {
    if token == "p"@ {
        Some(SpacingAxis::All)
    } else if token == "pl"@ {
        Some(SpacingAxis::Left)
    } else if token == "pr"@ {
        Some(SpacingAxis::Right)
    } else if token == "pt"@ {
        Some(SpacingAxis::Top)
    } else if token == "pb"@ {
        Some(SpacingAxis::Bottom)
    } else if token == "px"@ {
        Some(SpacingAxis::X)
    } else if token == "py"@ {
        Some(SpacingAxis::Y)
    } else {
        None
    }
}

/// What an axis adds to the name of a property to form its collision identifier.
pub open spec fn axis_suffix(axis: SpacingAxis) -> Seq<char> {
    match axis {
        SpacingAxis::All => ""@,
        SpacingAxis::X => "-x"@,
        SpacingAxis::Y => "-y"@,
        SpacingAxis::Top => "-top"@,
        SpacingAxis::Right => "-right"@,
        SpacingAxis::Bottom => "-bottom"@,
        SpacingAxis::Left => "-left"@,
    }
}

/// The collision identifier of a property on an axis.
pub open spec fn axis_id(kind: Seq<char>, axis: SpacingAxis) -> Seq<char> {
    kind + axis_suffix(axis)
}

/// The axes whose sides an axis sets: itself first, then every axis that shares a
/// side with it and is no wider.
pub open spec fn axis_covers(axis: SpacingAxis) -> Seq<SpacingAxis> {
    match axis {
        SpacingAxis::All => seq![
            SpacingAxis::All,
            SpacingAxis::X,
            SpacingAxis::Y,
            SpacingAxis::Top,
            SpacingAxis::Right,
            SpacingAxis::Bottom,
            SpacingAxis::Left,
        ],
        SpacingAxis::X => seq![SpacingAxis::X, SpacingAxis::Left, SpacingAxis::Right],
        SpacingAxis::Y => seq![SpacingAxis::Y, SpacingAxis::Top, SpacingAxis::Bottom],
        SpacingAxis::Top => seq![SpacingAxis::Top],
        SpacingAxis::Right => seq![SpacingAxis::Right],
        SpacingAxis::Bottom => seq![SpacingAxis::Bottom],
        SpacingAxis::Left => seq![SpacingAxis::Left],
    }
}

/// The collision identifiers of a property on an axis: one for each axis that it
/// covers.
pub open spec fn axis_ids(kind: Seq<char>, axis: SpacingAxis) -> Seq<Seq<char>> {
    axis_covers(axis).map_values(|covered: SpacingAxis| axis_id(kind, covered))
}

/// The class-name text of a size.
pub open spec fn size_text(size: SizeModel) -> Seq<char> {
    match size {
        SizeModel::Unit(n) => numeral(n as nat),
        SizeModel::Standard(keyword) => keyword,
        SizeModel::Arbitrary(raw) => bracketed(raw),
    }
}

/// The size that an arbitrary value gives: the value itself, unless it is absent.
pub open spec fn size_arbitrary(arbitrary: Seq<char>) -> Result<SizeModel, SyntaxErrorModel> {
    if arbitrary.len() > 0 {
        Ok(SizeModel::Arbitrary(arbitrary))
    } else {
        failure(SyntaxErrorKind::MissingValue, Seq::empty())
    }
}

/// What the size parser makes of a pattern and an arbitrary value, where
/// `accepted` is the family's verdict on the single token: a keyword is taken
/// first, then a number of the scale; with no token the arbitrary value decides.
pub open spec fn size_parse(tokens: Seq<Seq<char>>, arbitrary: Seq<char>, accepted: bool)
    -> Result<SizeModel, SyntaxErrorModel> {
    if tokens.len() == 0 {
        size_arbitrary(arbitrary)
    } else if tokens.len() == 1 {
        if tokens[0] == "px"@ || tokens[0] == "full"@ || accepted {
            Ok(SizeModel::Standard(tokens[0]))
        } else {
            match numeral_u32(tokens[0]) {
                Some(n) => Ok(SizeModel::Unit(n)),
                None => failure(SyntaxErrorKind::UnknownValue, joined(tokens)),
            }
        }
    } else {
        failure(SyntaxErrorKind::UnknownValue, joined(tokens))
    }
}

impl SpacingAxis {
    /// The axis that a padding token names.
    pub fn padding(token: &str) -> (axis: Option<SpacingAxis>)
        ensures
            axis == padding_axis_of(token@),
    {
        if str_eq(token, "p") {
            Some(SpacingAxis::All)
        } else if str_eq(token, "pl") {
            Some(SpacingAxis::Left)
        } else if str_eq(token, "pr") {
            Some(SpacingAxis::Right)
        } else if str_eq(token, "pt") {
            Some(SpacingAxis::Top)
        } else if str_eq(token, "pb") {
            Some(SpacingAxis::Bottom)
        } else if str_eq(token, "px") {
            Some(SpacingAxis::X)
        } else if str_eq(token, "py") {
            Some(SpacingAxis::Y)
        } else {
            None
        }
    }

    /// The letter that names the axis in a class name.
    pub fn letter(self) -> (text: &'static str)
        ensures
            text@ == axis_letter(self),
    {
        match self {
            SpacingAxis::All => "",
            SpacingAxis::X => "x",
            SpacingAxis::Y => "y",
            SpacingAxis::Top => "t",
            SpacingAxis::Right => "r",
            SpacingAxis::Bottom => "b",
            SpacingAxis::Left => "l",
        }
    }

    /// What the axis adds to the name of a property in a collision identifier.
    pub fn suffix(self) -> (text: &'static str)
        ensures
            text@ == axis_suffix(self),
    {
        match self {
            SpacingAxis::All => "",
            SpacingAxis::X => "-x",
            SpacingAxis::Y => "-y",
            SpacingAxis::Top => "-top",
            SpacingAxis::Right => "-right",
            SpacingAxis::Bottom => "-bottom",
            SpacingAxis::Left => "-left",
        }
    }

    /// The axes whose sides this axis sets, itself first.
    pub fn covers(self) -> (axes: Vec<SpacingAxis>)
        ensures
            axes@ == axis_covers(self),
    {
        let mut axes: Vec<SpacingAxis> = Vec::new();
        axes.push(self);
        match self {
            SpacingAxis::All => {
                axes.push(SpacingAxis::X);
                axes.push(SpacingAxis::Y);
                axes.push(SpacingAxis::Top);
                axes.push(SpacingAxis::Right);
                axes.push(SpacingAxis::Bottom);
                axes.push(SpacingAxis::Left);
            },
            SpacingAxis::X => {
                axes.push(SpacingAxis::Left);
                axes.push(SpacingAxis::Right);
            },
            SpacingAxis::Y => {
                axes.push(SpacingAxis::Top);
                axes.push(SpacingAxis::Bottom);
            },
            _ => {},
        }
        assert(axes@ =~= axis_covers(self));
        axes
    }

    /// The primary collision identifier of the property `kind` on this axis.
    pub fn collision_id(&self, kind: &str) -> (id: String)
        ensures
            id@ == axis_id(kind@, *self),
    {
        let mut id = String::from_str(kind);
        id.append(self.suffix());
        id
    }

    /// Every collision identifier of the property `kind` on this axis: its own,
    /// then those of the narrower axes that it covers.
    pub fn collisions(&self, kind: &str) -> (ids: Vec<String>)
        ensures
            texts(ids@) == axis_ids(kind@, *self),
    {
        let covered = self.covers();
        let mut ids: Vec<String> = Vec::new();
        let mut i: usize = 0;
        while i < covered.len()
            invariant
                i <= covered.len(),
                covered@ == axis_covers(*self),
                texts(ids@) == axis_ids(kind@, *self).take(i as int),
            decreases covered.len() - i,
        {
            let ghost before = ids@;
            let id = covered[i].collision_id(kind);
            ids.push(id);
            proof {
                let all = axis_ids(kind@, *self);
                assert(all[i as int] == axis_id(kind@, covered@[i as int]));
                assert(texts(ids@) =~= texts(before).push(id@));
                assert(all.take(i + 1) =~= all.take(i as int).push(all[i as int]));
            }
            i += 1;
        }
        assert(axis_ids(kind@, *self).take(i as int) =~= axis_ids(kind@, *self));
        ids
    }
}

impl Clone for SpacingSize {
    fn clone(&self) -> (copy: Self)
        ensures
            copy == *self,
    {
        match self {
            SpacingSize::Unit(n) => SpacingSize::Unit(*n),
            SpacingSize::Standard(keyword) => SpacingSize::Standard(keyword.clone()),
            SpacingSize::Arbitrary(raw) => SpacingSize::Arbitrary(raw.clone()),
        }
    }
}

impl SpacingSize {
    /// Reads a size from the pattern, asking `check_valid` which keywords the
    /// family accepts. The predicate is asked about a single token, once; what is
    /// returned for either answer is `size_parse` with that answer.
    pub fn parse<F: Fn(&str) -> bool>(
        pattern: &[&str],
        arbitrary: &TailwindArbitrary,
        check_valid: F,
    ) -> (size: Result<Self, SyntaxError>)
        requires
            pattern@.len() == 1 ==> call_requires(check_valid, (pattern@[0],)),
        ensures
            pattern@.len() != 1 ==> outcome(size) == size_parse(
                words(pattern@),
                arbitrary@,
                false,
            ),
            pattern@.len() == 1 ==> exists|accepted: bool|
                call_ensures(check_valid, (pattern@[0],), accepted) && outcome(size) == size_parse(
                    words(pattern@),
                    arbitrary@,
                    accepted,
                ),
    {
        let accepted = pattern.len() == 1 && check_valid(pattern[0]);
        SpacingSize::parse_with_verdict(pattern, arbitrary, accepted)
    }

    /// Reads a size from the pattern, given the family's verdict on its single
    /// token.
    pub fn parse_with_verdict(
        pattern: &[&str],
        arbitrary: &TailwindArbitrary,
        accepted: bool,
    ) -> (size: Result<Self, SyntaxError>)
        ensures
            outcome(size) == size_parse(words(pattern@), arbitrary@, accepted),
    {
        if pattern.len() == 0 {
            return SpacingSize::parse_arbitrary(arbitrary);
        }
        if pattern.len() == 1 {
            let token = pattern[0];
            if accepted || str_eq(token, "px") || str_eq(token, "full") {
                return Ok(SpacingSize::Standard(token.to_owned()));
            }
            if let Some(n) = parse_u32(token) {
                return Ok(SpacingSize::Unit(n));
            }
        }
        Err(SyntaxError::new(SyntaxErrorKind::UnknownValue, join_tokens(pattern).as_str()))
    }

    /// The size that an arbitrary value gives.
    pub fn parse_arbitrary(arbitrary: &TailwindArbitrary) -> (size: Result<Self, SyntaxError>)
        ensures
            outcome(size) == size_arbitrary(arbitrary@),
    {
        if arbitrary.is_some() {
            Ok(SpacingSize::Arbitrary(arbitrary.clone()))
        } else {
            proof {
                reveal_strlit("");
                assert(""@ =~= Seq::<char>::empty());
            }
            Err(SyntaxError::new(SyntaxErrorKind::MissingValue, ""))
        }
    }

    /// Appends the class-name text of the size to `out`.
    pub fn write(&self, out: &mut String)
        ensures
            final(out)@ == old(out)@ + size_text(self@),
    {
        match self {
            SpacingSize::Unit(n) => push_u32(out, *n),
            SpacingSize::Standard(keyword) => out.append(keyword.as_str()),
            SpacingSize::Arbitrary(raw) => raw.write(out),
        }
    }
}

} // verus!
