//! Anchor points: the nine named positions of a box, or an arbitrary position.

use vstd::prelude::*;
use vstd::string::*;
use crate::arbitrary::{bracketed, TailwindArbitrary};
use crate::error::{failure, outcome, SyntaxError, SyntaxErrorKind, SyntaxErrorModel};
use crate::text::{join_tokens, joined, str_eq, words};

verus! {

/// One of the nine canonical positions.
#[derive(Clone, Copy, Debug, PartialEq, Eq, Structural)]
pub enum Anchor {
    LeftTop,
    Top,
    RightTop,
    Left,
    Center,
    Right,
    LeftBottom,
    Bottom,
    RightBottom,
}

/// A position given by name or by an arbitrary value.
#[derive(Debug, PartialEq, Eq)]
pub enum AnchorPoint {
    Position(Anchor),
    Arbitrary(TailwindArbitrary),
}

/// An anchor point as a plain value.
pub enum AnchorModel {
    Position(Anchor),
    Arbitrary(Seq<char>),
}

impl View for AnchorPoint {
    type V = AnchorModel;

    open spec fn view(&self) -> AnchorModel {
        match self {
            AnchorPoint::Position(anchor) => AnchorModel::Position(*anchor),
            AnchorPoint::Arbitrary(raw) => AnchorModel::Arbitrary(raw@),
        }
    }
}

/// The canonical name of a position: the horizontal side first.
pub open spec fn anchor_text(anchor: Anchor) -> Seq<char> {
    match anchor {
        Anchor::LeftTop => "left-top"@,
        Anchor::Top => "top"@,
        Anchor::RightTop => "right-top"@,
        Anchor::Left => "left"@,
        Anchor::Center => "center"@,
        Anchor::Right => "right"@,
        Anchor::LeftBottom => "left-bottom"@,
        Anchor::Bottom => "bottom"@,
        Anchor::RightBottom => "right-bottom"@,
    }
}

/// The class-name text of an anchor point.
pub open spec fn anchor_class(point: AnchorModel) -> Seq<char> {
    match point {
        AnchorModel::Position(anchor) => anchor_text(anchor),
        AnchorModel::Arbitrary(raw) => bracketed(raw),
    }
}

/// The position that one token names. A lone `center` counts only where the call
/// site allows it.
pub open spec fn edge_of(token: Seq<char>, allow_center: bool) -> Option<Anchor> {
    if token == "left"@ {
        Some(Anchor::Left)
    } else if token == "right"@ {
        Some(Anchor::Right)
    } else if token == "top"@ {
        Some(Anchor::Top)
    } else if token == "bottom"@ {
        Some(Anchor::Bottom)
    } else if token == "center"@ && allow_center {
        Some(Anchor::Center)
    } else {
        None
    }
}

/// The corner named by a horizontal side and a vertical side.
pub open spec fn corner_of(horizontal: Seq<char>, vertical: Seq<char>) -> Option<Anchor> {
    if horizontal == "left"@ && vertical == "top"@ {
        Some(Anchor::LeftTop)
    } else if horizontal == "left"@ && vertical == "bottom"@ {
        Some(Anchor::LeftBottom)
    } else if horizontal == "right"@ && vertical == "top"@ {
        Some(Anchor::RightTop)
    } else if horizontal == "right"@ && vertical == "bottom"@ {
        Some(Anchor::RightBottom)
    } else {
        None
    }
}

/// The position that one or two tokens name. Two tokens name a corner, in either
/// order; two sides of the same axis name nothing.
pub open spec fn anchor_of(tokens: Seq<Seq<char>>, allow_center: bool) -> Option<Anchor> {
    if tokens.len() == 1 {
        edge_of(tokens[0], allow_center)
    } else if tokens.len() == 2 {
        match corner_of(tokens[0], tokens[1]) {
            Some(anchor) => Some(anchor),
            None => corner_of(tokens[1], tokens[0]),
        }
    } else {
        None
    }
}

/// What `AnchorPoint::parse` makes of a pattern and an arbitrary value.
pub open spec fn anchor_parse(
    tokens: Seq<Seq<char>>,
    arbitrary: Seq<char>,
    allow_center: bool,
) -> Result<AnchorModel, SyntaxErrorModel> {
    if tokens.len() == 0 {
        if arbitrary.len() > 0 {
            Ok(AnchorModel::Arbitrary(arbitrary))
        } else {
            failure(SyntaxErrorKind::MissingValue, Seq::empty())
        }
    } else {
        match anchor_of(tokens, allow_center) {
            Some(anchor) => Ok(AnchorModel::Position(anchor)),
            None => failure(SyntaxErrorKind::UnknownAnchor, joined(tokens)),
        }
    }
}

/// The keyword values of a CSS position.
pub open spec fn is_anchor_keyword(mode: Seq<char>) -> bool {
    ||| mode == "bottom"@
    ||| mode == "center"@
    ||| mode == "inherit"@
    ||| mode == "initial"@
    ||| mode == "left"@
    ||| mode == "revert"@
    ||| mode == "right"@
    ||| mode == "top"@
    ||| mode == "unset"@
}

impl Anchor {
    /// The canonical name of the position.
    pub fn name(self) -> (text: &'static str)
        ensures
            text@ == anchor_text(self),
    {
        match self {
            Anchor::LeftTop => "left-top",
            Anchor::Top => "top",
            Anchor::RightTop => "right-top",
            Anchor::Left => "left",
            Anchor::Center => "center",
            Anchor::Right => "right",
            Anchor::LeftBottom => "left-bottom",
            Anchor::Bottom => "bottom",
            Anchor::RightBottom => "right-bottom",
        }
    }

    /// The position named by a single token.
    pub fn edge(token: &str, allow_center: bool) -> (anchor: Option<Anchor>)
        ensures
            anchor == edge_of(token@, allow_center),
    {
        if str_eq(token, "left") {
            Some(Anchor::Left)
        } else if str_eq(token, "right") {
            Some(Anchor::Right)
        } else if str_eq(token, "top") {
            Some(Anchor::Top)
        } else if str_eq(token, "bottom") {
            Some(Anchor::Bottom)
        } else if allow_center && str_eq(token, "center") {
            Some(Anchor::Center)
        } else {
            None
        }
    }

    /// The corner named by a horizontal side and a vertical side.
    pub fn corner(horizontal: &str, vertical: &str) -> (anchor: Option<Anchor>)
        ensures
            anchor == corner_of(horizontal@, vertical@),
    {
        let left = str_eq(horizontal, "left");
        let right = str_eq(horizontal, "right");
        let top = str_eq(vertical, "top");
        let bottom = str_eq(vertical, "bottom");
        if left && top {
            Some(Anchor::LeftTop)
        } else if left && bottom {
            Some(Anchor::LeftBottom)
        } else if right && top {
            Some(Anchor::RightTop)
        } else if right && bottom {
            Some(Anchor::RightBottom)
        } else {
            None
        }
    }
}

impl Clone for AnchorPoint {
    fn clone(&self) -> (copy: Self)
        ensures
            copy == *self,
    {
        match self {
            AnchorPoint::Position(anchor) => AnchorPoint::Position(*anchor),
            AnchorPoint::Arbitrary(raw) => AnchorPoint::Arbitrary(raw.clone()),
        }
    }
}

impl AnchorPoint {
    /// Reads an anchor point from one or two tokens, or from the arbitrary value
    /// where there is no token.
    pub fn parse(
        pattern: &[&str],
        arbitrary: &TailwindArbitrary,
        allow_center: bool,
    ) -> (point: Result<Self, SyntaxError>)
        ensures
            outcome(point) == anchor_parse(words(pattern@), arbitrary@, allow_center),
    {
        let named = if pattern.len() == 0 {
            if arbitrary.is_some() {
                return Ok(AnchorPoint::Arbitrary(arbitrary.clone()));
            }
            proof {
                reveal_strlit("");
                assert(""@ =~= Seq::<char>::empty());
            }
            return Err(SyntaxError::new(SyntaxErrorKind::MissingValue, ""));
        } else if pattern.len() == 1 {
            Anchor::edge(pattern[0], allow_center)
        } else if pattern.len() == 2 {
            match Anchor::corner(pattern[0], pattern[1]) {
                Some(anchor) => Some(anchor),
                None => Anchor::corner(pattern[1], pattern[0]),
            }
        } else {
            None
        };
        match named {
            Some(anchor) => Ok(AnchorPoint::Position(anchor)),
            None => Err(
                SyntaxError::new(SyntaxErrorKind::UnknownAnchor, join_tokens(pattern).as_str()),
            ),
        }
    }

    /// The class-name text of the anchor point.
    pub fn get_class(&self) -> (class: String)
        ensures
            class@ == anchor_class(self@),
    {
        match self {
            AnchorPoint::Position(anchor) => String::from_str(anchor.name()),
            AnchorPoint::Arbitrary(raw) => raw.get_class(),
        }
    }

    /// Whether `mode` is a keyword value of a CSS position.
    pub fn check_valid(mode: &str) -> (valid: bool)
        ensures
            valid == is_anchor_keyword(mode@),
    {
        str_eq(mode, "bottom") || str_eq(mode, "center") || str_eq(mode, "inherit") || str_eq(
            mode,
            "initial",
        ) || str_eq(mode, "left") || str_eq(mode, "revert") || str_eq(mode, "right") || str_eq(
            mode,
            "top",
        ) || str_eq(mode, "unset")
    }
}

} // verus!
