//! Resolved utilities: the closed set of families, the dispatcher that selects a
//! family by its prefix, the renderer, and the collision identifiers.

use vstd::prelude::*;
use vstd::string::*;
use crate::anchor::{anchor_parse, AnchorModel};
use crate::arbitrary::TailwindArbitrary;
use crate::error::{failure, outcome, SyntaxError, SyntaxErrorKind, SyntaxErrorModel};
use crate::left::{left_class, left_id, TailwindLeft};
use crate::negative::{opens_with_minus, unsigned_tokens, Negative};
use crate::object_position::{object_position_class, object_position_id, TailwindObjectPosition};
use crate::padding_scroll::{
    scroll_padding_class, scroll_padding_kind, scroll_padding_parse, ScrollPaddingModel,
    TailwindScrollPadding,
};
use crate::spacing::{axis_id, axis_ids, padding_axis_of, SpacingAxis};
use crate::text::{join_tokens, joined, str_eq, texts, words};
use crate::unit::{unit_parse, UnitModel};

verus! {

/// The utility families that the dispatcher knows.
#[derive(Clone, Copy, Debug, PartialEq, Eq, Structural)]
pub enum Family {
    Left,
    ObjectPosition,
    ScrollPadding,
}

/// A utility that a token sequence resolved to: one variant for each family.
#[derive(Debug)]
pub enum ResolvedUtility {
    Left(TailwindLeft),
    ObjectPosition(TailwindObjectPosition),
    ScrollPadding(TailwindScrollPadding),
}

/// A resolved utility as a plain value.
pub enum UtilityModel {
    Left(UnitModel),
    ObjectPosition(AnchorModel),
    ScrollPadding(ScrollPaddingModel),
}

impl View for ResolvedUtility {
    type V = UtilityModel;

    open spec fn view(&self) -> UtilityModel {
        match self {
            ResolvedUtility::Left(left) => UtilityModel::Left(left@),
            ResolvedUtility::ObjectPosition(position) => UtilityModel::ObjectPosition(position@),
            ResolvedUtility::ScrollPadding(padding) => UtilityModel::ScrollPadding(padding@),
        }
    }
}

/// The views of a list of utilities.
pub open spec fn views(utilities: Seq<ResolvedUtility>) -> Seq<UtilityModel> {
    utilities.map_values(|utility: ResolvedUtility| utility@)
}

/// The token that opens the class names of a family.
pub open spec fn family_prefix(family: Family) -> Seq<char> {
    match family {
        Family::Left => "left"@,
        Family::ObjectPosition => "object"@,
        Family::ScrollPadding => "scroll"@,
    }
}

/// The family that the leading tokens select. The prefixes are tried in a fixed
/// order; a scroll utility is selected only together with the token of its axis.
pub open spec fn family_of(tokens: Seq<Seq<char>>) -> Option<Family> {
    if tokens.len() >= 1 && tokens[0] == family_prefix(Family::Left) {
        Some(Family::Left)
    } else if tokens.len() >= 1 && tokens[0] == family_prefix(Family::ObjectPosition) {
        Some(Family::ObjectPosition)
    } else if tokens.len() >= 2 && tokens[0] == family_prefix(Family::ScrollPadding)
        && padding_axis_of(tokens[1]) is Some {
        Some(Family::ScrollPadding)
    } else {
        None
    }
}

/// The family of a utility.
pub open spec fn utility_family(utility: UtilityModel) -> Family {
    match utility {
        UtilityModel::Left(_) => Family::Left,
        UtilityModel::ObjectPosition(_) => Family::ObjectPosition,
        UtilityModel::ScrollPadding(_) => Family::ScrollPadding,
    }
}

/// The outcome of a `left` parse as the outcome of the dispatcher.
pub open spec fn as_left(parsed: Result<UnitModel, SyntaxErrorModel>) -> Result<
    UtilityModel,
    SyntaxErrorModel,
> {
    match parsed {
        Ok(value) => Ok(UtilityModel::Left(value)),
        Err(error) => Err(error),
    }
}

/// The outcome of an `object` position parse as the outcome of the dispatcher.
pub open spec fn as_object_position(parsed: Result<AnchorModel, SyntaxErrorModel>) -> Result<
    UtilityModel,
    SyntaxErrorModel,
> {
    match parsed {
        Ok(value) => Ok(UtilityModel::ObjectPosition(value)),
        Err(error) => Err(error),
    }
}

/// The outcome of a scroll-padding parse as the outcome of the dispatcher.
pub open spec fn as_scroll_padding(parsed: Result<ScrollPaddingModel, SyntaxErrorModel>) -> Result<
    UtilityModel,
    SyntaxErrorModel,
> {
    match parsed {
        Ok(value) => Ok(UtilityModel::ScrollPadding(value)),
        Err(error) => Err(error),
    }
}

/// What the dispatcher makes of a token sequence whose negative marker has been
/// taken off: the prefix selects the family, the family's parser gets the tokens
/// after the prefix, and its outcome is passed on unchanged. An `object` position
/// has no negative form.
pub open spec fn signed_resolution(
    tokens: Seq<Seq<char>>,
    arbitrary: Seq<char>,
    negative: Negative,
) -> Result<UtilityModel, SyntaxErrorModel> {
    match family_of(tokens) {
        None => failure(SyntaxErrorKind::UnknownUtility, joined(tokens)),
        Some(Family::Left) => as_left(unit_parse(tokens.drop_first(), arbitrary, negative)),
        Some(Family::ObjectPosition) => if negative.0 {
            failure(SyntaxErrorKind::UnexpectedNegative, joined(tokens))
        } else {
            as_object_position(anchor_parse(tokens.drop_first(), arbitrary, true))
        },
        Some(Family::ScrollPadding) => as_scroll_padding(
            scroll_padding_parse(tokens.drop_first(), arbitrary, negative),
        ),
    }
}

/// What the dispatcher makes of a token sequence: a leading minus token is taken
/// off and recorded, the rest is resolved.
pub open spec fn resolution(tokens: Seq<Seq<char>>, arbitrary: Seq<char>) -> Result<
    UtilityModel,
    SyntaxErrorModel,
> {
    signed_resolution(unsigned_tokens(tokens), arbitrary, Negative(opens_with_minus(tokens)))
}

/// The canonical class name of a utility.
pub open spec fn utility_class(utility: UtilityModel) -> Seq<char> {
    match utility {
        UtilityModel::Left(value) => left_class(value),
        UtilityModel::ObjectPosition(point) => object_position_class(point),
        UtilityModel::ScrollPadding(padding) => scroll_padding_class(padding),
    }
}

/// The primary collision identifier of a utility.
pub open spec fn utility_id(utility: UtilityModel) -> Seq<char> {
    match utility {
        UtilityModel::Left(_) => left_id(),
        UtilityModel::ObjectPosition(_) => object_position_id(),
        UtilityModel::ScrollPadding(padding) => axis_id(scroll_padding_kind(), padding.axis),
    }
}

/// Every collision identifier of a utility, the primary one first.
pub open spec fn utility_ids(utility: UtilityModel) -> Seq<Seq<char>> {
    match utility {
        UtilityModel::Left(_) => seq![left_id()],
        UtilityModel::ObjectPosition(_) => seq![object_position_id()],
        UtilityModel::ScrollPadding(padding) => axis_ids(scroll_padding_kind(), padding.axis),
    }
}

/// Every collision identifier that a utility of the family can have.
pub open spec fn declared_ids(family: Family) -> Seq<Seq<char>> {
    match family {
        Family::Left => seq![left_id()],
        Family::ObjectPosition => seq![object_position_id()],
        Family::ScrollPadding => axis_ids(scroll_padding_kind(), SpacingAxis::All),
    }
}

/// Whether two lists of identifiers have an identifier in common.
pub open spec fn share_id(a: Seq<Seq<char>>, b: Seq<Seq<char>>) -> bool {
    exists|i: int, j: int| 0 <= i < a.len() && 0 <= j < b.len() && a[i] == b[j]
}

/// Two utilities collide when they have a collision identifier in common.
pub open spec fn collide(a: UtilityModel, b: UtilityModel) -> bool {
    share_id(utility_ids(a), utility_ids(b))
}

/// Whether two lists of identifiers have an identifier in common.
pub fn share_identifier(a: &Vec<String>, b: &Vec<String>) -> (shared: bool)
    ensures
        shared == share_id(texts(a@), texts(b@)),
{
    let mut i: usize = 0;
    while i < a.len()
        invariant
            i <= a.len(),
            forall|x: int, y: int|
                0 <= x < i && 0 <= y < b.len() ==> texts(a@)[x] != texts(b@)[y],
        decreases a.len() - i,
    {
        let mut j: usize = 0;
        while j < b.len()
            invariant
                i < a.len(),
                j <= b.len(),
                forall|x: int, y: int|
                    0 <= x < i && 0 <= y < b.len() ==> texts(a@)[x] != texts(b@)[y],
                forall|y: int| 0 <= y < j ==> texts(a@)[i as int] != texts(b@)[y],
            decreases b.len() - j,
        {
            if str_eq(a[i].as_str(), b[j].as_str()) {
                assert(texts(a@)[i as int] == texts(b@)[j as int]);
                return true;
            }
            j += 1;
        }
        i += 1;
    }
    false
}

impl Family {
    /// The token that opens the class names of the family.
    pub fn prefix(self) -> (token: &'static str)
        ensures
            token@ == family_prefix(self),
    {
        match self {
            Family::Left => "left",
            Family::ObjectPosition => "object",
            Family::ScrollPadding => "scroll",
        }
    }

    /// The family that the leading tokens select.
    pub fn select(tokens: &[&str]) -> (family: Option<Family>)
        ensures
            family == family_of(words(tokens@)),
    {
        if tokens.len() == 0 {
            None
        } else if str_eq(tokens[0], Family::Left.prefix()) {
            Some(Family::Left)
        } else if str_eq(tokens[0], Family::ObjectPosition.prefix()) {
            Some(Family::ObjectPosition)
        } else if tokens.len() >= 2 && str_eq(tokens[0], Family::ScrollPadding.prefix())
            && SpacingAxis::padding(tokens[1]).is_some() {
            Some(Family::ScrollPadding)
        } else {
            None
        }
    }
}

impl Clone for ResolvedUtility {
    fn clone(&self) -> (copy: Self)
        ensures
            copy == *self,
    {
        match self {
            ResolvedUtility::Left(left) => ResolvedUtility::Left(left.clone()),
            ResolvedUtility::ObjectPosition(position) => ResolvedUtility::ObjectPosition(
                position.clone(),
            ),
            ResolvedUtility::ScrollPadding(padding) => ResolvedUtility::ScrollPadding(
                padding.clone(),
            ),
        }
    }
}

impl ResolvedUtility {
    /// The family of the utility.
    pub fn family(&self) -> (family: Family)
        ensures
            family == utility_family(self@),
    {
        match self {
            ResolvedUtility::Left(_) => Family::Left,
            ResolvedUtility::ObjectPosition(_) => Family::ObjectPosition,
            ResolvedUtility::ScrollPadding(_) => Family::ScrollPadding,
        }
    }

    /// The canonical class name.
    pub fn render(&self) -> (class: String)
        ensures
            class@ == utility_class(self@),
    {
        match self {
            ResolvedUtility::Left(left) => left.render(),
            ResolvedUtility::ObjectPosition(position) => position.render(),
            ResolvedUtility::ScrollPadding(padding) => padding.render(),
        }
    }

    /// The primary collision identifier.
    pub fn collision_id(&self) -> (id: String)
        ensures
            id@ == utility_id(self@),
    {
        match self {
            ResolvedUtility::Left(left) => left.collision_id(),
            ResolvedUtility::ObjectPosition(position) => position.collision_id(),
            ResolvedUtility::ScrollPadding(padding) => padding.collision_id(),
        }
    }

    /// Every collision identifier of the utility, the primary one first.
    pub fn get_collisions(&self) -> (ids: Vec<String>)
        ensures
            texts(ids@) == utility_ids(self@),
    {
        match self {
            ResolvedUtility::Left(left) => left.get_collisions(),
            ResolvedUtility::ObjectPosition(position) => position.get_collisions(),
            ResolvedUtility::ScrollPadding(padding) => padding.get_collisions(),
        }
    }

    /// Whether the two utilities have a collision identifier in common.
    pub fn collides_with(&self, other: &ResolvedUtility) -> (colliding: bool)
        ensures
            colliding == collide(self@, other@),
    {
        let mine = self.get_collisions();
        let theirs = other.get_collisions();
        share_identifier(&mine, &theirs)
    }
}

/// Resolves a token sequence: takes a leading minus token off, selects the family
/// by the prefix and lets the family's parser read the rest.
pub fn dispatch(tokens: &[&str], arbitrary: &TailwindArbitrary) -> (utility: Result<
    ResolvedUtility,
    SyntaxError,
>)
    ensures
        outcome(utility) == resolution(words(tokens@), arbitrary@),
{
    let (negative, rest) = Negative::detect(tokens);
    dispatch_signed(rest, arbitrary, negative)
}

/// Resolves a token sequence whose negative marker the caller has already taken
/// off.
pub fn dispatch_signed(
    tokens: &[&str],
    arbitrary: &TailwindArbitrary,
    negative: Negative,
) -> (utility: Result<ResolvedUtility, SyntaxError>)
    ensures
        outcome(utility) == signed_resolution(words(tokens@), arbitrary@, negative),
{
    let family = match Family::select(tokens) {
        Some(family) => family,
        None => {
            return Err(
                SyntaxError::new(SyntaxErrorKind::UnknownUtility, join_tokens(tokens).as_str()),
            );
        },
    };
    let rest = vstd::slice::slice_subrange(tokens, 1, tokens.len());
    proof {
        assert(rest@ =~= tokens@.drop_first());
        assert(words(rest@) =~= words(tokens@).drop_first());
    }
    match family {
        Family::Left => match TailwindLeft::parse(rest, arbitrary, negative) {
            Ok(left) => Ok(ResolvedUtility::Left(left)),
            Err(error) => Err(error),
        },
        Family::ObjectPosition => {
            if negative.is_negative() {
                return Err(
                    SyntaxError::new(
                        SyntaxErrorKind::UnexpectedNegative,
                        join_tokens(tokens).as_str(),
                    ),
                );
            }
            match TailwindObjectPosition::parse(rest, arbitrary) {
                Ok(position) => Ok(ResolvedUtility::ObjectPosition(position)),
                Err(error) => Err(error),
            }
        },
        Family::ScrollPadding => match TailwindScrollPadding::parse(rest, arbitrary, negative) {
            Ok(padding) => Ok(ResolvedUtility::ScrollPadding(padding)),
            Err(error) => Err(error),
        },
    }
}

} // verus!
