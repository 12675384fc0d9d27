//! The `scroll-p*` utilities: the scroll padding of a scroll container.

use vstd::prelude::*;
use vstd::string::*;
use crate::arbitrary::TailwindArbitrary;
use crate::error::{failure, outcome, SyntaxError, SyntaxErrorKind, SyntaxErrorModel};
use crate::negative::{sign_text, Negative};
use crate::spacing::{
    axis_id, axis_ids, axis_letter, padding_axis_of, size_arbitrary, size_parse, size_text,
    SizeModel, SpacingAxis, SpacingSize,
};
use crate::text::{join_tokens, joined, str_eq, texts, words};

verus! {

/// A resolved scroll-padding utility.
#[derive(Debug)]
pub struct TailwindScrollPadding {
    negative: Negative,
    axis: SpacingAxis,
    size: SpacingSize,
}

/// A scroll-padding utility as a plain value.
pub struct ScrollPaddingModel {
    pub negative: Negative,
    pub axis: SpacingAxis,
    pub size: SizeModel,
}

impl View for TailwindScrollPadding {
    type V = ScrollPaddingModel;

    closed spec fn view(&self) -> ScrollPaddingModel {
        ScrollPaddingModel { negative: self.negative, axis: self.axis, size: self.size@ }
    }
}

/// The name of the CSS property, from which the collision identifiers are made.
pub open spec fn scroll_padding_kind() -> Seq<char> {
    "scroll-padding"@
}

/// The class name of a scroll-padding utility.
pub open spec fn scroll_padding_class(padding: ScrollPaddingModel) -> Seq<char> {
    sign_text(padding.negative) + "scroll-p"@ + axis_letter(padding.axis) + seq!['-'] + size_text(
        padding.size,
    )
}

/// The keywords that every CSS property takes. They are the keyword sizes of
/// scroll padding.
pub open spec fn is_global_keyword(mode: Seq<char>) -> bool {
    ||| mode == "inherit"@
    ||| mode == "initial"@
    ||| mode == "revert"@
    ||| mode == "unset"@
}

/// The utility that an axis, a negative marker and the outcome of the size parser
/// make.
pub open spec fn scroll_padding_with(
    size: Result<SizeModel, SyntaxErrorModel>,
    axis: SpacingAxis,
    negative: Negative,
) -> Result<ScrollPaddingModel, SyntaxErrorModel> {
    match size {
        Ok(size) => Ok(ScrollPaddingModel { negative, axis, size }),
        Err(error) => Err(error),
    }
}

/// What `TailwindScrollPadding::parse` makes of a pattern: the first token names
/// the axis, the rest is a size. Whatever the axis, the size is read in the same
/// way.
pub open spec fn scroll_padding_parse(
    tokens: Seq<Seq<char>>,
    arbitrary: Seq<char>,
    negative: Negative,
) -> Result<ScrollPaddingModel, SyntaxErrorModel> {
    if tokens.len() == 0 {
        failure(SyntaxErrorKind::UnknownAxis, joined(tokens))
    } else {
        match padding_axis_of(tokens[0]) {
            None => failure(SyntaxErrorKind::UnknownAxis, joined(tokens)),
            Some(axis) => scroll_padding_with(
                size_parse(
                    tokens.drop_first(),
                    arbitrary,
                    tokens.len() == 2 && is_global_keyword(tokens[1]),
                ),
                axis,
                negative,
            ),
        }
    }
}

impl Clone for TailwindScrollPadding {
    fn clone(&self) -> (copy: Self)
        ensures
            copy == *self,
    {
        TailwindScrollPadding {
            negative: self.negative,
            axis: self.axis,
            size: self.size.clone(),
        }
    }
}

impl TailwindScrollPadding {
    /// Reads a scroll-padding utility from the tokens that follow `scroll`.
    pub fn parse(
        pattern: &[&str],
        arbitrary: &TailwindArbitrary,
        negative: Negative,
    ) -> (padding: Result<Self, SyntaxError>)
        ensures
            outcome(padding) == scroll_padding_parse(words(pattern@), arbitrary@, negative),
    {
        let axis = if pattern.len() == 0 {
            None
        } else {
            SpacingAxis::padding(pattern[0])
        };
        let axis = match axis {
            Some(axis) => axis,
            None => {
                return Err(
                    SyntaxError::new(SyntaxErrorKind::UnknownAxis, join_tokens(pattern).as_str()),
                );
            },
        };
        let rest = vstd::slice::slice_subrange(pattern, 1, pattern.len());
        proof {
            assert(rest@ =~= pattern@.drop_first());
            assert(words(rest@) =~= words(pattern@).drop_first());
        }
        match SpacingSize::parse(rest, arbitrary, Self::check_valid) {
            Ok(size) => Ok(TailwindScrollPadding { negative, axis, size }),
            Err(error) => Err(error),
        }
    }

    /// A scroll-padding utility on `axis` whose size is the arbitrary value.
    pub fn parse_arbitrary(
        arbitrary: &TailwindArbitrary,
        axis: SpacingAxis,
        negative: Negative,
    ) -> (padding: Result<Self, SyntaxError>)
        ensures
            outcome(padding) == scroll_padding_with(size_arbitrary(arbitrary@), axis, negative),
    {
        match SpacingSize::parse_arbitrary(arbitrary) {
            Ok(size) => Ok(TailwindScrollPadding { negative, axis, size }),
            Err(error) => Err(error),
        }
    }

    /// Whether `mode` is a keyword size of scroll padding.
    pub fn check_valid(mode: &str) -> (valid: bool)
        ensures
            valid == is_global_keyword(mode@),
    {
        str_eq(mode, "inherit") || str_eq(mode, "initial") || str_eq(mode, "revert") || str_eq(
            mode,
            "unset",
        )
    }

    /// The negative marker that came with the utility.
    pub fn negative(&self) -> (negative: Negative)
        ensures
            negative == self@.negative,
    {
        self.negative
    }

    /// The axis that the utility acts on.
    pub fn axis(&self) -> (axis: SpacingAxis)
        ensures
            axis == self@.axis,
    {
        self.axis
    }

    /// The size that the utility sets.
    pub fn size(&self) -> (size: &SpacingSize)
        ensures
            size@ == self@.size,
    {
        &self.size
    }

    /// The primary collision identifier: the property on the utility's axis.
    pub fn collision_id(&self) -> (id: String)
        ensures
            id@ == axis_id(scroll_padding_kind(), self@.axis),
    {
        self.axis.collision_id("scroll-padding")
    }

    /// Every collision identifier of the utility: its own, then those of the
    /// narrower axes that its axis covers.
    pub fn get_collisions(&self) -> (ids: Vec<String>)
        ensures
            texts(ids@) == axis_ids(scroll_padding_kind(), self@.axis),
    {
        self.axis.collisions("scroll-padding")
    }

    /// The canonical class name.
    pub fn render(&self) -> (class: String)
        ensures
            class@ == scroll_padding_class(self@),
    {
        let mut class = String::new();
        self.negative.write(&mut class);
        class.append("scroll-p");
        class.append(self.axis.letter());
        proof {
            reveal_strlit("-");
            assert("-"@ =~= seq!['-']);
        }
        class.append("-");
        self.size.write(&mut class);
        assert(class@ =~= scroll_padding_class(self@));
        class
    }
}

} // verus!
