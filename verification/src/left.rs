//! The `left` utility: the horizontal position of a positioned element.

use vstd::prelude::*;
use vstd::string::*;
use crate::arbitrary::TailwindArbitrary;
use crate::error::{outcome, SyntaxError};
use crate::negative::{sign_text, Negative};
use crate::text::{texts, words};
use crate::unit::{
    check_valid_auto, is_auto_keyword, magnitude_text, unit_parse, UnitModel, UnitValue,
};

verus! {

/// A resolved `left` utility.
#[derive(Debug)]
pub struct TailwindLeft {
    kind: UnitValue,
}

impl View for TailwindLeft {
    type V = UnitModel;

    closed spec fn view(&self) -> UnitModel {
        self.kind@
    }
}

/// The class name of a `left` utility.
pub open spec fn left_class(value: UnitModel) -> Seq<char> {
    sign_text(value.negative) + "left-"@ + magnitude_text(value.magnitude)
}

/// The collision identifier of every `left` utility.
pub open spec fn left_id() -> Seq<char> {
    "left"@
}

impl Clone for TailwindLeft {
    fn clone(&self) -> (copy: Self)
        ensures
            copy == *self,
    {
        TailwindLeft { kind: self.kind.clone() }
    }
}

impl TailwindLeft {
    /// Reads the value of a `left` utility from the tokens that follow its prefix.
    pub fn parse(
        pattern: &[&str],
        arbitrary: &TailwindArbitrary,
        negative: Negative,
    ) -> (left: Result<Self, SyntaxError>)
        ensures
            outcome(left) == unit_parse(words(pattern@), arbitrary@, negative),
    {
        match UnitValue::parse(pattern, arbitrary, negative) {
            Ok(kind) => Ok(TailwindLeft { kind }),
            Err(error) => Err(error),
        }
    }

    /// Whether `mode` is a keyword value of the CSS property `left`.
    pub fn check_valid(mode: &str) -> (valid: bool)
        ensures
            valid == is_auto_keyword(mode@),
    {
        check_valid_auto(mode)
    }

    /// The dimension that the utility sets.
    pub fn kind(&self) -> (kind: &UnitValue)
        ensures
            kind@ == self@,
    {
        &self.kind
    }

    /// The primary collision identifier.
    pub fn collision_id(&self) -> (id: String)
        ensures
            id@ == left_id(),
    {
        String::from_str("left")
    }

    /// Every collision identifier of the utility.
    pub fn get_collisions(&self) -> (ids: Vec<String>)
        ensures
            texts(ids@) == seq![left_id()],
    {
        let mut ids: Vec<String> = Vec::new();
        ids.push(self.collision_id());
        assert(texts(ids@) =~= seq![left_id()]);
        ids
    }

    /// The canonical class name.
    pub fn render(&self) -> (class: String)
        ensures
            class@ == left_class(self@),
    {
        let mut class = String::new();
        self.kind.write_negative(&mut class);
        self.kind.write_class(&mut class, "left-");
        assert(class@ =~= left_class(self@));
        class
    }
}

} // verus!
