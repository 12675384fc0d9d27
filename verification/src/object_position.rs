//! The `object` position utility: where replaced content sits in its box.

use vstd::prelude::*;
use vstd::string::*;
use crate::anchor::{anchor_class, anchor_parse, is_anchor_keyword, AnchorModel, AnchorPoint};
use crate::arbitrary::TailwindArbitrary;
use crate::error::{outcome, SyntaxError};
use crate::text::{texts, words};

verus! {

/// A resolved `object` position utility.
#[derive(Debug)]
pub struct TailwindObjectPosition {
    kind: AnchorPoint,
}

impl View for TailwindObjectPosition {
    type V = AnchorModel;

    closed spec fn view(&self) -> AnchorModel {
        self.kind@
    }
}

/// The class name of an `object` position utility.
pub open spec fn object_position_class(point: AnchorModel) -> Seq<char> {
    "object-"@ + anchor_class(point)
}

/// The collision identifier of every `object` position utility.
pub open spec fn object_position_id() -> Seq<char> {
    "object-position"@
}

impl Clone for TailwindObjectPosition {
    fn clone(&self) -> (copy: Self)
        ensures
            copy == *self,
    {
        TailwindObjectPosition { kind: self.kind.clone() }
    }
}

impl TailwindObjectPosition {
    /// Reads the anchor point of an `object` utility from the tokens that follow
    /// its prefix. A lone `center` is a position here.
    pub fn parse(pattern: &[&str], arbitrary: &TailwindArbitrary) -> (position: Result<
        Self,
        SyntaxError,
    >)
        ensures
            outcome(position) == anchor_parse(words(pattern@), arbitrary@, true),
    {
        match AnchorPoint::parse(pattern, arbitrary, true) {
            Ok(kind) => Ok(TailwindObjectPosition { kind }),
            Err(error) => Err(error),
        }
    }

    /// Whether `mode` is a keyword value of the CSS property `object-position`.
    pub fn check_valid(mode: &str) -> (valid: bool)
        ensures
            valid == is_anchor_keyword(mode@),
    {
        AnchorPoint::check_valid(mode)
    }

    /// The anchor point that the utility sets.
    pub fn kind(&self) -> (kind: &AnchorPoint)
        ensures
            kind@ == self@,
    {
        &self.kind
    }

    /// The primary collision identifier.
    pub fn collision_id(&self) -> (id: String)
        ensures
            id@ == object_position_id(),
    {
        String::from_str("object-position")
    }

    /// Every collision identifier of the utility.
    pub fn get_collisions(&self) -> (ids: Vec<String>)
        ensures
            texts(ids@) == seq![object_position_id()],
    {
        let mut ids: Vec<String> = Vec::new();
        ids.push(self.collision_id());
        assert(texts(ids@) =~= seq![object_position_id()]);
        ids
    }

    /// The canonical class name.
    pub fn render(&self) -> (class: String)
        ensures
            class@ == object_position_class(self@),
    {
        let mut class = String::from_str("object-");
        let anchor = self.kind.get_class();
        class.append(anchor.as_str());
        class
    }
}

} // verus!
