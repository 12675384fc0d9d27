//! The negative marker: a minus sign in front of a class name.

use vstd::prelude::*;
use vstd::string::*;
use crate::text::{str_eq, words};

verus! {

/// Whether a minus sign stood in front of the class name. It changes how the
/// utility is rendered and nothing else.
#[derive(Clone, Copy, Debug, PartialEq, Eq, Structural)]
pub struct Negative(pub bool);

/// What the marker contributes to a class name.
pub open spec fn sign_text(negative: Negative) -> Seq<char> {
    if negative.0 {
        seq!['-']
    } else {
        Seq::empty()
    }
}

/// Whether the token sequence opens with the minus token.
pub open spec fn opens_with_minus(tokens: Seq<Seq<char>>) -> bool {
    tokens.len() > 0 && tokens[0] == seq!['-']
}

/// The token sequence without its leading minus token, if it has one.
pub open spec fn unsigned_tokens(tokens: Seq<Seq<char>>) -> Seq<Seq<char>> {
    if opens_with_minus(tokens) {
        tokens.drop_first()
    } else {
        tokens
    }
}

impl Negative {
    /// The marker for the given flag.
    pub fn new(negative: bool) -> (marker: Self)
        ensures
            marker == Negative(negative),
    {
        Negative(negative)
    }

    /// Whether the minus sign was present.
    pub fn is_negative(&self) -> (negative: bool)
        ensures
            negative == self.0,
    {
        self.0
    }

    /// Appends the minus sign to `out` if the marker is set.
    pub fn write(&self, out: &mut String)
        ensures
            final(out)@ == old(out)@ + sign_text(*self),
    {
        if self.0 {
            proof {
                reveal_strlit("-");
            }
            out.append("-");
            assert(out@ =~= old(out)@ + sign_text(*self));
        } else {
            assert(out@ =~= old(out)@ + sign_text(*self));
        }
    }

    /// Strips a leading minus token and records whether there was one.
    pub fn detect<'a, 'b>(tokens: &'a [&'b str]) -> (found: (Negative, &'a [&'b str]))
        ensures
            found.0 == Negative(opens_with_minus(words(tokens@))),
            words(found.1@) == unsigned_tokens(words(tokens@)),
            found.0.0 ==> found.1@ == tokens@.drop_first(),
            !found.0.0 ==> found.1@ == tokens@,
    {
        proof {
            reveal_strlit("-");
        }
        if tokens.len() > 0 && str_eq(tokens[0], "-") {
            let rest = vstd::slice::slice_subrange(tokens, 1, tokens.len());
            proof {
                assert("-"@ =~= seq!['-']);
                assert(rest@ =~= tokens@.drop_first());
                assert(words(rest@) =~= words(tokens@).drop_first());
            }
            (Negative(true), rest)
        } else {
            proof {
                assert("-"@ =~= seq!['-']);
            }
            (Negative(false), tokens)
        }
    }
}

} // verus!
