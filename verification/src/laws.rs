//! Laws of the engine: what holds of every token sequence and of every resolved
//! utility, proved from the definitions that the contracts are stated in.

use vstd::prelude::*;
use crate::anchor::{anchor_class, anchor_parse, corner_of, AnchorModel};
use crate::color::{color_parse, color_text, ColorModel};
use crate::error::{failure, SyntaxErrorKind, SyntaxErrorModel};
use crate::negative::{opens_with_minus, sign_text, unsigned_tokens, Negative};
use crate::padding_scroll::{
    scroll_padding_class, scroll_padding_kind, scroll_padding_parse, ScrollPaddingModel,
};
use crate::spacing::{
    axis_covers, axis_id, axis_ids, axis_letter, axis_suffix, padding_axis_of, size_text,
    SpacingAxis,
};
use crate::text::{
    digit_run, has_leading_zero, is_digit, is_numeral, joined, lemma_digit_run_bounds,
    lemma_numeral_canonical, lemma_numeral_denotes, numeral, numeral_u32,
};
use crate::unit::{
    keyword_of, lemma_unit_of, magnitude_parse, magnitude_text, MagnitudeModel, UnitModel,
};
use crate::utility::{
    collide, declared_ids, family_of, family_prefix, resolution, share_id, signed_resolution,
    utility_class, utility_family, utility_id, utility_ids, Family, UtilityModel,
};

verus! {

/// Joining puts the first token, a hyphen, and the joined rest one after another.
pub proof fn lemma_joined_first(tokens: Seq<Seq<char>>)
    requires
        tokens.len() >= 2,
    ensures
        joined(tokens) == tokens[0] + seq!['-'] + joined(tokens.drop_first()),
    decreases tokens.len(),
{
    let rest = tokens.drop_first();
    if tokens.len() == 2 {
        assert(tokens.drop_last() =~= seq![tokens[0]]);
        assert(rest =~= seq![tokens[1]]);
        assert(joined(tokens) == joined(seq![tokens[0]]) + seq!['-'] + tokens[1]);
    } else {
        lemma_joined_first(tokens.drop_last());
        assert(tokens.drop_last().drop_first() =~= rest.drop_last());
        assert(tokens.drop_last()[0] == tokens[0]);
        assert(rest.last() == tokens.last());
        assert(joined(tokens) =~= tokens[0] + seq!['-'] + joined(rest));
    }
}

/// The value of a utility was read from tokens, not taken from the arbitrary
/// value.
pub open spec fn is_spelled_out(utility: UtilityModel) -> bool {
    match utility {
        UtilityModel::Left(value) => !(value.magnitude is Arbitrary),
        UtilityModel::ObjectPosition(point) => !(point is Arbitrary),
        UtilityModel::ScrollPadding(padding) => !(padding.size is Arbitrary),
    }
}

/// A token sequence is normalized when it spells what it names in the one
/// canonical way: no number has a superfluous zero in front, and a corner is
/// named by its horizontal side first.
pub open spec fn is_normalized(tokens: Seq<Seq<char>>) -> bool {
    &&& forall|i: int| 0 <= i < tokens.len() ==> !has_leading_zero(#[trigger] tokens[i])
    &&& family_of(tokens) == Some(Family::ObjectPosition) && tokens.len() == 3 ==> corner_of(
        tokens[1],
        tokens[2],
    ) is Some
}

/// A magnitude that was read from a normalized token renders as that token.
pub proof fn lemma_magnitude_round_trip(
    tokens: Seq<Seq<char>>,
    arbitrary: Seq<char>,
    magnitude: MagnitudeModel,
)
    requires
        magnitude_parse(tokens, arbitrary) == Ok::<MagnitudeModel, SyntaxErrorModel>(magnitude),
        !(magnitude is Arbitrary),
        forall|i: int| 0 <= i < tokens.len() ==> !has_leading_zero(#[trigger] tokens[i]),
    ensures
        tokens.len() == 1,
        magnitude_text(magnitude) == tokens[0],
{
    let token = tokens[0];
    assert(!has_leading_zero(token));
    if keyword_of(token) is None {
        let digits = digit_run(token) as int;
        let head = token.take(digits);
        lemma_digit_run_bounds(token);
        assert forall|i: int| 0 <= i < head.len() implies is_digit(#[trigger] head[i]) by {
            assert(head[i] == token[i]);
        }
        assert(!has_leading_zero(head)) by {
            if head.len() >= 2 {
                assert(head[0] == token[0] && head[1] == token[1]);
            }
        }
        lemma_numeral_canonical(head);
        if digits == token.len() {
            assert(head =~= token);
        } else {
            lemma_unit_of(token.skip(digits));
            assert(head + token.skip(digits) =~= token);
        }
    }
}

/// An anchor point that was named by tokens in canonical order renders as those
/// tokens, joined.
pub proof fn lemma_anchor_round_trip(
    tokens: Seq<Seq<char>>,
    arbitrary: Seq<char>,
    allow_center: bool,
    point: AnchorModel,
)
    requires
        anchor_parse(tokens, arbitrary, allow_center) == Ok::<AnchorModel, SyntaxErrorModel>(point),
        !(point is Arbitrary),
        tokens.len() == 2 ==> corner_of(tokens[0], tokens[1]) is Some,
    ensures
        anchor_class(point) == joined(tokens),
{
    if tokens.len() == 2 {
        lemma_joined_first(tokens);
        assert(tokens.drop_first() =~= seq![tokens[1]]);
        reveal_strlit("left");
        reveal_strlit("right");
        reveal_strlit("top");
        reveal_strlit("bottom");
        reveal_strlit("left-top");
        reveal_strlit("left-bottom");
        reveal_strlit("right-top");
        reveal_strlit("right-bottom");
        assert("left-top"@ =~= "left"@ + seq!['-'] + "top"@);
        assert("left-bottom"@ =~= "left"@ + seq!['-'] + "bottom"@);
        assert("right-top"@ =~= "right"@ + seq!['-'] + "top"@);
        assert("right-bottom"@ =~= "right"@ + seq!['-'] + "bottom"@);
    }
}

/// The token that names an axis of padding is the letter `p` and the letter of
/// the axis.
pub proof fn lemma_padding_token(token: Seq<char>)
    requires
        padding_axis_of(token) is Some,
    ensures
        token == seq!['p'] + axis_letter(padding_axis_of(token)->0),
{
    reveal_strlit("");
    reveal_strlit("p");
    reveal_strlit("pl");
    reveal_strlit("pr");
    reveal_strlit("pt");
    reveal_strlit("pb");
    reveal_strlit("px");
    reveal_strlit("py");
    reveal_strlit("x");
    reveal_strlit("y");
    reveal_strlit("t");
    reveal_strlit("r");
    reveal_strlit("b");
    reveal_strlit("l");
    assert(token =~= seq!['p'] + axis_letter(padding_axis_of(token)->0));
}

/// A scroll-padding utility whose size was read from a normalized token renders
/// as `scroll`, a hyphen, and its tokens, joined, after the sign.
pub proof fn lemma_scroll_padding_round_trip(
    tokens: Seq<Seq<char>>,
    arbitrary: Seq<char>,
    negative: Negative,
    padding: ScrollPaddingModel,
)
    requires
        scroll_padding_parse(tokens, arbitrary, negative) == Ok::<
            ScrollPaddingModel,
            SyntaxErrorModel,
        >(padding),
        !(padding.size is Arbitrary),
        forall|i: int| 0 <= i < tokens.len() ==> !has_leading_zero(#[trigger] tokens[i]),
    ensures
        scroll_padding_class(padding) == sign_text(negative) + "scroll"@ + seq!['-'] + joined(
            tokens,
        ),
{
    let rest = tokens.drop_first();
    assert(rest.len() == 1);
    assert(rest[0] == tokens[1]);
    assert(!has_leading_zero(tokens[1]));
    lemma_padding_token(tokens[0]);
    lemma_joined_first(tokens);
    assert(size_text(padding.size) == tokens[1]) by {
        if padding.size is Unit {
            lemma_numeral_canonical(tokens[1]);
        }
    }
    reveal_strlit("scroll");
    reveal_strlit("scroll-p");
    assert("scroll-p"@ =~= "scroll"@ + seq!['-'] + seq!['p']);
    assert(scroll_padding_class(padding) =~= sign_text(negative) + "scroll"@ + seq!['-'] + joined(
        tokens,
    ));
}

/// Round trip: a utility that was resolved from normalized tokens, without
/// recourse to the arbitrary value, renders as those tokens joined by hyphens,
/// after the minus sign if it is negative.
pub proof fn lemma_round_trip_signed(
    tokens: Seq<Seq<char>>,
    arbitrary: Seq<char>,
    negative: Negative,
    utility: UtilityModel,
)
    requires
        signed_resolution(tokens, arbitrary, negative) == Ok::<UtilityModel, SyntaxErrorModel>(
            utility,
        ),
        is_spelled_out(utility),
        is_normalized(tokens),
    ensures
        utility_class(utility) == sign_text(negative) + joined(tokens),
{
    let rest = tokens.drop_first();
    assert forall|i: int| 0 <= i < rest.len() implies !has_leading_zero(#[trigger] rest[i]) by {
        assert(rest[i] == tokens[i + 1]);
    }
    match utility {
        UtilityModel::Left(value) => {
            lemma_magnitude_round_trip(rest, arbitrary, value.magnitude);
            lemma_joined_first(tokens);
            reveal_strlit("left");
            reveal_strlit("left-");
            assert("left-"@ =~= "left"@ + seq!['-']);
            assert(utility_class(utility) =~= sign_text(negative) + joined(tokens));
        },
        UtilityModel::ObjectPosition(point) => {
            assert(rest.len() == 2 ==> rest[0] == tokens[1] && rest[1] == tokens[2]);
            lemma_anchor_round_trip(rest, arbitrary, true, point);
            lemma_joined_first(tokens);
            reveal_strlit("object");
            reveal_strlit("object-");
            assert("object-"@ =~= "object"@ + seq!['-']);
            assert(utility_class(utility) =~= sign_text(negative) + joined(tokens));
        },
        UtilityModel::ScrollPadding(padding) => {
            lemma_scroll_padding_round_trip(rest, arbitrary, negative, padding);
            lemma_joined_first(tokens);
            assert(utility_class(utility) =~= sign_text(negative) + joined(tokens));
        },
    }
}

/// Round trip through the dispatcher: a utility that was resolved from normalized
/// tokens, without recourse to the arbitrary value, renders as its tokens joined
/// by hyphens. Where the sequence opens with the minus token, that token renders
/// as the sign itself, with no hyphen after it.
pub proof fn lemma_round_trip(tokens: Seq<Seq<char>>, arbitrary: Seq<char>, utility: UtilityModel)
    requires
        resolution(tokens, arbitrary) == Ok::<UtilityModel, SyntaxErrorModel>(utility),
        is_spelled_out(utility),
        is_normalized(unsigned_tokens(tokens)),
    ensures
        !opens_with_minus(tokens) ==> utility_class(utility) == joined(tokens),
        opens_with_minus(tokens) ==> utility_class(utility) == seq!['-'] + joined(
            tokens.drop_first(),
        ),
{
    lemma_round_trip_signed(
        unsigned_tokens(tokens),
        arbitrary,
        Negative(opens_with_minus(tokens)),
        utility,
    );
    assert(Seq::<char>::empty() + joined(tokens) =~= joined(tokens));
}

/// The utility with its negative marker replaced. An `object` position has none.
pub open spec fn with_sign(utility: UtilityModel, negative: Negative) -> UtilityModel {
    match utility {
        UtilityModel::Left(value) => UtilityModel::Left(
            UnitModel { negative, magnitude: value.magnitude },
        ),
        UtilityModel::ObjectPosition(point) => UtilityModel::ObjectPosition(point),
        UtilityModel::ScrollPadding(padding) => UtilityModel::ScrollPadding(
            ScrollPaddingModel { negative, axis: padding.axis, size: padding.size },
        ),
    }
}

/// Negative handling: a leading minus token is the same as the negative marker
/// handed in by the caller; a negative utility is the positive one with the
/// marker set, and it renders as the positive one with a minus sign in front.
pub proof fn lemma_negative_only_renders(
    tokens: Seq<Seq<char>>,
    arbitrary: Seq<char>,
    utility: UtilityModel,
)
    requires
        signed_resolution(tokens, arbitrary, Negative(true)) == Ok::<
            UtilityModel,
            SyntaxErrorModel,
        >(utility),
    ensures
        resolution(seq![seq!['-']] + tokens, arbitrary) == Ok::<UtilityModel, SyntaxErrorModel>(
            utility,
        ),
        signed_resolution(tokens, arbitrary, Negative(false)) == Ok::<
            UtilityModel,
            SyntaxErrorModel,
        >(with_sign(utility, Negative(false))),
        utility == with_sign(utility, Negative(true)),
        utility_class(utility) == seq!['-'] + utility_class(with_sign(utility, Negative(false))),
{
    let marked = seq![seq!['-']] + tokens;
    assert(marked[0] == seq!['-']);
    assert(marked.drop_first() =~= tokens);
    let positive = with_sign(utility, Negative(false));
    match utility {
        UtilityModel::Left(value) => {
            assert(utility_class(utility) =~= seq!['-'] + utility_class(positive));
        },
        UtilityModel::ObjectPosition(point) => {},
        UtilityModel::ScrollPadding(padding) => {
            assert(utility_class(utility) =~= seq!['-'] + utility_class(positive));
        },
    }
}

/// The `left` utility whose value is the given arbitrary value.
pub open spec fn left_arbitrary(arbitrary: Seq<char>, negative: Negative) -> UtilityModel {
    UtilityModel::Left(UnitModel { negative, magnitude: MagnitudeModel::Arbitrary(arbitrary) })
}

/// Arbitrary fallback: with no value token, `left` takes whatever arbitrary value
/// is given, be it the name of a keyword or not, and renders it in brackets.
pub proof fn lemma_arbitrary_fallback(arbitrary: Seq<char>, negative: Negative)
    requires
        arbitrary.len() > 0,
    ensures
        signed_resolution(seq!["left"@], arbitrary, negative) == Ok::<
            UtilityModel,
            SyntaxErrorModel,
        >(left_arbitrary(arbitrary, negative)),
        utility_class(left_arbitrary(arbitrary, negative)) == sign_text(negative) + "left-"@
            + seq!['['] + arbitrary + seq![']'],
{
    let tokens = seq!["left"@];
    assert(tokens.drop_first() =~= Seq::<Seq<char>>::empty());
    assert(utility_class(left_arbitrary(arbitrary, negative)) =~= sign_text(negative) + "left-"@
        + seq!['['] + arbitrary + seq![']']);
}

/// The token names the top or the bottom side.
pub open spec fn is_vertical(token: Seq<char>) -> bool {
    token == "top"@ || token == "bottom"@
}

/// The token names the left or the right side.
pub open spec fn is_horizontal(token: Seq<char>) -> bool {
    token == "left"@ || token == "right"@
}

/// No token names a horizontal and a vertical side at once.
pub proof fn lemma_sides_apart(token: Seq<char>)
    ensures
        !(is_vertical(token) && is_horizontal(token)),
{
    reveal_strlit("left");
    reveal_strlit("right");
    reveal_strlit("top");
    reveal_strlit("bottom");
    assert("left"@.len() == 4 && "right"@.len() == 5 && "top"@.len() == 3 && "bottom"@.len() == 6);
}

/// Invalid anchors: two sides of the same axis name no anchor point, wherever the
/// anchor parser is used, and so no `object` position.
pub proof fn lemma_same_axis_rejected(
    first: Seq<char>,
    second: Seq<char>,
    arbitrary: Seq<char>,
    allow_center: bool,
    negative: Negative,
)
    requires
        (is_vertical(first) && is_vertical(second)) || (is_horizontal(first) && is_horizontal(
            second,
        )),
    ensures
        anchor_parse(seq![first, second], arbitrary, allow_center) == failure::<AnchorModel>(
            SyntaxErrorKind::UnknownAnchor,
            joined(seq![first, second]),
        ),
        signed_resolution(seq!["object"@, first, second], arbitrary, negative) is Err,
{
    lemma_sides_apart(first);
    lemma_sides_apart(second);
    let tokens = seq!["object"@, first, second];
    assert(tokens.drop_first() =~= seq![first, second]);
    reveal_strlit("left");
    reveal_strlit("object");
    assert("left"@.len() != "object"@.len());
}

/// Appending to the same text gives the same text only for the same suffix.
pub proof fn lemma_same_prefix(prefix: Seq<char>, a: Seq<char>, b: Seq<char>)
    requires
        prefix + a == prefix + b,
    ensures
        a == b,
{
    let n = prefix.len() as int;
    assert(a =~= (prefix + a).subrange(n, n + a.len()));
    assert(b =~= (prefix + b).subrange(n, n + b.len()));
    assert((prefix + a).len() == n + a.len());
    assert((prefix + b).len() == n + b.len());
}

/// Axis coverage, first part: on different axes, a property has different
/// collision identifiers.
pub proof fn lemma_axis_ids_distinct(kind: Seq<char>, a: SpacingAxis, b: SpacingAxis)
    requires
        a != b,
    ensures
        axis_id(kind, a) != axis_id(kind, b),
{
    reveal_strlit("");
    reveal_strlit("-x");
    reveal_strlit("-y");
    reveal_strlit("-top");
    reveal_strlit("-right");
    reveal_strlit("-bottom");
    reveal_strlit("-left");
    assert(axis_suffix(a) != axis_suffix(b)) by {
        assert("-x"@[1] == 'x');
        assert("-y"@[1] == 'y');
        assert(axis_suffix(a).len() != axis_suffix(b).len() || axis_suffix(a)[1] != axis_suffix(
            b,
        )[1]);
    }
    if axis_id(kind, a) == axis_id(kind, b) {
        lemma_same_prefix(kind, axis_suffix(a), axis_suffix(b));
    }
}

/// Two axes overlap when one of them covers the other.
pub open spec fn axes_overlap(a: SpacingAxis, b: SpacingAxis) -> bool {
    axis_covers(a).contains(b) || axis_covers(b).contains(a)
}

/// Every axis that is covered by two axes at once is one of the two, or both are
/// covered by the other.
proof fn lemma_common_cover(a: SpacingAxis, b: SpacingAxis, i: int, j: int)
    requires
        0 <= i < axis_covers(a).len(),
        0 <= j < axis_covers(b).len(),
        axis_covers(a)[i] == axis_covers(b)[j],
    ensures
        axes_overlap(a, b),
{
    let x = axis_covers(a);
    let y = axis_covers(b);
    assert(x[0] == a);
    assert(y[0] == b);
    if a == b {
        assert(x.contains(b));
    } else if a == SpacingAxis::All {
        assert(x[0] == SpacingAxis::All && x[1] == SpacingAxis::X && x[2] == SpacingAxis::Y
            && x[3] == SpacingAxis::Top && x[4] == SpacingAxis::Right && x[5]
            == SpacingAxis::Bottom && x[6] == SpacingAxis::Left);
        assert(x.contains(b));
    } else if b == SpacingAxis::All {
        assert(y[0] == SpacingAxis::All && y[1] == SpacingAxis::X && y[2] == SpacingAxis::Y
            && y[3] == SpacingAxis::Top && y[4] == SpacingAxis::Right && y[5]
            == SpacingAxis::Bottom && y[6] == SpacingAxis::Left);
        assert(y.contains(a));
    } else if i == 0 {
        assert(y[j] == a);
        assert(y.contains(a));
    } else if j == 0 {
        assert(x[i] == b);
        assert(x.contains(b));
    } else {
        // Only `x` and `y` cover more than themselves, and they cover nothing in common.
        assert(x.len() == 3 && y.len() == 3);
        assert(x[i] != y[j]);
    }
}

/// Axis coverage, second part: the utilities of a property on two axes collide
/// exactly when the axes overlap.
pub proof fn lemma_axes_collide(kind: Seq<char>, a: SpacingAxis, b: SpacingAxis)
    ensures
        share_id(axis_ids(kind, a), axis_ids(kind, b)) == axes_overlap(a, b),
{
    let x = axis_ids(kind, a);
    let y = axis_ids(kind, b);
    let ca = axis_covers(a);
    let cb = axis_covers(b);
    assert(ca[0] == a && cb[0] == b);
    if share_id(x, y) {
        let (i, j) = choose|i: int, j: int| 0 <= i < x.len() && 0 <= j < y.len() && x[i] == y[j];
        if ca[i] != cb[j] {
            lemma_axis_ids_distinct(kind, ca[i], cb[j]);
        }
        lemma_common_cover(a, b, i, j);
    }
    if ca.contains(b) {
        let i = choose|i: int| 0 <= i < ca.len() && ca[i] == b;
        assert(0 <= i < x.len() && 0 <= 0 < y.len() && x[i] == y[0]);
    }
    if cb.contains(a) {
        let j = choose|j: int| 0 <= j < cb.len() && cb[j] == a;
        assert(0 <= 0 < x.len() && 0 <= j < y.len() && x[0] == y[j]);
    }
}

/// Which axes each axis overlaps with: all sides with every axis; `x` with left
/// and right, `y` with top and bottom; a side with the wider axes that cover it;
/// two different sides with each other never, nor `x` with `y`.
pub proof fn lemma_overlap_table(b: SpacingAxis)
    ensures
        axes_overlap(SpacingAxis::All, b),
        axes_overlap(SpacingAxis::X, b) == (b == SpacingAxis::All || b == SpacingAxis::X || b
            == SpacingAxis::Left || b == SpacingAxis::Right),
        axes_overlap(SpacingAxis::Y, b) == (b == SpacingAxis::All || b == SpacingAxis::Y || b
            == SpacingAxis::Top || b == SpacingAxis::Bottom),
        axes_overlap(SpacingAxis::Top, b) == (b == SpacingAxis::All || b == SpacingAxis::Y || b
            == SpacingAxis::Top),
        axes_overlap(SpacingAxis::Bottom, b) == (b == SpacingAxis::All || b == SpacingAxis::Y || b
            == SpacingAxis::Bottom),
        axes_overlap(SpacingAxis::Left, b) == (b == SpacingAxis::All || b == SpacingAxis::X || b
            == SpacingAxis::Left),
        axes_overlap(SpacingAxis::Right, b) == (b == SpacingAxis::All || b == SpacingAxis::X || b
            == SpacingAxis::Right),
{
    let all = axis_covers(SpacingAxis::All);
    let x = axis_covers(SpacingAxis::X);
    let y = axis_covers(SpacingAxis::Y);
    let cb = axis_covers(b);
    assert(all[0] == SpacingAxis::All && all[1] == SpacingAxis::X && all[2] == SpacingAxis::Y
        && all[3] == SpacingAxis::Top && all[4] == SpacingAxis::Right && all[5]
        == SpacingAxis::Bottom && all[6] == SpacingAxis::Left);
    assert(x[0] == SpacingAxis::X && x[1] == SpacingAxis::Left && x[2] == SpacingAxis::Right);
    assert(y[0] == SpacingAxis::Y && y[1] == SpacingAxis::Top && y[2] == SpacingAxis::Bottom);
    assert(axis_covers(SpacingAxis::Top)[0] == SpacingAxis::Top);
    assert(axis_covers(SpacingAxis::Right)[0] == SpacingAxis::Right);
    assert(axis_covers(SpacingAxis::Bottom)[0] == SpacingAxis::Bottom);
    assert(axis_covers(SpacingAxis::Left)[0] == SpacingAxis::Left);
    assert(cb[0] == b);
}

/// Two outcomes of the scroll-padding parser that differ in the axis at most:
/// both failed, with the same error, or both succeeded, with the same size and
/// the same sign.
pub open spec fn same_but_axis(
    one: Result<ScrollPaddingModel, SyntaxErrorModel>,
    other: Result<ScrollPaddingModel, SyntaxErrorModel>,
) -> bool {
    match (one, other) {
        (Ok(one), Ok(other)) => one.size == other.size && one.negative == other.negative,
        (Err(one), Err(other)) => one == other,
        _ => false,
    }
}

/// Axis coverage, third part: whatever axis the first token names, the rest of
/// the pattern is read as a size in the same way. Two patterns that differ only
/// in the axis both fail, with the same error, or both succeed, with the same
/// size and the same sign, each on its own axis.
pub proof fn lemma_axes_share_sizes(
    first: Seq<char>,
    second: Seq<char>,
    rest: Seq<Seq<char>>,
    arbitrary: Seq<char>,
    negative: Negative,
)
    requires
        padding_axis_of(first) is Some,
        padding_axis_of(second) is Some,
    ensures
        same_but_axis(
            scroll_padding_parse(seq![first] + rest, arbitrary, negative),
            scroll_padding_parse(seq![second] + rest, arbitrary, negative),
        ),
        scroll_padding_parse(seq![first] + rest, arbitrary, negative) matches Ok(padding)
            ==> padding_axis_of(first) == Some(padding.axis),
{
    let a = seq![first] + rest;
    let b = seq![second] + rest;
    assert(a.drop_first() =~= rest);
    assert(b.drop_first() =~= rest);
    assert(a[0] == first && b[0] == second);
    if rest.len() == 1 {
        assert(a[1] == rest[0] && b[1] == rest[0]);
    }
}

/// No utility has a collision identifier that its family does not declare, and
/// the primary identifier is the first of its identifiers.
pub proof fn lemma_ids_declared(utility: UtilityModel, i: int)
    requires
        0 <= i < utility_ids(utility).len(),
    ensures
        declared_ids(utility_family(utility)).contains(utility_ids(utility)[i]),
        utility_ids(utility)[0] == utility_id(utility),
{
    match utility {
        UtilityModel::Left(_) => {
            assert(declared_ids(Family::Left)[0] == utility_ids(utility)[i]);
        },
        UtilityModel::ObjectPosition(_) => {
            assert(declared_ids(Family::ObjectPosition)[0] == utility_ids(utility)[i]);
        },
        UtilityModel::ScrollPadding(padding) => {
            let kind = scroll_padding_kind();
            let covered = axis_covers(padding.axis);
            let all = axis_covers(SpacingAxis::All);
            lemma_overlap_table(covered[i]);
            assert(all.contains(covered[i]));
            let k = choose|k: int| 0 <= k < all.len() && all[k] == covered[i];
            assert(axis_ids(kind, SpacingAxis::All)[k] == utility_ids(utility)[i]);
            assert(covered[0] == padding.axis);
        },
    }
}

/// The collision identifiers of a utility are a set: none is listed twice.
pub proof fn lemma_ids_unique(utility: UtilityModel, i: int, j: int)
    requires
        0 <= i < j < utility_ids(utility).len(),
    ensures
        utility_ids(utility)[i] != utility_ids(utility)[j],
{
    match utility {
        UtilityModel::ScrollPadding(padding) => {
            let covered = axis_covers(padding.axis);
            assert(covered.len() <= 7);
            assert(covered[i] != covered[j]) by {
                if padding.axis == SpacingAxis::All {
                    assert(covered[0] == SpacingAxis::All && covered[1] == SpacingAxis::X
                        && covered[2] == SpacingAxis::Y && covered[3] == SpacingAxis::Top
                        && covered[4] == SpacingAxis::Right && covered[5] == SpacingAxis::Bottom
                        && covered[6] == SpacingAxis::Left);
                } else if padding.axis == SpacingAxis::X {
                    assert(covered[0] == SpacingAxis::X && covered[1] == SpacingAxis::Left
                        && covered[2] == SpacingAxis::Right);
                } else if padding.axis == SpacingAxis::Y {
                    assert(covered[0] == SpacingAxis::Y && covered[1] == SpacingAxis::Top
                        && covered[2] == SpacingAxis::Bottom);
                }
            }
            lemma_axis_ids_distinct(scroll_padding_kind(), covered[i], covered[j]);
        },
        _ => {},
    }
}

/// Utilities of different families never collide.
pub proof fn lemma_families_apart(a: UtilityModel, b: UtilityModel)
    requires
        utility_family(a) != utility_family(b),
    ensures
        !collide(a, b),
{
    let x = utility_ids(a);
    let y = utility_ids(b);
    assert forall|i: int, j: int| 0 <= i < x.len() && 0 <= j < y.len() implies x[i] != y[j] by {
        lemma_id_spelling(a, i);
        lemma_id_spelling(b, j);
    }
}

/// How a collision identifier is spelled: its length and its first character
/// tell the families apart.
proof fn lemma_id_spelling(utility: UtilityModel, i: int)
    requires
        0 <= i < utility_ids(utility).len(),
    ensures
        utility is Left ==> utility_ids(utility)[i].len() == 4,
        utility is ObjectPosition ==> utility_ids(utility)[i].len() == 15,
        utility is ObjectPosition ==> utility_ids(utility)[i][0] == 'o',
        utility is ScrollPadding ==> utility_ids(utility)[i].len() >= 14,
        utility is ScrollPadding ==> utility_ids(utility)[i][0] == 's',
{
    reveal_strlit("left");
    reveal_strlit("object-position");
    reveal_strlit("scroll-padding");
}

/// The prefix table is free of overlap: no two families open with the same
/// token, so the family that the dispatcher selects is the only one that matches.
pub proof fn lemma_prefixes_distinct(a: Family, b: Family)
    requires
        a != b,
    ensures
        family_prefix(a) != family_prefix(b),
{
    reveal_strlit("left");
    reveal_strlit("object");
    reveal_strlit("scroll");
    assert("object"@[0] == 'o');
    assert("scroll"@[0] == 's');
}

/// The token that names an axis of padding.
pub open spec fn padding_token(axis: SpacingAxis) -> Seq<char> {
    seq!['p'] + axis_letter(axis)
}

/// Every axis is found by its own token: no token of the table stands in the way
/// of a longer one, in whatever order the table is read.
pub proof fn lemma_padding_axis_found(axis: SpacingAxis)
    ensures
        padding_axis_of(padding_token(axis)) == Some(axis),
{
    reveal_strlit("");
    reveal_strlit("p");
    reveal_strlit("pl");
    reveal_strlit("pr");
    reveal_strlit("pt");
    reveal_strlit("pb");
    reveal_strlit("px");
    reveal_strlit("py");
    reveal_strlit("x");
    reveal_strlit("y");
    reveal_strlit("t");
    reveal_strlit("r");
    reveal_strlit("b");
    reveal_strlit("l");
    let token = padding_token(axis);
    assert(token.len() == 1 + axis_letter(axis).len());
    assert(token[0] == 'p');
    if axis != SpacingAxis::All {
        assert(token[1] == axis_letter(axis)[0]);
    }
    assert("p"@ =~= seq!['p']);
    assert("pl"@ =~= seq!['p', 'l']);
    assert("pr"@ =~= seq!['p', 'r']);
    assert("pt"@ =~= seq!['p', 't']);
    assert("pb"@ =~= seq!['p', 'b']);
    assert("px"@ =~= seq!['p', 'x']);
    assert("py"@ =~= seq!['p', 'y']);
    assert(token =~= match axis {
        SpacingAxis::All => seq!['p'],
        SpacingAxis::X => seq!['p', 'x'],
        SpacingAxis::Y => seq!['p', 'y'],
        SpacingAxis::Top => seq!['p', 't'],
        SpacingAxis::Right => seq!['p', 'r'],
        SpacingAxis::Bottom => seq!['p', 'b'],
        SpacingAxis::Left => seq!['p', 'l'],
    });
}

/// Every family is selected by its own prefix, whatever tokens follow it; a
/// scroll utility needs the token of an axis behind the prefix.
pub proof fn lemma_prefix_selects(family: Family, rest: Seq<Seq<char>>)
    requires
        family == Family::ScrollPadding ==> rest.len() >= 1 && padding_axis_of(rest[0]) is Some,
    ensures
        family_of(seq![family_prefix(family)] + rest) == Some(family),
{
    let tokens = seq![family_prefix(family)] + rest;
    assert(tokens[0] == family_prefix(family));
    if family == Family::ScrollPadding {
        assert(tokens[1] == rest[0]);
    }
    lemma_prefixes_distinct(Family::Left, Family::ObjectPosition);
    lemma_prefixes_distinct(Family::Left, Family::ScrollPadding);
    lemma_prefixes_distinct(Family::ObjectPosition, Family::ScrollPadding);
}

/// The shortest numeral of a number is read back as that number.
pub proof fn lemma_numeral_read_back(n: u32)
    ensures
        numeral_u32(numeral(n as nat)) == Some(n),
{
    lemma_numeral_denotes(n as nat);
}

/// A token is a weight in its shortest spelling: a numeral without a superfluous
/// zero in front.
pub open spec fn is_plain_weight(token: Seq<char>) -> bool {
    is_numeral(token) && !has_leading_zero(token)
}

/// The one-token patterns whose color does not render as the token: `none`,
/// which is written out as `transparent`, and `white`, which gives `black`.
pub open spec fn is_color_alias(token: Seq<char>) -> bool {
    token == "none"@ || token == "white"@
}

/// Round trip of colors: a color that was read from one token that is no alias,
/// or from a name and a weight in its shortest spelling, renders as its tokens
/// joined by a hyphen.
pub proof fn lemma_color_round_trip(
    tokens: Seq<Seq<char>>,
    arbitrary: Seq<char>,
    color: ColorModel,
)
    requires
        color_parse(tokens, arbitrary) == Ok::<ColorModel, SyntaxErrorModel>(color),
        tokens.len() >= 1,
        tokens.len() == 1 ==> !is_color_alias(tokens[0]),
        tokens.len() == 2 ==> is_plain_weight(tokens[1]),
    ensures
        color_text(color) == joined(tokens),
{
    if tokens.len() == 2 {
        lemma_joined_first(tokens);
        assert(tokens.drop_first() =~= seq![tokens[1]]);
        assert(tokens[1][0] != '-');
        lemma_numeral_canonical(tokens[1]);
    }
}

} // verus!
