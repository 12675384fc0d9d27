use tailwind_css::anchor::{Anchor, AnchorPoint};
use tailwind_css::arbitrary::TailwindArbitrary;
use tailwind_css::error::SyntaxErrorKind;
use tailwind_css::object_position::TailwindObjectPosition;

#[test]
fn anchor_edges() {
    let cases = [
        ("left", Anchor::Left),
        ("right", Anchor::Right),
        ("top", Anchor::Top),
        ("bottom", Anchor::Bottom),
    ];
    for (token, anchor) in cases {
        for allow_center in [true, false] {
            let point = AnchorPoint::parse(&[token], &TailwindArbitrary::new(""), allow_center).unwrap();
            assert_eq!(point, AnchorPoint::Position(anchor));
            assert_eq!(point.get_class(), token);
        }
    }
}

#[test]
fn anchor_corners_in_either_order() {
    let cases = [
        ("left", "top", Anchor::LeftTop, "left-top"),
        ("left", "bottom", Anchor::LeftBottom, "left-bottom"),
        ("right", "top", Anchor::RightTop, "right-top"),
        ("right", "bottom", Anchor::RightBottom, "right-bottom"),
    ];
    for (horizontal, vertical, anchor, class) in cases {
        let point = AnchorPoint::parse(&[horizontal, vertical], &TailwindArbitrary::new(""), true).unwrap();
        assert_eq!(point, AnchorPoint::Position(anchor));
        assert_eq!(point.get_class(), class);
        let point = AnchorPoint::parse(&[vertical, horizontal], &TailwindArbitrary::new(""), false).unwrap();
        assert_eq!(point, AnchorPoint::Position(anchor));
        assert_eq!(point.get_class(), class);
    }
}

#[test]
fn anchor_center_only_where_allowed() {
    let point = AnchorPoint::parse(&["center"], &TailwindArbitrary::new(""), true).unwrap();
    assert_eq!(point, AnchorPoint::Position(Anchor::Center));
    assert_eq!(point.get_class(), "center");
    let error = AnchorPoint::parse(&["center"], &TailwindArbitrary::new(""), false).unwrap_err();
    assert_eq!(error.kind, SyntaxErrorKind::UnknownAnchor);
    assert_eq!(error.fragment, "center");
}

#[test]
fn anchor_top_bottom_is_rejected() {
    for allow_center in [true, false] {
        let error = AnchorPoint::parse(&["top", "bottom"], &TailwindArbitrary::new(""), allow_center).unwrap_err();
        assert_eq!(error.kind, SyntaxErrorKind::UnknownAnchor);
        assert_eq!(error.fragment, "top-bottom");
        assert_eq!(error.message(), "unknown anchor point: top-bottom");
    }
    let error = TailwindObjectPosition::parse(&["top", "bottom"], &TailwindArbitrary::new("")).unwrap_err();
    assert_eq!(error.kind, SyntaxErrorKind::UnknownAnchor);
    assert_eq!(error.fragment, "top-bottom");
}

#[test]
fn anchor_same_axis_pairs_are_rejected() {
    let pairs = [
        ["top", "bottom"],
        ["bottom", "top"],
        ["top", "top"],
        ["bottom", "bottom"],
        ["left", "right"],
        ["right", "left"],
        ["left", "left"],
        ["right", "right"],
    ];
    for pair in pairs {
        let error = AnchorPoint::parse(&pair, &TailwindArbitrary::new(""), true).unwrap_err();
        assert_eq!(error.kind, SyntaxErrorKind::UnknownAnchor);
        assert_eq!(error.fragment, pair.join("-"));
    }
}

#[test]
fn anchor_center_in_a_pair_is_rejected() {
    for pair in [["center", "top"], ["left", "center"], ["center", "center"]] {
        let error = AnchorPoint::parse(&pair, &TailwindArbitrary::new(""), true).unwrap_err();
        assert_eq!(error.kind, SyntaxErrorKind::UnknownAnchor);
    }
}

#[test]
fn anchor_unknown_tokens_are_rejected() {
    let error = AnchorPoint::parse(&["middle"], &TailwindArbitrary::new(""), true).unwrap_err();
    assert_eq!(error.kind, SyntaxErrorKind::UnknownAnchor);
    assert_eq!(error.fragment, "middle");
    let error = AnchorPoint::parse(&["left", "top", "right"], &TailwindArbitrary::new(""), true).unwrap_err();
    assert_eq!(error.kind, SyntaxErrorKind::UnknownAnchor);
    assert_eq!(error.fragment, "left-top-right");
    let error =
        AnchorPoint::parse(&["middle"], &TailwindArbitrary::new("1px 2px"), true).unwrap_err();
    assert_eq!(error.kind, SyntaxErrorKind::UnknownAnchor);
}

#[test]
fn anchor_arbitrary_where_no_token() {
    let arbitrary = TailwindArbitrary::new("25%_75%");
    let point = AnchorPoint::parse(&[], &arbitrary, true).unwrap();
    assert_eq!(point, AnchorPoint::Arbitrary(TailwindArbitrary::new("25%_75%")));
    assert_eq!(point.get_class(), "[25%_75%]");
}

#[test]
fn anchor_nothing_given() {
    let error = AnchorPoint::parse(&[], &TailwindArbitrary::new(""), true).unwrap_err();
    assert_eq!(error.kind, SyntaxErrorKind::MissingValue);
    assert_eq!(error.fragment, "");
}

#[test]
fn anchor_names() {
    assert_eq!(Anchor::LeftTop.name(), "left-top");
    assert_eq!(Anchor::Top.name(), "top");
    assert_eq!(Anchor::RightTop.name(), "right-top");
    assert_eq!(Anchor::Left.name(), "left");
    assert_eq!(Anchor::Center.name(), "center");
    assert_eq!(Anchor::Right.name(), "right");
    assert_eq!(Anchor::LeftBottom.name(), "left-bottom");
    assert_eq!(Anchor::Bottom.name(), "bottom");
    assert_eq!(Anchor::RightBottom.name(), "right-bottom");
}

#[test]
fn anchor_check_valid() {
    for mode in
        ["bottom", "center", "inherit", "initial", "left", "revert", "right", "top", "unset"]
    {
        assert!(AnchorPoint::check_valid(mode));
        assert!(TailwindObjectPosition::check_valid(mode));
    }
    for mode in ["", "auto", "middle", "left-top", "Top"] {
        assert!(!AnchorPoint::check_valid(mode));
        assert!(!TailwindObjectPosition::check_valid(mode));
    }
}

#[test]
fn object_position_renders_and_collides() {
    let position = TailwindObjectPosition::parse(&["right", "bottom"], &TailwindArbitrary::new("")).unwrap();
    assert_eq!(position.kind(), &AnchorPoint::Position(Anchor::RightBottom));
    assert_eq!(position.render(), "object-right-bottom");
    assert_eq!(position.collision_id(), "object-position");
    assert_eq!(position.get_collisions(), vec!["object-position".to_string()]);
    let position = TailwindObjectPosition::parse(&["center"], &TailwindArbitrary::new("")).unwrap();
    assert_eq!(position.render(), "object-center");
    let position =
        TailwindObjectPosition::parse(&[], &TailwindArbitrary::new("10%_20%")).unwrap();
    assert_eq!(position.render(), "object-[10%_20%]");
}
