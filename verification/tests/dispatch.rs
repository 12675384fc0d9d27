use tailwind_css::arbitrary::TailwindArbitrary;
use tailwind_css::error::SyntaxErrorKind;
use tailwind_css::negative::Negative;
use tailwind_css::spacing::{SpacingAxis, SpacingSize};
use tailwind_css::unit::{LengthUnit, Magnitude};
use tailwind_css::utility::{dispatch, dispatch_signed, Family, ResolvedUtility};

#[test]
fn dispatch_round_trip() {
    let absent = TailwindArbitrary::new("");
    let patterns: [&[&str]; 22] = [
        &["left", "4"],
        &["left", "0"],
        &["left", "px"],
        &["left", "full"],
        &["left", "auto"],
        &["left", "10px"],
        &["left", "50%"],
        &["left", "2rem"],
        &["object", "left"],
        &["object", "center"],
        &["object", "top"],
        &["object", "left", "top"],
        &["object", "right", "bottom"],
        &["scroll", "p", "4"],
        &["scroll", "pl", "0"],
        &["scroll", "pr", "px"],
        &["scroll", "pt", "full"],
        &["scroll", "pb", "inherit"],
        &["scroll", "px", "12"],
        &["scroll", "py", "unset"],
        &["scroll", "p", "initial"],
        &["scroll", "px", "revert"],
    ];
    for pattern in patterns {
        let utility = dispatch(pattern, &absent).unwrap();
        assert_eq!(utility.render(), pattern.join("-"));
    }
}

#[test]
fn dispatch_round_trip_fails_on_other_spellings() {
    let absent = TailwindArbitrary::new("");
    assert_eq!(dispatch(&["left", "007"], &absent).unwrap().render(), "left-7");
    assert_eq!(dispatch(&["left", "00px"], &absent).unwrap().render(), "left-0px");
    assert_eq!(dispatch(&["scroll", "p", "04"], &absent).unwrap().render(), "scroll-p-4");
    assert_eq!(dispatch(&["object", "top", "left"], &absent).unwrap().render(), "object-left-top");
}

#[test]
fn dispatch_negative() {
    let absent = TailwindArbitrary::new("");
    let marked = dispatch(&["-", "left", "4"], &absent).unwrap();
    let flagged = dispatch_signed(&["left", "4"], &absent, Negative(true)).unwrap();
    let plain = dispatch(&["left", "4"], &absent).unwrap();
    assert_eq!(marked.render(), "-left-4");
    assert_eq!(flagged.render(), "-left-4");
    assert_eq!(plain.render(), "left-4");
    match (marked, flagged, plain) {
        (
            ResolvedUtility::Left(marked),
            ResolvedUtility::Left(flagged),
            ResolvedUtility::Left(plain),
        ) => {
            assert_eq!(marked.kind().magnitude, Magnitude::Number(4));
            assert_eq!(flagged.kind().magnitude, Magnitude::Number(4));
            assert_eq!(plain.kind().magnitude, Magnitude::Number(4));
            assert_eq!(marked.kind().negative, Negative(true));
            assert_eq!(flagged.kind().negative, Negative(true));
            assert_eq!(plain.kind().negative, Negative(false));
        },
        _ => panic!("not a left utility"),
    }
}

#[test]
fn dispatch_negative_scroll_padding() {
    let absent = TailwindArbitrary::new("");
    let marked = dispatch(&["-", "scroll", "px", "4"], &absent).unwrap();
    assert_eq!(marked.render(), "-scroll-px-4");
    match marked {
        ResolvedUtility::ScrollPadding(padding) => {
            assert_eq!(padding.negative(), Negative(true));
            assert_eq!(padding.axis(), SpacingAxis::X);
            assert_eq!(padding.size(), &SpacingSize::Unit(4));
        },
        _ => panic!("not a scroll-padding utility"),
    }
}

#[test]
fn dispatch_negative_object_position_is_rejected() {
    let absent = TailwindArbitrary::new("");
    let error = dispatch(&["-", "object", "top"], &absent).unwrap_err();
    assert_eq!(error.kind, SyntaxErrorKind::UnexpectedNegative);
    assert_eq!(error.fragment, "object-top");
    let error = dispatch_signed(&["object", "top"], &absent, Negative(true)).unwrap_err();
    assert_eq!(error.kind, SyntaxErrorKind::UnexpectedNegative);
    assert_eq!(error.message(), "unexpected negative sign: object-top");
}

#[test]
fn dispatch_arbitrary_fallback() {
    let utility = dispatch(&["left"], &TailwindArbitrary::new("10px")).unwrap();
    assert_eq!(utility.render(), "left-[10px]");
    match utility {
        ResolvedUtility::Left(left) => {
            assert_eq!(
                left.kind().magnitude,
                Magnitude::Arbitrary(TailwindArbitrary::new("10px"))
            );
        },
        _ => panic!("not a left utility"),
    }
    let utility = dispatch(&["left"], &TailwindArbitrary::new("auto")).unwrap();
    assert_eq!(utility.render(), "left-[auto]");
    let utility = dispatch(&["-", "left"], &TailwindArbitrary::new("10px")).unwrap();
    assert_eq!(utility.render(), "-left-[10px]");
    let utility = dispatch(&["object"], &TailwindArbitrary::new("1px_2px")).unwrap();
    assert_eq!(utility.render(), "object-[1px_2px]");
    let utility = dispatch(&["scroll", "pl"], &TailwindArbitrary::new("1px")).unwrap();
    assert_eq!(utility.render(), "scroll-pl-[1px]");
}

#[test]
fn dispatch_missing_value() {
    let absent = TailwindArbitrary::new("");
    for pattern in [&["left"][..], &["object"][..], &["scroll", "p"][..]] {
        let error = dispatch(pattern, &absent).unwrap_err();
        assert_eq!(error.kind, SyntaxErrorKind::MissingValue);
        assert_eq!(error.fragment, "");
    }
}

#[test]
fn dispatch_unknown_utility() {
    let absent = TailwindArbitrary::new("");
    let patterns: [&[&str]; 8] = [
        &[],
        &["-"],
        &["right", "4"],
        &["Left", "4"],
        &["scroll"],
        &["scroll", "m", "4"],
        &["scroll", "4"],
        &["blue", "500"],
    ];
    for pattern in patterns {
        let (_, unsigned) = Negative::detect(pattern);
        let error = dispatch(pattern, &absent).unwrap_err();
        assert_eq!(error.kind, SyntaxErrorKind::UnknownUtility);
        assert_eq!(error.fragment, unsigned.join("-"));
    }
    let error = dispatch(&["scroll", "m", "4"], &absent).unwrap_err();
    assert_eq!(error.message(), "unknown utility: scroll-m-4");
}

#[test]
fn dispatch_passes_family_errors_on() {
    let absent = TailwindArbitrary::new("");
    let error = dispatch(&["left", "foo"], &absent).unwrap_err();
    assert_eq!(error.kind, SyntaxErrorKind::UnknownValue);
    assert_eq!(error.fragment, "foo");
    let error = dispatch(&["object", "top", "bottom"], &absent).unwrap_err();
    assert_eq!(error.kind, SyntaxErrorKind::UnknownAnchor);
    assert_eq!(error.fragment, "top-bottom");
    let error = dispatch(&["scroll", "px", "auto"], &absent).unwrap_err();
    assert_eq!(error.kind, SyntaxErrorKind::UnknownValue);
    assert_eq!(error.fragment, "auto");
}

#[test]
fn dispatch_families() {
    let absent = TailwindArbitrary::new("");
    assert_eq!(dispatch(&["left", "4"], &absent).unwrap().family(), Family::Left);
    assert_eq!(dispatch(&["object", "top"], &absent).unwrap().family(), Family::ObjectPosition);
    assert_eq!(dispatch(&["scroll", "p", "4"], &absent).unwrap().family(), Family::ScrollPadding);
    assert_eq!(Family::select(&["left"]), Some(Family::Left));
    assert_eq!(Family::select(&["object", "x", "y"]), Some(Family::ObjectPosition));
    assert_eq!(Family::select(&["scroll", "py"]), Some(Family::ScrollPadding));
    assert_eq!(Family::select(&["scroll"]), None);
    assert_eq!(Family::select(&["p", "4"]), None);
    assert_eq!(Family::Left.prefix(), "left");
    assert_eq!(Family::ObjectPosition.prefix(), "object");
    assert_eq!(Family::ScrollPadding.prefix(), "scroll");
}

#[test]
fn dispatch_lengths() {
    let absent = TailwindArbitrary::new("");
    match dispatch(&["left", "50%"], &absent).unwrap() {
        ResolvedUtility::Left(left) => {
            assert_eq!(left.kind().magnitude, Magnitude::Length(50, LengthUnit::Percent));
        },
        _ => panic!("not a left utility"),
    }
}

#[test]
fn utility_collision_ids() {
    let absent = TailwindArbitrary::new("");
    let left = dispatch(&["left", "4"], &absent).unwrap();
    assert_eq!(left.collision_id(), "left");
    assert_eq!(left.get_collisions(), vec!["left"]);
    let object = dispatch(&["object", "top"], &absent).unwrap();
    assert_eq!(object.collision_id(), "object-position");
    assert_eq!(object.get_collisions(), vec!["object-position"]);
    let padding = dispatch(&["scroll", "px", "4"], &absent).unwrap();
    assert_eq!(padding.collision_id(), "scroll-padding-x");
    assert_eq!(
        padding.get_collisions(),
        vec!["scroll-padding-x", "scroll-padding-left", "scroll-padding-right"]
    );
}
