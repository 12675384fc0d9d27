use tailwind_css::arbitrary::TailwindArbitrary;
use tailwind_css::error::SyntaxErrorKind;
use tailwind_css::left::TailwindLeft;
use tailwind_css::negative::Negative;
use tailwind_css::unit::{check_valid_auto, LengthUnit, Magnitude, UnitValue};

#[test]
fn unit_keywords() {
    assert_eq!(Magnitude::parse(&["px"], &TailwindArbitrary::new("")).unwrap(), Magnitude::Px);
    assert_eq!(Magnitude::parse(&["full"], &TailwindArbitrary::new("")).unwrap(), Magnitude::Full);
    assert_eq!(Magnitude::parse(&["auto"], &TailwindArbitrary::new("")).unwrap(), Magnitude::Auto);
    assert_eq!(Magnitude::keyword("px"), Some(Magnitude::Px));
    assert_eq!(Magnitude::keyword("4"), None);
    assert_eq!(Magnitude::keyword("Auto"), None);
}

#[test]
fn unit_numbers() {
    assert_eq!(Magnitude::parse(&["4"], &TailwindArbitrary::new("")).unwrap(), Magnitude::Number(4));
    assert_eq!(Magnitude::parse(&["0"], &TailwindArbitrary::new("")).unwrap(), Magnitude::Number(0));
    assert_eq!(Magnitude::parse(&["007"], &TailwindArbitrary::new("")).unwrap(), Magnitude::Number(7));
    assert_eq!(
        Magnitude::parse(&["4294967295"], &TailwindArbitrary::new("")).unwrap(),
        Magnitude::Number(4294967295)
    );
}

#[test]
fn unit_lengths() {
    let cases = [
        ("10px", 10, LengthUnit::Px),
        ("2em", 2, LengthUnit::Em),
        ("3rem", 3, LengthUnit::Rem),
        ("50%", 50, LengthUnit::Percent),
        ("100vw", 100, LengthUnit::Vw),
        ("0vh", 0, LengthUnit::Vh),
    ];
    for (token, n, unit) in cases {
        assert_eq!(Magnitude::measure(token), Some(Magnitude::Length(n, unit)));
        assert_eq!(Magnitude::parse(&[token], &TailwindArbitrary::new("")).unwrap(), Magnitude::Length(n, unit));
    }
}

#[test]
fn unit_names() {
    let cases = [
        (LengthUnit::Px, "px"),
        (LengthUnit::Em, "em"),
        (LengthUnit::Rem, "rem"),
        (LengthUnit::Percent, "%"),
        (LengthUnit::Vw, "vw"),
        (LengthUnit::Vh, "vh"),
    ];
    for (unit, name) in cases {
        assert_eq!(unit.name(), name);
        assert_eq!(LengthUnit::parse(name), Some(unit));
    }
    assert_eq!(LengthUnit::parse(""), None);
    assert_eq!(LengthUnit::parse("pt"), None);
    assert_eq!(LengthUnit::parse("PX"), None);
}

#[test]
fn unit_rejects_other_tokens() {
    for token in ["", "foo", "px4", "4pt", "4 px", "-4", "4.5", "4px4", "4294967296", "1é"] {
        assert_eq!(Magnitude::measure(token), None);
    }
    for token in ["", "foo", "px4", "4pt", "-4", "4.5", "4294967296px"] {
        let error = Magnitude::parse(&[token], &TailwindArbitrary::new("")).unwrap_err();
        assert_eq!(error.kind, SyntaxErrorKind::UnknownValue);
        assert_eq!(error.fragment, token);
    }
}

#[test]
fn unit_rejects_more_than_one_token() {
    let error = Magnitude::parse(&["4", "px"], &TailwindArbitrary::new("")).unwrap_err();
    assert_eq!(error.kind, SyntaxErrorKind::UnknownValue);
    assert_eq!(error.fragment, "4-px");
    assert_eq!(error.message(), "unknown value: 4-px");
}

#[test]
fn unit_arbitrary_only_where_no_token() {
    let arbitrary = TailwindArbitrary::new("10px");
    assert_eq!(
        Magnitude::parse(&[], &arbitrary).unwrap(),
        Magnitude::Arbitrary(TailwindArbitrary::new("10px"))
    );
    assert_eq!(Magnitude::parse(&["4"], &arbitrary).unwrap(), Magnitude::Number(4));
    let error = Magnitude::parse(&["foo"], &arbitrary).unwrap_err();
    assert_eq!(error.kind, SyntaxErrorKind::UnknownValue);
    let error = Magnitude::parse(&[], &TailwindArbitrary::new("")).unwrap_err();
    assert_eq!(error.kind, SyntaxErrorKind::MissingValue);
    assert_eq!(error.fragment, "");
}

#[test]
fn unit_keyword_before_arbitrary() {
    let arbitrary = TailwindArbitrary::new("auto");
    assert_eq!(Magnitude::parse(&["auto"], &arbitrary).unwrap(), Magnitude::Auto);
    assert_eq!(
        Magnitude::parse(&[], &arbitrary).unwrap(),
        Magnitude::Arbitrary(TailwindArbitrary::new("auto"))
    );
}

#[test]
fn unit_value_records_the_sign() {
    let value = UnitValue::parse(&["4"], &TailwindArbitrary::new(""), Negative(true)).unwrap();
    assert_eq!(value, UnitValue { negative: Negative(true), magnitude: Magnitude::Number(4) });
    let value = UnitValue::parse(&["4"], &TailwindArbitrary::new(""), Negative(false)).unwrap();
    assert_eq!(value, UnitValue { negative: Negative(false), magnitude: Magnitude::Number(4) });
    assert!(UnitValue::parse(&["foo"], &TailwindArbitrary::new(""), Negative(true)).is_err());
}

#[test]
fn unit_value_writes_sign_and_class() {
    let value = UnitValue { negative: Negative(true), magnitude: Magnitude::Length(50, LengthUnit::Percent) };
    let mut out = String::new();
    value.write_negative(&mut out);
    assert_eq!(out, "-");
    value.write_class(&mut out, "left-");
    assert_eq!(out, "-left-50%");
    let value = UnitValue { negative: Negative(false), magnitude: Magnitude::Full };
    let mut out = String::new();
    value.write_negative(&mut out);
    value.write_class(&mut out, "top-");
    assert_eq!(out, "top-full");
}

#[test]
fn magnitude_texts() {
    let cases = [
        (Magnitude::Px, "px"),
        (Magnitude::Full, "full"),
        (Magnitude::Auto, "auto"),
        (Magnitude::Number(12), "12"),
        (Magnitude::Length(3, LengthUnit::Rem), "3rem"),
        (Magnitude::Arbitrary(TailwindArbitrary::new("1px")), "[1px]"),
    ];
    for (magnitude, text) in cases {
        let mut out = String::new();
        magnitude.write(&mut out);
        assert_eq!(out, text);
    }
}

#[test]
fn check_valid_auto_keywords() {
    for mode in ["auto", "inherit", "initial", "revert", "unset"] {
        assert!(check_valid_auto(mode));
        assert!(TailwindLeft::check_valid(mode));
    }
    for mode in ["", "px", "full", "4", "AUTO", "none"] {
        assert!(!check_valid_auto(mode));
        assert!(!TailwindLeft::check_valid(mode));
    }
}

#[test]
fn left_parses_and_renders() {
    let left = TailwindLeft::parse(&["4"], &TailwindArbitrary::new(""), Negative(false)).unwrap();
    assert_eq!(left.kind().magnitude, Magnitude::Number(4));
    assert_eq!(left.render(), "left-4");
    assert_eq!(left.collision_id(), "left");
    assert_eq!(left.get_collisions(), vec!["left".to_string()]);
    let left = TailwindLeft::parse(&["px"], &TailwindArbitrary::new(""), Negative(true)).unwrap();
    assert_eq!(left.render(), "-left-px");
    let left = TailwindLeft::parse(&["50%"], &TailwindArbitrary::new(""), Negative(false)).unwrap();
    assert_eq!(left.render(), "left-50%");
    let left = TailwindLeft::parse(&[], &TailwindArbitrary::new("10px"), Negative(false)).unwrap();
    assert_eq!(left.render(), "left-[10px]");
    let error = TailwindLeft::parse(&["foo"], &TailwindArbitrary::new(""), Negative(false)).unwrap_err();
    assert_eq!(error.kind, SyntaxErrorKind::UnknownValue);
    assert_eq!(error.fragment, "foo");
}
