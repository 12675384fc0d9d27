use tailwind_css::arbitrary::TailwindArbitrary;
use tailwind_css::color::TailwindColor;
use tailwind_css::error::SyntaxErrorKind;

#[test]
fn color_themed() {
    let color = TailwindColor::parse(&["blue", "500"], &TailwindArbitrary::new("")).unwrap();
    assert_eq!(color, TailwindColor::Themed("blue".to_string(), 500));
    assert_eq!(color.get_class(), "blue-500");
}

#[test]
fn color_weight_must_be_an_integer() {
    let error = TailwindColor::parse(&["blue", "abc"], &TailwindArbitrary::new("")).unwrap_err();
    assert_eq!(error.kind, SyntaxErrorKind::NotAnInteger);
    assert_eq!(error.fragment, "abc");
    assert_eq!(error.message(), "not an integer: abc");
    let error = TailwindColor::parse(&["blue", ""], &TailwindArbitrary::new("")).unwrap_err();
    assert_eq!(error.kind, SyntaxErrorKind::NotAnInteger);
    let error = TailwindColor::parse(&["blue", "5.5"], &TailwindArbitrary::new("")).unwrap_err();
    assert_eq!(error.kind, SyntaxErrorKind::NotAnInteger);
    let error = TailwindColor::parse_themed("blue", "2147483648").unwrap_err();
    assert_eq!(error.kind, SyntaxErrorKind::NotAnInteger);
}

#[test]
fn color_weight_must_not_be_negative() {
    let error = TailwindColor::parse_themed("blue", "-500").unwrap_err();
    assert_eq!(error.kind, SyntaxErrorKind::NegativeWeight);
    assert_eq!(error.fragment, "-500");
    assert_eq!(
        TailwindColor::parse_themed("blue", "-0").unwrap(),
        TailwindColor::Themed("blue".to_string(), 0)
    );
}

#[test]
fn color_arbitrary_where_no_token() {
    let color = TailwindColor::parse(&[], &TailwindArbitrary::new("#fff")).unwrap();
    assert_eq!(color, TailwindColor::Arbitrary(TailwindArbitrary::new("#fff")));
    assert_eq!(color.get_class(), "[#fff]");
    let color = TailwindColor::parse(&[], &TailwindArbitrary::new("")).unwrap();
    assert_eq!(color, TailwindColor::Arbitrary(TailwindArbitrary::new("")));
}

#[test]
fn color_too_many_tokens() {
    let error = TailwindColor::parse(&["a", "b", "c"], &TailwindArbitrary::new("#fff")).unwrap_err();
    assert_eq!(error.kind, SyntaxErrorKind::UnknownColor);
    assert_eq!(error.fragment, "a-b-c");
    assert_eq!(error.message(), "unknown color pattern: a-b-c");
    let error =
        TailwindColor::parse(&["blue", "500", "50", "5"], &TailwindArbitrary::new("")).unwrap_err();
    assert_eq!(error.kind, SyntaxErrorKind::UnknownColor);
    assert_eq!(error.fragment, "blue-500-50-5");
}

#[test]
fn color_keywords() {
    let absent = TailwindArbitrary::new("");
    let cases = [
        ("transparent", "transparent"),
        ("none", "transparent"),
        ("black", "black"),
        ("current", "current"),
        ("inherit", "inherit"),
        ("rebeccapurple", "rebeccapurple"),
        ("500", "500"),
    ];
    for (token, keyword) in cases {
        let color = TailwindColor::parse(&[token], &absent).unwrap();
        assert_eq!(color, TailwindColor::Keyword(keyword.to_string()));
        assert_eq!(color.get_class(), keyword);
    }
}

#[test]
fn color_white_gives_black() {
    let color = TailwindColor::parse(&["white"], &TailwindArbitrary::new("")).unwrap();
    assert_eq!(color, TailwindColor::Keyword("black".to_string()));
    assert_eq!(color.get_class(), "black");
    assert_eq!(TailwindColor::black(), TailwindColor::Static("black"));
    assert_eq!(TailwindColor::white(), TailwindColor::Static("black"));
    assert_eq!(TailwindColor::white().get_class(), "black");
}

#[test]
fn color_one_token_ignores_the_arbitrary_value() {
    let color = TailwindColor::parse(&["red"], &TailwindArbitrary::new("#fff")).unwrap();
    assert_eq!(color, TailwindColor::Keyword("red".to_string()));
}

#[test]
fn color_classes() {
    assert_eq!(TailwindColor::Themed("slate".to_string(), 50).get_class(), "slate-50");
    assert_eq!(TailwindColor::Themed("slate".to_string(), 0).get_class(), "slate-0");
    assert_eq!(TailwindColor::Keyword("current".to_string()).get_class(), "current");
    assert_eq!(TailwindColor::Static("black").get_class(), "black");
    assert_eq!(
        TailwindColor::Arbitrary(TailwindArbitrary::new("rgb(1,2,3)")).get_class(),
        "[rgb(1,2,3)]"
    );
}

#[test]
fn color_round_trip() {
    let absent = TailwindArbitrary::new("");
    let patterns: [&[&str]; 5] =
        [&["blue", "500"], &["red", "50"], &["current"], &["transparent"], &["black"]];
    for pattern in patterns {
        let color = TailwindColor::parse(pattern, &absent).unwrap();
        assert_eq!(color.get_class(), pattern.join("-"));
    }
}

#[test]
fn color_clone_is_equal() {
    let color = TailwindColor::Themed("blue".to_string(), 500);
    assert_eq!(color.clone(), color);
}
