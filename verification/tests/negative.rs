use tailwind_css::negative::Negative;

#[test]
fn negative_writes_a_minus_sign() {
    let mut out = String::new();
    Negative::new(true).write(&mut out);
    assert_eq!(out, "-");
    Negative::new(false).write(&mut out);
    assert_eq!(out, "-");
    assert!(Negative::new(true).is_negative());
    assert!(!Negative::new(false).is_negative());
    assert_eq!(Negative::new(true), Negative(true));
}

#[test]
fn negative_detect_strips_the_minus_token() {
    let tokens = ["-", "left", "4"];
    let (negative, rest) = Negative::detect(&tokens);
    assert_eq!(negative, Negative(true));
    assert_eq!(rest, ["left", "4"]);
}

#[test]
fn negative_detect_leaves_other_tokens() {
    let tokens = ["left", "4"];
    let (negative, rest) = Negative::detect(&tokens);
    assert_eq!(negative, Negative(false));
    assert_eq!(rest, ["left", "4"]);
    let tokens = ["left", "-"];
    let (negative, rest) = Negative::detect(&tokens);
    assert_eq!(negative, Negative(false));
    assert_eq!(rest, ["left", "-"]);
    let none: [&str; 0] = [];
    let (negative, rest) = Negative::detect(&none);
    assert_eq!(negative, Negative(false));
    assert!(rest.is_empty());
}

#[test]
fn negative_detect_strips_one_token_only() {
    let tokens = ["-", "-", "left"];
    let (negative, rest) = Negative::detect(&tokens);
    assert_eq!(negative, Negative(true));
    assert_eq!(rest, ["-", "left"]);
}
