use tailwind_css::error::{SyntaxError, SyntaxErrorKind};

#[test]
fn message_names_the_fault_and_the_fragment() {
    let error = SyntaxError::new(SyntaxErrorKind::UnknownUtility, "foo-bar");
    assert_eq!(error.kind, SyntaxErrorKind::UnknownUtility);
    assert_eq!(error.fragment, "foo-bar");
    assert_eq!(error.message(), "unknown utility: foo-bar");
}

#[test]
fn every_kind_has_its_own_text() {
    let kinds = [
        (SyntaxErrorKind::UnknownUtility, "unknown utility: "),
        (SyntaxErrorKind::UnknownAxis, "unknown axis: "),
        (SyntaxErrorKind::UnknownAnchor, "unknown anchor point: "),
        (SyntaxErrorKind::UnknownValue, "unknown value: "),
        (SyntaxErrorKind::MissingValue, "missing value: "),
        (SyntaxErrorKind::NotAnInteger, "not an integer: "),
        (SyntaxErrorKind::NegativeWeight, "negative color weight: "),
        (SyntaxErrorKind::UnknownColor, "unknown color pattern: "),
        (SyntaxErrorKind::UnexpectedNegative, "unexpected negative sign: "),
    ];
    for (kind, text) in kinds {
        assert_eq!(kind.text(), text);
        assert_eq!(SyntaxError::new(kind, "x").message(), format!("{}x", text));
    }
}

#[test]
fn error_clone_is_equal() {
    let error = SyntaxError::new(SyntaxErrorKind::NotAnInteger, "abc");
    assert_eq!(error.clone(), error);
}
