use tiger::text::{is_integer, is_number};

#[test]
fn integer_literals() {
    assert!(is_integer("0"));
    assert!(is_integer("42"));
    assert!(is_integer("-7"));
    assert!(!is_integer(""));
    assert!(!is_integer("-"));
    assert!(!is_integer("1.5"));
    assert!(!is_integer("x1"));
}

#[test]
fn number_literals() {
    assert!(is_number("3"));
    assert!(is_number("-3"));
    assert!(is_number("0.25"));
    assert!(is_number("-10.5"));
    assert!(!is_number("."));
    assert!(!is_number("1."));
    assert!(!is_number(".5"));
    assert!(!is_number("1.2.3"));
    assert!(!is_number("abc"));
    assert!(!is_number(""));
}
