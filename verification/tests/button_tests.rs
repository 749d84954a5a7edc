use autoclick::button::{button_or_primary, parse_button, ButtonError};

#[test]
fn button_known_names() {
    assert_eq!(parse_button("left"), Ok(1));
    assert_eq!(parse_button("middle"), Ok(2));
    assert_eq!(parse_button("right"), Ok(3));
}

#[test]
fn button_names_any_letter_case() {
    assert_eq!(parse_button("LEFT"), Ok(1));
    assert_eq!(parse_button("Middle"), Ok(2));
    assert_eq!(parse_button("rIgHt"), Ok(3));
}

#[test]
fn button_numeric_selectors() {
    for n in 1..=9u32 {
        assert_eq!(parse_button(&n.to_string()), Ok(n));
    }
}

#[test]
fn button_numeric_with_sign_and_zeros() {
    // The standard unsigned parser accepts a leading '+' and zeros.
    assert_eq!(parse_button("+5"), Ok(5));
    assert_eq!(parse_button("0009"), Ok(9));
}

#[test]
fn button_out_of_range() {
    assert_eq!(parse_button("0"), Err(ButtonError::OutOfRange));
    assert_eq!(parse_button("10"), Err(ButtonError::OutOfRange));
    assert_eq!(parse_button("4294967295"), Err(ButtonError::OutOfRange));
}

#[test]
fn button_unrecognized() {
    assert_eq!(parse_button(""), Err(ButtonError::Unrecognized));
    assert_eq!(parse_button("+"), Err(ButtonError::Unrecognized));
    assert_eq!(parse_button("wheel"), Err(ButtonError::Unrecognized));
    assert_eq!(parse_button("1x"), Err(ButtonError::Unrecognized));
    assert_eq!(parse_button("-3"), Err(ButtonError::Unrecognized));
    assert_eq!(parse_button("left "), Err(ButtonError::Unrecognized));
}

#[test]
fn button_number_too_large_for_u32() {
    // Values past the 32-bit range fail the parse itself.
    assert_eq!(parse_button("4294967296"), Err(ButtonError::Unrecognized));
    assert_eq!(
        parse_button("99999999999999999999999999"),
        Err(ButtonError::Unrecognized)
    );
}

#[test]
fn button_degrades_to_primary() {
    assert_eq!(button_or_primary("wheel"), 1);
    assert_eq!(button_or_primary("0"), 1);
    assert_eq!(button_or_primary("right"), 3);
    assert_eq!(button_or_primary("7"), 7);
}
