use auth_service::validation::{
    contains_digit, contains_letter, is_valid_email, is_whitespace_char, password_verdict,
    validate_credentials, ValidationError, MIN_PASSWORD_CHARS,
};

#[test]
fn accepts_well_formed_credentials() {
    assert_eq!(validate_credentials("a@b.com", "password1"), Ok(()));
    assert_eq!(validate_credentials("first.last@mail.example.org", "abc12345"), Ok(()));
}

#[test]
fn rejects_text_that_is_no_email() {
    assert_eq!(
        validate_credentials("not-an-email", "password1"),
        Err(ValidationError::InvalidEmail)
    );
}

#[test]
fn rejects_email_without_at_sign() {
    assert!(!is_valid_email("a.b.com"));
    assert!(!is_valid_email("ab.com"));
    assert!(!is_valid_email(""));
}

#[test]
fn rejects_email_without_dot_after_at_sign() {
    assert!(!is_valid_email("a.b@com"));
    assert!(!is_valid_email("a@bcom"));
}

#[test]
fn rejects_email_with_whitespace() {
    assert!(!is_valid_email("a b@c.com"));
    assert!(!is_valid_email("a@b .com"));
    assert!(!is_valid_email("a@b.c om"));
    assert!(!is_valid_email(" a@b.com"));
    assert!(!is_valid_email("a@b.com\n"));
    assert!(!is_valid_email("a@b.com\t"));
    assert!(!is_valid_email("a\u{00A0}@b.com"));
    assert!(!is_valid_email("a@b\u{3000}.com"));
}

#[test]
fn rejects_email_with_two_at_signs() {
    assert!(!is_valid_email("a@@b.com"));
    assert!(!is_valid_email("a@b@c.com"));
    assert!(!is_valid_email("a@b.com@"));
}

#[test]
fn rejects_email_with_an_empty_part() {
    assert!(!is_valid_email("@b.com"));
    assert!(!is_valid_email("a@.com"));
    assert!(!is_valid_email("a@b."));
    assert!(!is_valid_email("a@."));
    assert!(!is_valid_email("@"));
    assert!(!is_valid_email("."));
}

#[test]
fn accepts_shortest_email_and_dotted_parts() {
    assert!(is_valid_email("a@b.c"));
    assert!(is_valid_email("a@b.c."));
    assert!(is_valid_email("a@b..c"));
    assert!(is_valid_email(".@b.c"));
    assert!(is_valid_email("a.b@c.d.e"));
    assert!(is_valid_email("\u{00FC}ser@b\u{00FC}cher.de"));
}

#[test]
fn email_check_agrees_with_the_pattern() {
    let pattern = regex::Regex::new(r"^[^\s@]+@[^\s@]+\.[^\s@]+$").unwrap();
    let samples = [
        "", "a", "@", ".", "a@", "@b", "a@b", "a@b.", "a@.b", "a@b.c", "a@b.c.", "a@b..c",
        "a@..c", "a@...", "a@b.c@", "a@@b.c", "a b@c.d", "a@b c.d", "a@b.c d", "a@b.c\n",
        "\na@b.c", "a@b.c\r\n", "a\t@b.c", ".@..x", "..@x.x", "x@x.x.x", "a@b@c.d", "@a.b",
        "a.b@c", "a.b.c", "user@example.com", "user@example", "user example@x.y",
        "a\u{0085}@b.c", "a\u{00A0}@b.c", "a\u{1680}@b.c", "a\u{2003}@b.c", "a\u{2028}@b.c",
        "a\u{2029}@b.c", "a\u{202F}@b.c", "a\u{205F}@b.c", "a\u{3000}@b.c", "a\u{200B}@b.c",
        "a\u{180E}@b.c", "a\u{FEFF}@b.c", "\u{4E2D}@\u{6587}.\u{5B57}", "a@b.\u{000B}",
        "a@b.\u{000C}c", "a@\u{001F}.c", "a@b.c ", "a@ b.c", "a @b.c",
    ];
    for s in samples.iter() {
        assert_eq!(is_valid_email(s), pattern.is_match(s), "{:?}", s);
    }
}

#[test]
fn whitespace_is_what_std_calls_whitespace() {
    let mut code: u32 = 0;
    let mut seen: u32 = 0;
    while code <= 0x10FFFF {
        if let Some(c) = char::from_u32(code) {
            assert_eq!(is_whitespace_char(c), c.is_whitespace(), "U+{:04X}", code);
            if is_whitespace_char(c) {
                seen += 1;
            }
        }
        code += 1;
    }
    assert_eq!(seen, 25);
}

#[test]
fn rejects_short_password_whatever_it_holds() {
    assert_eq!(MIN_PASSWORD_CHARS, 8);
    assert_eq!(validate_credentials("a@b.com", ""), Err(ValidationError::PasswordTooShort));
    assert_eq!(validate_credentials("a@b.com", "abc1234"), Err(ValidationError::PasswordTooShort));
    assert_eq!(validate_credentials("a@b.com", "1234567"), Err(ValidationError::PasswordTooShort));
    assert_eq!(validate_credentials("a@b.com", "a1"), Err(ValidationError::PasswordTooShort));
}

#[test]
fn accepts_password_of_exactly_eight_characters() {
    assert_eq!(validate_credentials("a@b.com", "abcdefg1"), Ok(()));
}

#[test]
fn password_length_counts_characters_not_bytes() {
    // Seven characters in thirteen bytes.
    assert_eq!("\u{00E9}\u{00E9}\u{00E9}\u{00E9}\u{00E9}\u{00E9}1".len(), 13);
    assert_eq!(
        validate_credentials("a@b.com", "\u{00E9}\u{00E9}\u{00E9}\u{00E9}\u{00E9}\u{00E9}1"),
        Err(ValidationError::PasswordTooShort)
    );
    assert_eq!(
        validate_credentials("a@b.com", "\u{00E9}\u{00E9}\u{00E9}\u{00E9}\u{00E9}\u{00E9}\u{00E9}1"),
        Ok(())
    );
}

#[test]
fn rejects_password_without_digit() {
    assert_eq!(validate_credentials("a@b.com", "abcdefgh"), Err(ValidationError::PasswordTooWeak));
    assert_eq!(
        validate_credentials("a@b.com", "wrongpass"),
        Err(ValidationError::PasswordTooWeak)
    );
}

#[test]
fn rejects_password_without_letter() {
    assert_eq!(validate_credentials("a@b.com", "12345678"), Err(ValidationError::PasswordTooWeak));
    assert_eq!(validate_credentials("a@b.com", "1234-5678!"), Err(ValidationError::PasswordTooWeak));
}

#[test]
fn letters_and_digits_are_unicode() {
    assert!(contains_letter("1234\u{00E9}"));
    assert!(contains_letter("\u{4E2D}"));
    assert!(!contains_letter("1234 !?"));
    assert!(!contains_letter(""));
    assert!(contains_digit("abc\u{0663}"));
    assert!(contains_digit("abc\u{00BD}"));
    assert!(!contains_digit("abc !?"));
    assert!(!contains_digit(""));
    assert_eq!(validate_credentials("a@b.com", "\u{4E2D}\u{4E2D}\u{4E2D}\u{4E2D}\u{4E2D}\u{4E2D}\u{4E2D}\u{0663}"), Ok(()));
}

#[test]
fn email_is_checked_before_password() {
    assert_eq!(validate_credentials("nope", "x"), Err(ValidationError::InvalidEmail));
    assert_eq!(validate_credentials("nope", "abcdefgh"), Err(ValidationError::InvalidEmail));
}

#[test]
fn length_is_checked_before_letter_and_digit() {
    assert_eq!(validate_credentials("a@b.com", "abc"), Err(ValidationError::PasswordTooShort));
    assert_eq!(validate_credentials("a@b.com", "123"), Err(ValidationError::PasswordTooShort));
}

#[test]
fn password_verdict_judges_length_first() {
    assert_eq!(password_verdict(0, false, false), Err(ValidationError::PasswordTooShort));
    assert_eq!(password_verdict(7, true, true), Err(ValidationError::PasswordTooShort));
    assert_eq!(password_verdict(8, true, false), Err(ValidationError::PasswordTooWeak));
    assert_eq!(password_verdict(8, false, true), Err(ValidationError::PasswordTooWeak));
    assert_eq!(password_verdict(8, false, false), Err(ValidationError::PasswordTooWeak));
    assert_eq!(password_verdict(8, true, true), Ok(()));
    assert_eq!(password_verdict(usize::MAX, true, true), Ok(()));
}
