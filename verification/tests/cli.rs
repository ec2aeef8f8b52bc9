use bun_cli::cli::Cli;

#[test]
fn test_empty_reply_defaults_to_yes() {
    assert!(Cli::consent_is_affirmative(""));
    assert!(Cli::consent_is_affirmative("   "));
    assert!(Cli::consent_is_affirmative("\t\r\n"));
}

#[test]
fn test_y_and_yes_are_affirmative_in_any_case() {
    assert!(Cli::consent_is_affirmative("y"));
    assert!(Cli::consent_is_affirmative("Y"));
    assert!(Cli::consent_is_affirmative("yes"));
    assert!(Cli::consent_is_affirmative("YES"));
    assert!(Cli::consent_is_affirmative("Yes"));
    assert!(Cli::consent_is_affirmative("yEs"));
}

#[test]
fn test_surrounding_whitespace_is_trimmed_from_replies() {
    assert!(Cli::consent_is_affirmative("  y  "));
    assert!(Cli::consent_is_affirmative(" yes\n"));
    assert!(!Cli::consent_is_affirmative("  no  "));
}

#[test]
fn test_unicode_whitespace_is_trimmed_from_replies() {
    // str::trim strips the whole Unicode white-space set, no-break space and
    // ideographic space included.
    assert!(Cli::consent_is_affirmative("y\u{00A0}"));
    assert!(Cli::consent_is_affirmative("\u{2003}yes\u{3000}"));
    assert!(Cli::consent_is_affirmative("\u{00A0}\u{2028}"));
    assert!(!Cli::consent_is_affirmative("\u{00A0}no\u{00A0}"));
}

#[test]
fn test_other_replies_decline() {
    assert!(!Cli::consent_is_affirmative("n"));
    assert!(!Cli::consent_is_affirmative("no"));
    assert!(!Cli::consent_is_affirmative("ys"));
    assert!(!Cli::consent_is_affirmative("yess"));
    assert!(!Cli::consent_is_affirmative("sure"));
    assert!(!Cli::consent_is_affirmative("y e s"));
}
