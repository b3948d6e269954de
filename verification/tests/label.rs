use ni::label::{sanitize_label, sanitized_char};

fn is_label_char(c: char) -> bool {
    c.is_ascii_alphanumeric() || c == ':' || c == '_' || c == '.' || c == '-'
}

#[test]
fn empty_text_has_empty_label() {
    assert_eq!(sanitize_label(""), "");
}

#[test]
fn space_becomes_underscore_and_punctuation_is_dropped() {
    assert_eq!(sanitize_label("Hello World!"), "Hello_World");
}

#[test]
fn slash_is_dropped_not_replaced() {
    assert_eq!(sanitize_label("rev:1.0/alpha"), "rev:1.0alpha");
}

#[test]
fn message_with_space_gives_label_with_underscore() {
    assert_eq!(sanitize_label("fix bug"), "fix_bug");
}

#[test]
fn every_label_character_is_kept_as_it_is() {
    let all = "abcdefghijklmnopqrstuvwxyzABCDEFGHIJKLMNOPQRSTUVWXYZ0123456789:_.-";
    assert_eq!(sanitize_label(all), all);
}

#[test]
fn only_spaces_give_only_underscores() {
    assert_eq!(sanitize_label("   "), "___");
}

#[test]
fn other_white_space_is_dropped() {
    assert_eq!(sanitize_label("a\tb\nc\r d"), "abc_d");
}

#[test]
fn non_ascii_characters_are_dropped() {
    assert_eq!(sanitize_label("h\u{e9}llo w\u{f6}rld \u{1f600}"), "hllo_wrld_");
    assert_eq!(sanitize_label("\u{4f60}\u{597d}"), "");
}

#[test]
fn characters_next_to_the_kept_ranges_are_dropped() {
    // The neighbours of '0'..'9', 'A'..'Z', 'a'..'z' and of ':', '_', '.', '-'.
    assert_eq!(sanitize_label("/;@[`{,^"), "");
    assert_eq!(sanitize_label("/0129:;"), "0129:");
    assert_eq!(sanitize_label("@AZ[`az{"), "AZaz");
}

#[test]
fn order_is_preserved() {
    assert_eq!(sanitize_label("z a!y b?x"), "z_ay_bx");
}

#[test]
fn label_holds_label_characters_only() {
    let texts = ["Hello World!", "rev:1.0/alpha", "a b\tc", "\u{e9}t\u{e9} 2024", "~/.config nix"];
    for text in texts {
        let label = sanitize_label(text);
        assert!(label.chars().all(is_label_char));
        assert!(label.chars().count() <= text.chars().count());
    }
}

#[test]
fn sanitizing_twice_changes_nothing() {
    let texts = ["", "Hello World!", "rev:1.0/alpha", "fix bug", "  a  ", "\u{e9} _ -"];
    for text in texts {
        let once = sanitize_label(text);
        assert_eq!(sanitize_label(&once), once);
    }
}

#[test]
fn label_of_joined_texts_is_joined_labels() {
    let left = "fix: the";
    let right = " bug (#12)";
    let joined = format!("{}{}", left, right);
    assert_eq!(
        sanitize_label(&joined),
        format!("{}{}", sanitize_label(left), sanitize_label(right))
    );
    assert_eq!(sanitize_label(&joined), "fix:_the_bug_12");
}

#[test]
fn one_character_at_a_time() {
    assert_eq!(sanitized_char('a'), Some('a'));
    assert_eq!(sanitized_char('Z'), Some('Z'));
    assert_eq!(sanitized_char('7'), Some('7'));
    assert_eq!(sanitized_char(':'), Some(':'));
    assert_eq!(sanitized_char('_'), Some('_'));
    assert_eq!(sanitized_char('.'), Some('.'));
    assert_eq!(sanitized_char('-'), Some('-'));
    assert_eq!(sanitized_char(' '), Some('_'));
    assert_eq!(sanitized_char('/'), None);
    assert_eq!(sanitized_char('!'), None);
    assert_eq!(sanitized_char('\u{e9}'), None);
}
