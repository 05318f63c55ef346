use faker_rand::text::{
    apply, ascii_lowercase, capitalize_first, char_values, count_holes, fill_pattern, is_ascii_letters,
    keep_ascii_letters, lowercase, split_lines, Transform,
};

fn strings(v: &[&str]) -> Vec<String> {
    v.iter().map(|s| s.to_string()).collect()
}

#[test]
fn holes_are_counted_left_to_right() {
    assert_eq!(count_holes(""), 0);
    assert_eq!(count_holes("{} {}"), 2);
    assert_eq!(count_holes("({}{}{}) {}{}{}-{}{}{}{}"), 10);
    assert_eq!(count_holes("{{}"), 1);
    assert_eq!(count_holes("no placeholder {"), 0);
}

#[test]
fn pattern_is_filled_in_order() {
    assert_eq!(fill_pattern("{}-{}", &strings(&["x", "y"])), "x-y");
    assert_eq!(fill_pattern("Apt. {}{}{}", &strings(&["1", "2", "3"])), "Apt. 123");
    assert_eq!(fill_pattern("{} étage", &strings(&["4"])), "4 étage");
    assert_eq!(fill_pattern("plain", &strings(&[])), "plain");
}

#[test]
fn missing_values_leave_placeholders_empty() {
    assert_eq!(fill_pattern("{}+{}", &strings(&["a"])), "a+");
}

#[test]
fn ascii_letters_are_kept() {
    assert_eq!(keep_ascii_letters("O'Hara-Smith 3rd"), "aramithrd");
    assert_eq!(keep_ascii_letters("123 !?"), "");
    assert!(is_ascii_letters("abc"));
    assert!(!is_ascii_letters("aBc"));
    assert!(is_ascii_letters(""));
}

#[test]
fn ascii_lowercase_transliterates_and_filters() {
    assert_eq!(ascii_lowercase("Élodie"), "elodie");
    assert_eq!(ascii_lowercase("O'Connor"), "oconnor");
    assert_eq!(ascii_lowercase("Lefèvre-Dupré"), "lefevredupre");
    assert_eq!(ascii_lowercase("42"), "");
    assert_eq!(ascii_lowercase(""), "");
}

#[test]
fn ascii_lowercase_is_idempotent() {
    for s in ["Élodie", "O'Connor", "Ünïcödé Straße", "abc", "", "ÆSIR 12", "北京"] {
        let once = ascii_lowercase(s);
        assert_eq!(ascii_lowercase(&once), once);
    }
}

#[test]
fn lowercase_is_unicode_aware() {
    assert_eq!(lowercase("ÀB C"), "àb c");
    assert_eq!(lowercase("ΣΑΣ"), "σας");
}

#[test]
fn capitalize_first_uppercases_one_character() {
    assert_eq!(capitalize_first("impedit"), "Impedit");
    assert_eq!(capitalize_first("élan vital"), "Élan vital");
    assert_eq!(capitalize_first("ßa"), "SSa");
    assert_eq!(capitalize_first("already Up"), "Already Up");
}

#[test]
fn capitalize_first_of_empty_is_empty() {
    assert_eq!(capitalize_first(""), "");
}

#[test]
fn apply_dispatches_on_transform() {
    assert_eq!(apply(Transform::Lowercase, "ABC"), "abc");
    assert_eq!(apply(Transform::AsciiLowercase, "Zoë!"), "zoe");
    assert_eq!(apply(Transform::CapitalizeFirst, "word"), "Word");
}

#[test]
fn lines_are_split_like_a_word_list() {
    assert_eq!(split_lines("a\nb\nc"), strings(&["a", "b", "c"]));
    assert_eq!(split_lines("a\r\nb\n"), strings(&["a", "b"]));
    assert_eq!(split_lines("a\n\nb"), strings(&["a", "", "b"]));
    assert_eq!(split_lines("\n"), strings(&[""]));
    assert_eq!(split_lines(""), strings(&[]));
    assert_eq!(split_lines("foo\nbar\n\r\nbaz\r"), strings(&["foo", "bar", "", "baz\r"]));
}

#[test]
fn characters_become_single_strings() {
    assert_eq!(char_values("0a9"), strings(&["0", "a", "9"]));
    assert_eq!(char_values(""), strings(&[]));
}
