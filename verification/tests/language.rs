use gpt_client::language::{display_language, lang_exists, Syntax, PLAIN_TEXT};

fn syntax(name: &str, extensions: &[&str]) -> Syntax {
    Syntax {
        name: name.to_string(),
        file_extensions: extensions.iter().map(|e| e.to_string()).collect(),
    }
}

fn known() -> Vec<Syntax> {
    vec![
        syntax("JSON", &["json", "sublime-settings", "ipynb"]),
        syntax("Rust", &["rs"]),
        syntax("Plain Text", &["txt"]),
        syntax("Makefile", &["make", "GNUmakefile", "mk"]),
    ]
}

#[test]
fn language_is_found_by_name() {
    assert!(lang_exists("Rust", &known()));
    assert!(lang_exists("JSON", &known()));
}

#[test]
fn language_name_is_matched_in_any_case() {
    assert!(lang_exists("rust", &known()));
    assert!(lang_exists("RUST", &known()));
    assert!(lang_exists("json", &known()));
    assert!(lang_exists("plain text", &known()));
}

#[test]
fn case_is_folded_beyond_ascii() {
    let langs = vec![syntax("Fran\u{e7}ais \u{c9}crit", &["\u{e9}crit"])];
    assert!(lang_exists("FRAN\u{c7}AIS \u{e9}CRIT", &langs));
    assert!(lang_exists("\u{c9}CRIT", &langs));
    assert!(!lang_exists("Francais Ecrit", &langs));
}

#[test]
fn language_is_found_by_extension() {
    assert!(lang_exists("rs", &known()));
    assert!(lang_exists("ipynb", &known()));
    assert!(lang_exists("mk", &known()));
}

#[test]
fn hint_is_lowered_before_it_is_held_against_extensions() {
    assert!(lang_exists("RS", &known()));
    assert!(lang_exists("Txt", &known()));
}

#[test]
fn extension_is_taken_as_it_stands() {
    assert!(!lang_exists("GNUmakefile", &known()));
    assert!(!lang_exists("gnumakefile", &known()));
}

#[test]
fn unknown_language_is_not_found() {
    assert!(!lang_exists("cobol", &known()));
    assert!(!lang_exists("", &known()));
    assert!(!lang_exists("rus", &known()));
}

#[test]
fn nothing_is_found_among_no_languages() {
    assert!(!lang_exists("rust", &Vec::new()));
}

#[test]
fn language_without_extensions_is_found_by_name_only() {
    let langs = vec![syntax("Fish", &[])];
    assert!(lang_exists("fish", &langs));
    assert!(!lang_exists("sh", &langs));
}

#[test]
fn known_hint_is_kept_as_given() {
    assert_eq!(display_language("json", &known()), "json");
    assert_eq!(display_language("RUST", &known()), "RUST");
    assert_eq!(display_language("rs", &known()), "rs");
}

#[test]
fn unknown_hint_falls_back_to_plain_text() {
    assert_eq!(PLAIN_TEXT, "txt");
    assert_eq!(display_language("cobol", &known()), "txt");
    assert_eq!(display_language("json", &Vec::new()), "txt");
}
