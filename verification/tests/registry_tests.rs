use token_registry::encoding::FormattingToken;
use token_registry::encoding::literal_of;
use token_registry::encoding::meta_sep_example;
use token_registry::encoding::str_eq;
use token_registry::encoding::token_of;
use token_registry::registry::all_entries;
use token_registry::registry::registry_tokens;

#[test]
fn round_trip_meta_sep() {
    assert_eq!(
        token_of(literal_of(FormattingToken::MetaSep)),
        Some(FormattingToken::MetaSep)
    );
}

#[test]
fn round_trip_meta_end() {
    assert_eq!(
        token_of(literal_of(FormattingToken::MetaEnd)),
        Some(FormattingToken::MetaEnd)
    );
}

#[test]
fn literals_are_distinct() {
    assert_ne!(
        literal_of(FormattingToken::MetaSep),
        literal_of(FormattingToken::MetaEnd)
    );
}

#[test]
fn literal_of_meta_sep() {
    assert_eq!(literal_of(FormattingToken::MetaSep), "<|meta_sep|>");
}

#[test]
fn literal_of_meta_end() {
    assert_eq!(literal_of(FormattingToken::MetaEnd), "<|meta_end|>");
}

#[test]
fn token_of_meta_sep_literal() {
    assert_eq!(token_of("<|meta_sep|>"), Some(FormattingToken::MetaSep));
}

#[test]
fn token_of_meta_end_literal() {
    assert_eq!(token_of("<|meta_end|>"), Some(FormattingToken::MetaEnd));
}

#[test]
fn token_of_unknown_literal_is_none() {
    assert_eq!(token_of("<|not_a_token|>"), None);
}

#[test]
fn token_of_is_case_sensitive() {
    assert_eq!(token_of("<|META_SEP|>"), None);
}

#[test]
fn token_of_does_not_trim() {
    assert_eq!(token_of(" <|meta_sep|>"), None);
    assert_eq!(token_of("<|meta_sep|> "), None);
}

#[test]
fn token_of_empty_string_is_none() {
    assert_eq!(token_of(""), None);
}

#[test]
fn all_entries_one_per_token_in_order() {
    let entries = all_entries();
    assert_eq!(entries.len(), 2);
    assert_eq!(entries[0], (FormattingToken::MetaSep, "<|meta_sep|>"));
    assert_eq!(entries[1], (FormattingToken::MetaEnd, "<|meta_end|>"));
}

#[test]
fn all_entries_is_reproducible() {
    assert_eq!(all_entries(), all_entries());
}

#[test]
fn registry_tokens_contents() {
    let pairs = registry_tokens();
    assert_eq!(pairs.len(), 2);
    assert_eq!(pairs[0], ("FormattingToken::MetaSep", "<|meta_sep|>"));
    assert_eq!(pairs[1], ("FormattingToken::MetaEnd", "<|meta_end|>"));
}

#[test]
fn meta_sep_example_line() {
    assert_eq!(
        meta_sep_example(),
        "FormattingToken::MetaSep => \"<|meta_sep|>\""
    );
}

#[test]
fn str_eq_agrees_with_equality() {
    assert!(str_eq("abc", "abc"));
    assert!(str_eq("", ""));
    assert!(!str_eq("abc", "abd"));
    assert!(!str_eq("abc", "ab"));
    assert!(!str_eq("", "a"));
}
