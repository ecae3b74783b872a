use dfraw_json_parser::tokens::scan_line;

fn pairs(line: &str) -> Vec<(String, String)> {
    scan_line(line).into_iter().map(|t| (t.key, t.value)).collect()
}

#[test]
fn finds_each_token_on_a_line() {
    assert_eq!(
        pairs("[NAME:fred][AGE:3]"),
        vec![
            ("NAME".to_string(), "fred".to_string()),
            ("AGE".to_string(), "3".to_string())
        ]
    );
}

#[test]
fn unbalanced_bracket_gives_no_token() {
    assert!(pairs("[NAME:fred").is_empty());
}

#[test]
fn flag_token_has_empty_value() {
    assert_eq!(pairs("  [FLIER]  "), vec![("FLIER".to_string(), String::new())]);
}

#[test]
fn value_keeps_inner_colons() {
    assert_eq!(
        pairs("[BODY_SIZE:0:0:1000]"),
        vec![("BODY_SIZE".to_string(), "0:0:1000".to_string())]
    );
}

#[test]
fn nested_bracket_skips_outer_token() {
    assert_eq!(pairs("[A:[B]]"), vec![("B".to_string(), String::new())]);
}

#[test]
fn empty_key_is_not_a_token() {
    assert!(pairs("[][:x]").is_empty());
}

#[test]
fn text_between_tokens_is_ignored() {
    assert_eq!(
        pairs("comment [CASTE:FEMALE] more text [FEMALE]"),
        vec![
            ("CASTE".to_string(), "FEMALE".to_string()),
            ("FEMALE".to_string(), String::new())
        ]
    );
}
