use backend::bearer::{bearer_header, extract_bearer};
use backend::text::{char_is_space, is_blank, same_text};

#[test]
fn a_bearer_header_yields_its_credential() {
    assert_eq!(extract_bearer(Some("Bearer T1")), Some("T1".to_string()));
}

#[test]
fn a_request_without_header_has_no_credential() {
    assert_eq!(extract_bearer(None), None);
}

#[test]
fn other_schemes_have_no_credential() {
    assert_eq!(extract_bearer(Some("Basic dXNlcg==")), None);
    assert_eq!(extract_bearer(Some("T1")), None);
    assert_eq!(extract_bearer(Some("")), None);
}

#[test]
fn the_scheme_is_case_sensitive() {
    assert_eq!(extract_bearer(Some("bearer T1")), None);
    assert_eq!(extract_bearer(Some("BEARER T1")), None);
}

#[test]
fn the_scheme_needs_its_blank() {
    assert_eq!(extract_bearer(Some("Bearer")), None);
    assert_eq!(extract_bearer(Some("BearerT1")), None);
}

#[test]
fn the_scheme_alone_yields_an_empty_credential() {
    assert_eq!(extract_bearer(Some("Bearer ")), Some(String::new()));
}

#[test]
fn the_scheme_is_taken_off_once() {
    assert_eq!(extract_bearer(Some("Bearer Bearer T1")), Some("Bearer T1".to_string()));
    assert_eq!(extract_bearer(Some("Bearer Bearer Bearer ")), Some("Bearer Bearer ".to_string()));
    assert_eq!(extract_bearer(Some("Bearer Bearer")), Some("Bearer".to_string()));
}

#[test]
fn only_the_front_is_taken_off() {
    assert_eq!(extract_bearer(Some("Bearer a Bearer b")), Some("a Bearer b".to_string()));
    assert_eq!(extract_bearer(Some("Bearer  T1")), Some(" T1".to_string()));
}

#[test]
fn credentials_beyond_ascii_come_out_whole() {
    assert_eq!(extract_bearer(Some("Bearer \u{00e9}\u{4e2d}x")), Some("\u{00e9}\u{4e2d}x".to_string()));
}

#[test]
fn bearer_header_puts_the_scheme_in_front() {
    assert_eq!(bearer_header("T3"), "Bearer T3");
    assert_eq!(extract_bearer(Some(&bearer_header("T3"))), Some("T3".to_string()));
    assert_eq!(bearer_header("Bearer T3"), "Bearer Bearer T3");
    assert_eq!(extract_bearer(Some(&bearer_header("Bearer T3"))), Some("Bearer T3".to_string()));
}

#[test]
fn same_text_compares_character_for_character() {
    assert!(same_text("abc", "abc"));
    assert!(!same_text("abc", "abd"));
    assert!(!same_text("abc", "ab"));
    assert!(same_text("", ""));
}

#[test]
fn blank_is_what_trim_leaves_empty() {
    for text in ["", " ", "\t\n\r", "\u{00a0}", "\u{2003}\u{3000}", " a ", "a", "\u{200b}", "\u{1680}\u{2028}\u{2029}\u{202f}\u{205f}\u{0085}\u{000b}\u{000c}"] {
        assert_eq!(is_blank(text), text.trim().is_empty());
    }
}

#[test]
fn white_space_is_what_the_standard_library_calls_so() {
    let mut code: u32 = 0;
    while code < 0x3100 {
        if let Some(c) = char::from_u32(code) {
            assert_eq!(char_is_space(c), c.is_whitespace());
        }
        code += 1;
    }
}
