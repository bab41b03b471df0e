use windows_service::shell_escape::{escape, needs_escape, parse_first_argument};

fn wide(s: &str) -> Vec<u16> {
    s.encode_utf16().collect()
}

fn narrow(units: &[u16]) -> String {
    String::from_utf16(units).unwrap()
}

#[test]
fn test_no_escape() {
    assert_eq!(escape(&wide("--aaa=bbb-ccc")), wide("--aaa=bbb-ccc"));
}

#[test]
fn test_escape_argument_with_spaces() {
    assert_eq!(
        escape(&wide("linker=gcc -L/foo -Wl,bar")),
        wide("\"linker=gcc -L/foo -Wl,bar\"")
    );
}

#[test]
fn test_escape_nested_quotes() {
    assert_eq!(
        escape(&wide("--features=\"default\"")),
        wide("\"--features=\\\"default\\\"\"")
    );
}

// Input:
// child.exe "\some\directory with\spaces\" argument2
//
// Parsed as:
// 0: [child.exe]
// 1: [\some\directory with\spaces" argument2]
#[test]
fn test_escape_trailing_backslash() {
    assert_eq!(
        escape(&wide("\\some\\directory with\\spaces\\")),
        wide("\"\\some\\directory with\\spaces\\\\\"")
    );
}

#[test]
fn test_needs_escape() {
    assert!(!needs_escape(&wide("plain-argument")));
    assert!(needs_escape(&wide("has space")));
    assert!(needs_escape(&wide("has\"quote")));
    assert!(needs_escape(&wide("has\ttab")));
    assert!(!needs_escape(&wide("back\\slash")));
}

#[test]
fn test_quote_then_retokenize_space_and_quote() {
    // An argument with an embedded space and a double quote survives
    // quoting followed by standard command-line re-tokenization exactly.
    let original = wide("say \"hello\" twice");
    let quoted = escape(&original);
    let (argument, rest) = parse_first_argument(&quoted);
    assert_eq!(argument, original);
    assert!(rest.is_empty());
}

#[test]
fn test_quote_then_retokenize_backslashes_before_quote() {
    let original = wide("dir\\\\\"x");
    let quoted = escape(&original);
    let (argument, rest) = parse_first_argument(&quoted);
    assert_eq!(argument, original);
    assert!(rest.is_empty());
}

#[test]
fn test_quote_then_retokenize_trailing_backslashes() {
    let original = wide("C:\\Program Files\\app\\");
    let quoted = escape(&original);
    let (argument, rest) = parse_first_argument(&quoted);
    assert_eq!(argument, original);
    assert!(rest.is_empty());
}

#[test]
fn test_tokenizer_splits_at_space_outside_quotes() {
    let command_line = wide("first-arg second third");
    let (argument, rest) = parse_first_argument(&command_line);
    assert_eq!(narrow(&argument), "first-arg");
    assert_eq!(narrow(&rest), "second third");
}

#[test]
fn test_tokenizer_standard_quote_rules() {
    // 2n backslashes before a quote collapse to n and toggle quote mode;
    // 2n+1 collapse to n with a literal quote.
    let (argument, rest) = parse_first_argument(&wide("a\\\\\"b c\" d"));
    assert_eq!(narrow(&argument), "a\\b c");
    assert_eq!(narrow(&rest), "d");

    let (argument, _) = parse_first_argument(&wide("a\\\"b c"));
    assert_eq!(narrow(&argument), "a\"b");
}
