use rustwester::negotiation::{accepts_json, decide, negotiate, NegotiationInput, ServerConfig};
use rustwester::text::{chars_of, contains_text, matches_at};

fn input(flag: bool, accept: Option<&str>) -> NegotiationInput {
    NegotiationInput {
        query_json_flag_present: flag,
        accept_header_value: accept.map(|value| value.to_string()),
    }
}

#[test]
fn json_is_never_chosen_where_it_is_not_allowed() {
    let headers = [
        None,
        Some(""),
        Some("text/html"),
        Some("application/json"),
        Some("application/json, text/html"),
        Some("*/*"),
    ];
    for header in headers {
        for flag in [false, true] {
            assert!(!decide(false, flag, header), "flag {flag}, header {header:?}");
        }
    }
}

#[test]
fn query_flag_forces_json_where_it_is_allowed() {
    let headers = [None, Some(""), Some("text/html"), Some("application/json"), Some("image/png")];
    for header in headers {
        assert!(decide(true, true, header), "header {header:?}");
    }
}

#[test]
fn header_decides_where_the_flag_is_absent() {
    assert!(!decide(true, false, Some("text/html")));
    assert!(decide(true, false, Some("application/json, text/html")));
    assert!(decide(true, false, Some("application/json")));
    assert!(decide(true, false, Some("text/html, application/json;q=0.9")));
    assert!(!decide(true, false, None));
    assert!(!decide(true, false, Some("")));
}

#[test]
fn header_match_is_case_sensitive() {
    assert!(!decide(true, false, Some("Application/JSON")));
    assert!(!decide(true, false, Some("APPLICATION/JSON")));
    assert!(!decide(true, false, Some("application/Json")));
}

#[test]
fn header_match_is_on_raw_text() {
    assert!(decide(true, false, Some("multipart/mixed; boundary=application/json")));
    assert!(decide(true, false, Some("xapplication/jsonx")));
    assert!(decide(true, false, Some("application/json-seq")));
    assert!(!decide(true, false, Some("application/jso")));
    assert!(!decide(true, false, Some("application /json")));
    assert!(!decide(true, false, Some("application/xml, text/json")));
}

#[test]
fn accepts_json_looks_at_the_header_only() {
    assert!(accepts_json(Some("application/json")));
    assert!(!accepts_json(Some("text/html")));
    assert!(!accepts_json(None));
}

#[test]
fn negotiate_reads_configuration_and_request() {
    let allow = ServerConfig { allow_json: true };
    let deny = ServerConfig { allow_json: false };
    assert!(negotiate(&allow, &input(true, None)));
    assert!(negotiate(&allow, &input(false, Some("application/json"))));
    assert!(!negotiate(&allow, &input(false, Some("text/html"))));
    assert!(!negotiate(&allow, &input(false, None)));
    assert!(!negotiate(&deny, &input(true, Some("application/json"))));
    assert!(!negotiate(&deny, &input(true, None)));
    assert!(!negotiate(&deny, &input(false, Some("application/json"))));
}

#[test]
fn contains_text_finds_a_part_wherever_it_stands() {
    assert!(contains_text("abcdef", "abc"));
    assert!(contains_text("abcdef", "cde"));
    assert!(contains_text("abcdef", "def"));
    assert!(contains_text("abcdef", "abcdef"));
    assert!(contains_text("abcdef", "f"));
    assert!(!contains_text("abcdef", "abd"));
    assert!(!contains_text("abcdef", "fa"));
    assert!(!contains_text("abcdef", "abcdefg"));
    assert!(contains_text("aaab", "aab"));
    assert!(!contains_text("aaab", "aba"));
}

#[test]
fn contains_text_handles_empty_texts() {
    assert!(contains_text("abc", ""));
    assert!(contains_text("", ""));
    assert!(!contains_text("", "a"));
}

#[test]
fn contains_text_compares_characters_not_bytes() {
    assert!(contains_text("grüße, wörld", "üße"));
    assert!(contains_text("日本語のテキスト", "のテ"));
    assert!(!contains_text("grüße", "usse"));
    assert!(!contains_text("é", "e"));
}

#[test]
fn contains_text_agrees_with_the_standard_search() {
    let texts = ["", "a", "ab", "aba", "abab", "application/json", "text/html", "é✓é"];
    for hay in texts {
        for pin in texts {
            assert_eq!(contains_text(hay, pin), hay.contains(pin), "{hay:?} / {pin:?}");
        }
    }
}

#[test]
fn chars_of_lists_the_characters() {
    assert_eq!(chars_of(""), Vec::<char>::new());
    assert_eq!(chars_of("abc"), vec!['a', 'b', 'c']);
    assert_eq!(chars_of("\u{e9}\u{2713}"), vec!['\u{e9}', '\u{2713}']);
}

#[test]
fn matches_at_looks_at_one_position() {
    let hay = chars_of("abcabc");
    let pin = chars_of("bc");
    assert!(!matches_at(&hay, &pin, 0));
    assert!(matches_at(&hay, &pin, 1));
    assert!(!matches_at(&hay, &pin, 2));
    assert!(!matches_at(&hay, &pin, 3));
    assert!(matches_at(&hay, &pin, 4));
    assert!(matches_at(&hay, &chars_of(""), 6));
    assert!(matches_at(&hay, &hay, 0));
}
