use snowfall_core::parse_text;

fn pieces(s: &str) -> Vec<(String, Option<String>)> {
    parse_text(s).into_iter().map(|f| (f.text, f.tag)).collect()
}

fn plain(t: &str) -> (String, Option<String>) {
    (t.to_string(), None)
}

fn span(t: &str, tag: &str) -> (String, Option<String>) {
    (t.to_string(), Some(tag.to_string()))
}

fn rejoin(s: &str) -> String {
    parse_text(s)
        .into_iter()
        .map(|f| match f.tag {
            None => f.text,
            Some(t) => format!("[{}]({})", f.text, t),
        })
        .collect()
}

#[test]
fn nested_brackets_stay_in_text() {
    assert_eq!(pieces("[a[b]c](key)"), vec![span("a[b]c", "key")]);
}

#[test]
fn unmatched_open_bracket_is_literal() {
    assert_eq!(pieces("text [open"), vec![plain("text "), plain("[open")]);
    assert_eq!(rejoin("text [open"), "text [open");
}

#[test]
fn bracket_without_tag_falls_back() {
    assert_eq!(pieces("[x] rest"), vec![plain("["), plain("x] rest")]);
    assert_eq!(rejoin("[x] rest"), "[x] rest");
}

#[test]
fn spans_between_plain_text() {
    assert_eq!(
        pieces("a [b](red) c [d](#fff)"),
        vec![plain("a "), span("b", "red"), plain(" c "), span("d", "#fff")]
    );
}

#[test]
fn unclosed_tag_falls_back() {
    assert_eq!(pieces("[x](red"), vec![plain("["), plain("x](red")]);
    assert_eq!(pieces("[x](y)(z)"), vec![span("x", "y"), plain("(z)")]);
    assert_eq!(pieces("[](t)"), vec![span("", "t")]);
}

#[test]
fn empty_and_plain_inputs() {
    assert_eq!(pieces(""), vec![]);
    assert_eq!(pieces("hello"), vec![plain("hello")]);
    assert_eq!(pieces("]"), vec![plain("]")]);
}

#[test]
fn round_trip_on_mixed_input() {
    for s in ["[a](b) [c]d [[e]](f) g)(h [", "[x][y](z)", "((]]][", "é[ü](ß)ñ"] {
        assert_eq!(rejoin(s), s);
    }
}
