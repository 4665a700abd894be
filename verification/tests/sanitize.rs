use fednote::sanitize::{filter_slurs, normalize, render};

#[test]
fn test_html_to_markdown_sanitize() {
    let parsed = normalize("<script></script><b>hello</b>");
    assert_eq!(parsed, "**hello**");
}

#[test]
fn test_render_escapes_and_strong() {
    let html = render("**hi** & <b>");
    assert_eq!(html, "<strong>hi</strong> &amp; &lt;b&gt;");
}

#[test]
fn test_render_closes_dangling_strong() {
    let html = render("**open");
    assert_eq!(html, "<strong>open</strong>");
}

#[test]
fn test_render_plain_passthrough() {
    let html = render("plain text, one * star");
    assert_eq!(html, "plain text, one * star");
}

#[test]
fn test_filter_slurs_redacts_each_occurrence() {
    let out = filter_slurs("what the heck, heck!", "heck");
    assert_eq!(out, "what the *removed*, *removed*!");
}

#[test]
fn test_filter_slurs_empty_pattern_is_identity() {
    let out = filter_slurs("anything at all", "");
    assert_eq!(out, "anything at all");
}

#[test]
fn test_filter_slurs_no_match() {
    let out = filter_slurs("polite text", "heck");
    assert_eq!(out, "polite text");
}
