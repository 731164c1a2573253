use markdown_html::escape::escape_text;

#[test]
fn escapes_markup_characters() {
    assert_eq!(escape_text("a<b>&c"), "a&lt;b&gt;&amp;c");
}

#[test]
fn plain_text_passes_through() {
    assert_eq!(escape_text("hello world"), "hello world");
}

#[test]
fn empty_text_stays_empty() {
    assert_eq!(escape_text(""), "");
}

#[test]
fn repeated_ampersands() {
    assert_eq!(escape_text("&&"), "&amp;&amp;");
}
