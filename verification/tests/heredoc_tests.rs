//! Tests of the heredoc-to-string-literal transformation.

use pikchr_pl::heredoc::transform_heredoc;

#[test]
fn text_without_markers_is_unchanged() {
    assert_eq!(transform_heredoc("diagram --> circle."), "diagram --> circle.");
    assert_eq!(transform_heredoc(""), "");
}

#[test]
fn a_marker_pair_becomes_a_quoted_literal() {
    assert_eq!(transform_heredoc("a===hello===b"), "a\"hello\"b");
}

#[test]
fn quotes_and_control_characters_are_escaped() {
    assert_eq!(
        transform_heredoc("text(===say \"hi\"\nnow===)."),
        "text(\"say \\\"hi\\\"\\nnow\")."
    );
}

#[test]
fn backslashes_and_tabs_are_escaped() {
    assert_eq!(transform_heredoc("===a\\b\tc==="), "\"a\\\\b\\tc\"");
}

#[test]
fn apostrophes_are_escaped_in_literals() {
    assert_eq!(transform_heredoc("===it's==="), "\"it\\'s\"");
}

#[test]
fn unprintable_characters_become_unicode_escapes() {
    assert_eq!(transform_heredoc("===a\u{1}b==="), "\"a\\u{1}b\"");
}

#[test]
fn an_unclosed_marker_quotes_the_rest() {
    assert_eq!(transform_heredoc("a===rest"), "a\"rest\"");
}

#[test]
fn text_between_two_blocks_stays_verbatim() {
    assert_eq!(
        transform_heredoc("x===one===, ===two===."),
        "x\"one\", \"two\"."
    );
}

#[test]
fn markers_straight_after_one_another_give_an_empty_literal() {
    assert_eq!(transform_heredoc("a======b"), "a\"\"b");
}
