//! Tests of the line tokenizer.

use pikchr_pl::highlight::{Highlight, PrologHighlighter, Token};

fn tokens_of(line: &str) -> Vec<Highlight> {
    let mut highlighter = PrologHighlighter::new();
    highlighter.highlight_line(line)
}

fn single(start: usize, end: usize, token: Token) -> Highlight {
    Highlight { start, end, token }
}

#[test]
fn a_grammar_rule_gets_arrow_and_dot() {
    let tokens = tokens_of("diagram --> circle.");
    assert_eq!(
        tokens,
        vec![single(8, 11, Token::HighlightOperator), single(18, 19, Token::Dot)]
    );
}

#[test]
fn a_short_arrow_is_marked_risky() {
    assert_eq!(tokens_of("a -> b"), vec![single(2, 4, Token::RiskyOperator)]);
}

#[test]
fn a_rule_neck_is_an_operator() {
    assert_eq!(tokens_of(":- use."), vec![
        single(0, 2, Token::Operator),
        single(6, 7, Token::Dot),
    ]);
}

#[test]
fn a_string_runs_to_its_closing_quote() {
    assert_eq!(tokens_of("x \"ab\" y"), vec![single(2, 6, Token::StringLit)]);
}

#[test]
fn an_unterminated_string_runs_to_the_end_of_the_line() {
    assert_eq!(tokens_of("\"abc"), vec![single(0, 4, Token::StringLit)]);
}

#[test]
fn heredoc_markers_are_their_own_token() {
    assert_eq!(tokens_of("===x==="), vec![
        single(0, 3, Token::Heredoc),
        single(4, 7, Token::Heredoc),
    ]);
}

#[test]
fn punctuation_is_tokenized_one_character_at_a_time() {
    assert_eq!(tokens_of("a=b;c,d!"), vec![
        single(1, 2, Token::Operator),
        single(3, 4, Token::Operator),
        single(5, 6, Token::Operator),
        single(7, 8, Token::Operator),
    ]);
}

#[test]
fn plain_text_yields_no_tokens() {
    assert_eq!(tokens_of("diagram"), Vec::new());
}

#[test]
fn the_highlighter_remembers_its_line() {
    let mut highlighter = PrologHighlighter::new();
    assert_eq!(highlighter.current_line(), 0);
    highlighter.change_line(17);
    assert_eq!(highlighter.current_line(), 17);
}
