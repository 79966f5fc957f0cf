//! Syntax highlighting for the editor's source language: a line tokenizer
//! that marks string literals, heredoc markers, grammar arrows and
//! punctuation.  Colors and fonts are the front end's business; this module
//! decides only which ranges carry which token.

use vstd::prelude::*;

use crate::text::str_chars;

verus! {

/// The kinds of token the highlighter distinguishes.
#[derive(Debug, Clone, Copy, PartialEq, Eq, Structural)]
pub enum Token {
    StringLit,
    Heredoc,
    Operator,
    HighlightOperator,
    RiskyOperator,
    Dot,
    Text,
}

/// One highlighted range of a line: the token spans the character positions
/// `start` up to (excluding) `end`.
#[derive(Debug, Clone, Copy, PartialEq, Eq, Structural)]
pub struct Highlight {
    pub start: usize,
    pub end: usize,
    pub token: Token,
}

/// The views of a highlight list.
pub open spec fn highlight_views(s: Seq<Highlight>) -> Seq<(int, int, Token)> {
    s.map_values(|h: Highlight| (h.start as int, h.end as int, h.token))
}

/// The character at `i`, or NUL beyond either end: the tokenizer looks up to
/// two characters ahead, and a missing character matches nothing.
pub open spec fn char_at(s: Seq<char>, i: int) -> char {
    if 0 <= i < s.len() {
        s[i]
    } else {
        '\0'
    }
}

/// The position just after the quote that closes a string literal whose
/// content starts at `j`, or the end of the line if it never closes.
pub open spec fn quote_end(s: Seq<char>, j: int) -> int
    decreases s.len() - j,
{
    if j < 0 || j >= s.len() {
        s.len() as int
    } else if s[j] == '"' {
        j + 1
    } else {
        quote_end(s, j + 1)
    }
}

pub proof fn lemma_quote_end_bounds(s: Seq<char>, j: int)
    requires
        0 <= j <= s.len(),
    ensures
        j <= quote_end(s, j) <= s.len(),
    decreases s.len() - j,
{
    if j < s.len() && s[j] != '"' {
        lemma_quote_end_bounds(s, j + 1);
    }
}

pub proof fn lemma_quote_end_found(s: Seq<char>, j: int, f: int)
    requires
        0 <= j <= f < s.len(),
        s[f] == '"',
        forall|k: int| j <= k < f ==> s[k] != '"',
    ensures
        quote_end(s, j) == f + 1,
    decreases f - j,
{
    if j < f {
        lemma_quote_end_found(s, j + 1, f);
    }
}

pub proof fn lemma_quote_end_none(s: Seq<char>, j: int)
    requires
        0 <= j <= s.len(),
        forall|k: int| j <= k < s.len() ==> s[k] != '"',
    ensures
        quote_end(s, j) == s.len(),
    decreases s.len() - j,
{
    if j < s.len() {
        lemma_quote_end_none(s, j + 1);
    }
}

/// The tokens of the line from position `i` on.  At each position: a `===`
/// heredoc marker, a `->` arrow, a `-->` grammar arrow, a `:-` rule neck, a
/// quoted string running to its closing quote or the end of the line, one of
/// the punctuation characters, or an uninteresting character that is skipped.
pub open spec fn tokenize(s: Seq<char>, i: int) -> Seq<(int, int, Token)>
    decreases s.len() - i,
    via tokenize_decreases
{
    if i < 0 || i >= s.len() {
        Seq::empty()
    } else {
        let c1 = char_at(s, i);
        let c2 = char_at(s, i + 1);
        let c3 = char_at(s, i + 2);
        if c1 == '=' && c2 == '=' && c3 == '=' {
            seq![(i, i + 3, Token::Heredoc)] + tokenize(s, i + 3)
        } else if c1 == '-' && c2 == '>' {
            seq![(i, i + 2, Token::RiskyOperator)] + tokenize(s, i + 2)
        } else if c1 == '-' && c2 == '-' && c3 == '>' {
            seq![(i, i + 3, Token::HighlightOperator)] + tokenize(s, i + 3)
        } else if c1 == ':' && c2 == '-' {
            seq![(i, i + 2, Token::Operator)] + tokenize(s, i + 2)
        } else if c1 == '"' {
            seq![(i, quote_end(s, i + 1), Token::StringLit)] + tokenize(s, quote_end(s, i + 1))
        } else if c1 == '.' {
            seq![(i, i + 1, Token::Dot)] + tokenize(s, i + 1)
        } else if c1 == ',' || c1 == ';' || c1 == '=' || c1 == '!' {
            seq![(i, i + 1, Token::Operator)] + tokenize(s, i + 1)
        } else {
            tokenize(s, i + 1)
        }
    }
}

#[via_fn]
proof fn tokenize_decreases(s: Seq<char>, i: int) {
    if 0 <= i < s.len() {
        lemma_quote_end_bounds(s, i + 1);
    }
}

/// Marks an operator of the given length at `i` and says where scanning
/// resumes.
pub fn handle_operator(
    i: usize,
    highlights: &mut Vec<Highlight>,
    operator_length: usize,
    token: Token,
) -> (next: usize)
    requires
        i + operator_length <= usize::MAX,
    ensures
        final(highlights)@ == old(highlights)@.push(
            Highlight { start: i, end: (i + operator_length) as usize, token },
        ),
        next == i + operator_length,
{
    let end = i + operator_length;
    highlights.push(Highlight { start: i, end, token });
    end
}

/// Marks one punctuation character at `i`: a full stop is its own token, the
/// rest are plain operators.
pub fn categorize_single_char_token(i: usize, c: char, highlights: &mut Vec<Highlight>) -> (next:
    usize)
    requires
        i < usize::MAX,
        c == '.' || c == ',' || c == ';' || c == '=' || c == '!',
    ensures
        final(highlights)@ == old(highlights)@.push(
            Highlight {
                start: i,
                end: (i + 1) as usize,
                token: if c == '.' {
                    Token::Dot
                } else {
                    Token::Operator
                },
            },
        ),
        next == i + 1,
{
    let token = if c == '.' {
        Token::Dot
    } else {
        Token::Operator
    };
    highlights.push(Highlight { start: i, end: i + 1, token });
    i + 1
}

/// Marks a string literal whose opening quote stands at `i`: it runs to the
/// closing quote, or to the end of the line if it never closes.
pub fn parse_string(line: &Vec<char>, i: usize, highlights: &mut Vec<Highlight>) -> (next: usize)
    requires
        i < line@.len(),
    ensures
        next == quote_end(line@, i + 1),
        i < next <= line@.len(),
        final(highlights)@ == old(highlights)@.push(
            Highlight { start: i, end: next as usize, token: Token::StringLit },
        ),
{
    let n: usize = line.len();
    let mut j: usize = i + 1;
    let mut end: usize = n;
    let mut found: bool = false;
    while j < n && !found
        invariant
            n == line@.len(),
            i + 1 <= j <= n,
            !found ==> end == n && (forall|k: int| i + 1 <= k < j ==> line@[k] != '"'),
            found ==> j < n && line@[j as int] == '"' && end == j + 1 && (forall|k: int|
                i + 1 <= k < j ==> line@[k] != '"'),
        decreases n - j, (if found {
            0int
        } else {
            1int
        }),
    {
        if line[j] == '"' {
            end = j + 1;
            found = true;
        } else {
            j = j + 1;
        }
    }
    proof {
        if found {
            lemma_quote_end_found(line@, i + 1, j as int);
        } else {
            lemma_quote_end_none(line@, i + 1);
        }
    }
    highlights.push(Highlight { start: i, end, token: Token::StringLit });
    end
}

/// The highlighter: it remembers only which line the front end is at.
pub struct PrologHighlighter {
    current_line: usize,
}

impl PrologHighlighter {
    /// The line the highlighter is at.
    pub closed spec fn line_spec(&self) -> usize {
        self.current_line
    }

    /// A fresh highlighter, at the first line.
    pub fn new() -> (r: Self)
        ensures
            r.line_spec() == 0,
    {
        PrologHighlighter { current_line: 0 }
    }

    /// Moves the highlighter to a line.
    pub fn change_line(&mut self, line: usize)
        ensures
            final(self).line_spec() == line,
    {
        self.current_line = line;
    }

    /// The line the highlighter is at.
    pub fn current_line(&self) -> (r: usize)
        ensures
            r == self.line_spec(),
    {
        self.current_line
    }

    /// Tokenizes one line, exactly as `tokenize` describes, by character
    /// position.
    pub fn highlight_line(&mut self, line: &str) -> (r: Vec<Highlight>)
        ensures
            highlight_views(r@) == tokenize(line@, 0),
            final(self).line_spec() == old(self).line_spec(),
    {
        let chars = str_chars(line);
        let n: usize = chars.len();
        let mut highlights: Vec<Highlight> = Vec::new();
        let mut i: usize = 0;
        proof {
            assert(highlight_views(highlights@) + tokenize(chars@, 0) =~= tokenize(chars@, 0));
        }
        while i < n
            invariant
                n == chars@.len(),
                chars@ == line@,
                i <= n,
                tokenize(line@, 0) == highlight_views(highlights@) + tokenize(line@, i as int),
            decreases n - i,
        {
            let c1 = chars[i];
            let c2: char = if i + 1 < n {
                chars[i + 1]
            } else {
                '\0'
            };
            let c3: char = if i + 1 < n - 1 {
                chars[i + 2]
            } else {
                '\0'
            };
            let next: usize = if c1 == '=' && c2 == '=' && c3 == '=' {
                handle_operator(i, &mut highlights, 3, Token::Heredoc)
            } else if c1 == '-' && c2 == '>' {
                handle_operator(i, &mut highlights, 2, Token::RiskyOperator)
            } else if c1 == '-' && c2 == '-' && c3 == '>' {
                handle_operator(i, &mut highlights, 3, Token::HighlightOperator)
            } else if c1 == ':' && c2 == '-' {
                handle_operator(i, &mut highlights, 2, Token::Operator)
            } else if c1 == '"' {
                parse_string(&chars, i, &mut highlights)
            } else if c1 == '.' || c1 == ',' || c1 == ';' || c1 == '=' || c1 == '!' {
                categorize_single_char_token(i, c1, &mut highlights)
            } else {
                i + 1
            };
            proof {
                assert(highlight_views(highlights@) + tokenize(line@, next as int) =~= tokenize(
                    line@,
                    0,
                ));
            }
            i = next;
        }
        highlights
    }
}

} // verus!
