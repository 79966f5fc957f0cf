//! Trailing-window truncation of display text: keeping only the last lines
//! and last characters of long error output, so the display stays compact.

use vstd::prelude::*;

use crate::text::{chars_to_string, find_pat_from, match_at, slice_chars, str_chars, string_push};

verus! {

/// One line with a trailing carriage return stripped.
pub open spec fn strip_cr(line: Seq<char>) -> Seq<char> {
    if line.len() > 0 && line.last() == '\r' {
        line.drop_last()
    } else {
        line
    }
}

/// The position of the first line feed, or the length if there is none.
pub open spec fn line_break(s: Seq<char>) -> int
    decreases s.len(),
{
    if s.len() == 0 {
        0
    } else if s[0] == '\n' {
        0
    } else {
        1 + line_break(s.subrange(1, s.len() as int))
    }
}

pub proof fn lemma_line_break(s: Seq<char>)
    ensures
        0 <= line_break(s) <= s.len(),
        forall|j: int| 0 <= j < line_break(s) ==> s[j] != '\n',
        line_break(s) < s.len() ==> s[line_break(s)] == '\n',
    decreases s.len(),
{
    if s.len() > 0 && s[0] != '\n' {
        lemma_line_break(s.subrange(1, s.len() as int));
        assert forall|j: int| 0 <= j < line_break(s) implies s[j] != '\n' by {
            if j > 0 {
                assert(s.subrange(1, s.len() as int)[j - 1] == s[j]);
            }
        }
        if line_break(s) < s.len() {
            assert(s.subrange(1, s.len() as int)[line_break(s) - 1] == s[line_break(s)]);
        }
    }
}

/// The lines of `s`: split at line feeds, each line's trailing carriage
/// return stripped, and no empty line after a final line feed.
pub open spec fn split_lines(s: Seq<char>) -> Seq<Seq<char>>
    decreases s.len(),
{
    if s.len() == 0 {
        Seq::empty()
    } else if line_break(s) == s.len() {
        seq![strip_cr(s)]
    } else if 0 <= line_break(s) < s.len() {
        seq![strip_cr(s.subrange(0, line_break(s)))] + split_lines(
            s.subrange(line_break(s) + 1, s.len() as int),
        )
    } else {
        Seq::empty()
    }
}

/// Lines joined by a line feed between consecutive lines.
pub open spec fn join_lines(lines: Seq<Seq<char>>) -> Seq<char>
    decreases lines.len(),
{
    if lines.len() == 0 {
        Seq::empty()
    } else if lines.len() == 1 {
        lines[0]
    } else {
        join_lines(lines.drop_last()) + seq!['\n'] + lines.last()
    }
}

/// The last `k` elements, or all of them if there are fewer.
pub open spec fn last_part<A>(xs: Seq<A>, k: int) -> Seq<A> {
    if k >= xs.len() {
        xs
    } else {
        xs.subrange(xs.len() - k, xs.len() as int)
    }
}

/// Splits text into its lines, as `split_lines` describes.
pub fn lines_of(v: &Vec<char>) -> (r: Vec<Vec<char>>)
    ensures
        r@.map_values(|l: Vec<char>| l@) == split_lines(v@),
{
    let n: usize = v.len();
    let newline = str_chars("\n");
    proof {
        reveal_strlit("\n");
        assert(newline@ =~= seq!['\n']);
    }
    let mut lines: Vec<Vec<char>> = Vec::new();
    let mut pos: usize = 0;
    proof {
        assert(v@.subrange(0, n as int) =~= v@);
        assert(lines@.map_values(|l: Vec<char>| l@) + split_lines(v@) =~= split_lines(v@));
    }
    while pos < n
        invariant
            n == v@.len(),
            newline@ == seq!['\n'],
            pos <= n,
            split_lines(v@) == lines@.map_values(|l: Vec<char>| l@) + split_lines(
                v@.subrange(pos as int, n as int),
            ),
        decreases n - pos,
    {
        let ghost suffix = v@.subrange(pos as int, n as int);
        proof {
            lemma_line_break(suffix);
        }
        let (line_end, next_pos): (usize, usize) = match find_pat_from(v, &newline, pos) {
            Some(i) => {
                proof {
                    assert(match_at(v@, seq!['\n'], i as int));
                    assert(seq!['\n'].len() == 1);
                    assert(v@.subrange(i as int, i + 1) == seq!['\n']);
                    assert(v@[i as int] == v@.subrange(i as int, i + 1)[0]);
                    assert(line_break(suffix) == i - pos) by {
                        if line_break(suffix) < i - pos {
                            let lb = line_break(suffix);
                            assert(suffix[lb] == '\n');
                            assert(v@[pos + lb] == '\n');
                            assert(match_at(v@, seq!['\n'], pos + lb)) by {
                                assert(v@.subrange(pos + lb, pos + lb + 1) =~= seq!['\n']);
                            }
                        }
                        if line_break(suffix) > i - pos {
                            assert(suffix[i - pos] == v@[i as int]);
                        }
                    }
                }
                (i, i + 1)
            },
            None => {
                proof {
                    assert(line_break(suffix) == suffix.len()) by {
                        if line_break(suffix) < suffix.len() {
                            let lb = line_break(suffix);
                            assert(suffix[lb] == '\n');
                            assert(v@[pos + lb] == '\n');
                            assert(match_at(v@, seq!['\n'], pos + lb)) by {
                                assert(v@.subrange(pos + lb, pos + lb + 1) =~= seq!['\n']);
                            }
                        }
                    }
                }
                (n, n)
            },
        };
        let mut line = slice_chars(v, pos, line_end);
        if line.len() > 0 && line[line.len() - 1] == '\r' {
            let _ = line.pop();
        }
        proof {
            assert(line@ =~= strip_cr(v@.subrange(pos as int, line_end as int)));
            if line_end < n {
                assert(suffix.subrange(0, line_break(suffix)) =~= v@.subrange(
                    pos as int,
                    line_end as int,
                ));
                assert(suffix.subrange(line_break(suffix) + 1, suffix.len() as int) =~= v@.subrange(
                    next_pos as int,
                    n as int,
                ));
            } else {
                assert(suffix =~= v@.subrange(pos as int, line_end as int));
                assert(v@.subrange(next_pos as int, n as int) =~= Seq::<char>::empty());
            }
        }
        lines.push(line);
        pos = next_pos;
        proof {
            assert(lines@.map_values(|l: Vec<char>| l@) =~= lines@.drop_last().map_values(
                |l: Vec<char>| l@,
            ).push(lines@.last()@));
            assert(split_lines(v@) =~= lines@.map_values(|l: Vec<char>| l@) + split_lines(
                v@.subrange(pos as int, n as int),
            ));
        }
    }
    proof {
        assert(v@.subrange(pos as int, n as int) =~= Seq::<char>::empty());
        assert(split_lines(v@) =~= lines@.map_values(|l: Vec<char>| l@));
    }
    lines
}

/// The trailing window kept of long error text before display: at most the
/// last 500 characters, and of those at most the last 5 lines.
pub fn truncate_error_display(s: String) -> (r: String)
    ensures
        r@ == join_lines(last_part(split_lines(last_part(s@, 500)), 5)),
{
    s.trim_last_chars(500).trim_last_lines(5)
}

/// Trailing-window truncation on a text value.
pub trait StringExt: Sized {
    /// The text the value holds.
    spec fn text_view(&self) -> Seq<char>;

    /// Keeps only the last `lines` lines, joined by line feeds.
    fn trim_last_lines(self, lines: usize) -> (r: Self)
        ensures
            r.text_view() == join_lines(last_part(split_lines(self.text_view()), lines as int)),
    ;

    /// Keeps only the last `chars` characters.
    fn trim_last_chars(self, chars: usize) -> (r: Self)
        ensures
            r.text_view() == last_part(self.text_view(), chars as int),
    ;
}

impl StringExt for String {
    open spec fn text_view(&self) -> Seq<char> {
        self@
    }

    fn trim_last_lines(self, lines: usize) -> (r: Self) {
        let chars = str_chars(self.as_str());
        let all_lines = lines_of(&chars);
        let ghost line_views = all_lines@.map_values(|l: Vec<char>| l@);
        let count: usize = all_lines.len();
        let start: usize = if lines >= count {
            0
        } else {
            count - lines
        };
        let ghost wanted = last_part(line_views, lines as int);
        proof {
            assert(wanted =~= line_views.subrange(start as int, count as int));
        }
        let mut r = String::new();
        let mut k: usize = start;
        while k < count
            invariant
                line_views == all_lines@.map_values(|l: Vec<char>| l@),
                count == all_lines@.len(),
                wanted == line_views.subrange(start as int, count as int),
                start <= k <= count,
                r@ == join_lines(line_views.subrange(start as int, k as int)),
            decreases count - k,
        {
            proof {
                assert(line_views.subrange(start as int, k + 1).drop_last() =~= line_views.subrange(
                    start as int,
                    k as int,
                ));
                assert(line_views.subrange(start as int, k + 1).last() == line_views[k as int]);
            }
            if k > start {
                string_push(&mut r, '\n');
            }
            let part = chars_to_string(&all_lines[k]);
            r.append(part.as_str());
            k = k + 1;
            proof {
                assert(r@ =~= join_lines(line_views.subrange(start as int, k as int)));
            }
        }
        r
    }

    fn trim_last_chars(self, chars: usize) -> (r: Self) {
        let all = str_chars(self.as_str());
        let count: usize = all.len();
        let start: usize = if chars >= count {
            0
        } else {
            count - chars
        };
        let kept = slice_chars(&all, start, count);
        let r = chars_to_string(&kept);
        proof {
            assert(r@ =~= last_part(self@, chars as int));
        }
        r
    }
}

} // verus!
