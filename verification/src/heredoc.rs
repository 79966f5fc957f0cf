//! The heredoc shorthand of the editor's source language: text between a
//! pair of `===` markers is turned into a quoted, debug-escaped string
//! literal, so prose can be written without manual escaping.

use vstd::prelude::*;

use crate::text::{chars_to_string, find_pat_from, match_at, slice_chars, str_chars};

verus! {

/// The debug-escaped form of a text, as the standard library writes it:
/// quotes and backslashes escaped, common control characters as their named
/// escapes, other unprintable characters as `\u{..}` escapes.  A function
/// of the text alone; its definition is `str::escape_debug`'s.
pub uninterp spec fn debug_escaped(s: Seq<char>) -> Seq<char>;

/// Relies on `str::escape_debug`: the debug-escaped form of the text.
#[verifier::external_body]
fn escape_debug_text(s: &str) -> (r: String)
    ensures
        r@ == debug_escaped(s@),
{
    s.escape_debug().collect()
}

/// The position of the first `===` marker, or -1 if there is none.
pub open spec fn marker_break(s: Seq<char>) -> int
    decreases s.len(),
{
    if s.len() < 3 {
        -1
    } else if match_at(s, "==="@, 0) {
        0
    } else if marker_break(s.subrange(1, s.len() as int)) < 0 {
        -1
    } else {
        1 + marker_break(s.subrange(1, s.len() as int))
    }
}

pub proof fn lemma_marker_break(s: Seq<char>)
    ensures
        marker_break(s) < 0 ==> forall|j: int| !match_at(s, "==="@, j),
        marker_break(s) >= 0 ==> {
            &&& match_at(s, "==="@, marker_break(s))
            &&& marker_break(s) + "==="@.len() <= s.len()
            &&& forall|j: int| 0 <= j < marker_break(s) ==> !match_at(s, "==="@, j)
        },
    decreases s.len(),
{
    reveal_strlit("===");
    if s.len() < 3 {
        assert forall|j: int| !match_at(s, "==="@, j) by {}
    } else if match_at(s, "==="@, 0) {
    } else {
        let tail = s.subrange(1, s.len() as int);
        lemma_marker_break(tail);
        assert forall|j: int| 1 <= j implies match_at(s, "==="@, j) == match_at(
            tail,
            "==="@,
            j - 1,
        ) by {
            if 0 <= j - 1 && j - 1 + 3 <= tail.len() {
                assert(tail.subrange(j - 1, j + 2) =~= s.subrange(j, j + 3));
            }
        }
        if marker_break(tail) < 0 {
            assert forall|j: int| !match_at(s, "==="@, j) by {
                if j >= 1 {
                    assert(!match_at(tail, "==="@, j - 1));
                }
            }
        }
    }
}

/// The text split at every `===` marker, in order.
pub open spec fn split_heredoc(s: Seq<char>) -> Seq<Seq<char>>
    decreases s.len(),
    via split_heredoc_decreases
{
    let b = marker_break(s);
    if b < 0 {
        seq![s]
    } else {
        seq![s.subrange(0, b)] + split_heredoc(s.subrange(b + 3, s.len() as int))
    }
}

#[via_fn]
proof fn split_heredoc_decreases(s: Seq<char>) {
    lemma_marker_break(s);
    reveal_strlit("===");
}

/// The transformed text, rebuilt from the parts at `i` onward: the part
/// before the first marker and every part between a closing and an opening
/// marker verbatim, every part between a pair of markers quoted and
/// debug-escaped.
pub open spec fn rebuild_heredoc(parts: Seq<Seq<char>>, i: int) -> Seq<char>
    decreases parts.len() - i,
{
    if i < 0 || i >= parts.len() {
        Seq::empty()
    } else {
        let piece = if i % 2 == 1 {
            seq!['"'] + debug_escaped(parts[i]) + seq!['"']
        } else {
            parts[i]
        };
        piece + rebuild_heredoc(parts, i + 1)
    }
}

/// What the heredoc transformation produces for a whole buffer.
pub open spec fn transform_spec(s: Seq<char>) -> Seq<char> {
    rebuild_heredoc(split_heredoc(s), 0)
}

/// Rewrites every `===`-delimited block of the input into a quoted,
/// debug-escaped string literal, exactly as `transform_spec` describes.
pub fn transform_heredoc(input: &str) -> (r: String)
    ensures
        r@ == transform_spec(input@),
{
    let chars = str_chars(input);
    let n: usize = chars.len();
    let marker = str_chars("===");
    proof {
        reveal_strlit("===");
        assert(marker@ =~= "==="@);
    }
    // Split at every marker.
    let mut parts: Vec<Vec<char>> = Vec::new();
    let mut pos: usize = 0;
    let mut done: bool = false;
    proof {
        assert(chars@.subrange(0, n as int) =~= chars@);
        assert(parts@.map_values(|p: Vec<char>| p@) + split_heredoc(chars@) =~= split_heredoc(
            chars@,
        ));
    }
    while !done
        invariant
            n == chars@.len(),
            marker@ == "==="@,
            pos <= n,
            !done ==> split_heredoc(chars@) == parts@.map_values(|p: Vec<char>| p@)
                + split_heredoc(chars@.subrange(pos as int, n as int)),
            done ==> split_heredoc(chars@) == parts@.map_values(|p: Vec<char>| p@),
        decreases n - pos, (if done {
            0int
        } else {
            1int
        }),
    {
        let ghost suffix = chars@.subrange(pos as int, n as int);
        proof {
            reveal_strlit("===");
            assert(marker@.len() == 3);
            lemma_marker_break(suffix);
        }
        match find_pat_from(&chars, &marker, pos) {
            Some(i) => {
                proof {
                    assert(marker_break(suffix) == i - pos) by {
                        assert(match_at(chars@, "==="@, i as int));
                        reveal_strlit("===");
                        assert(match_at(suffix, "==="@, i - pos)) by {
                            assert(suffix.subrange(i - pos, i - pos + 3) =~= chars@.subrange(
                                i as int,
                                i + 3,
                            ));
                        }
                        if marker_break(suffix) < i - pos {
                            let mb = marker_break(suffix);
                            assert(match_at(suffix, "==="@, mb));
                            assert(match_at(chars@, "==="@, pos + mb)) by {
                                assert(chars@.subrange(pos + mb, pos + mb + 3) =~= suffix.subrange(
                                    mb,
                                    mb + 3,
                                ));
                            }
                        }
                        if marker_break(suffix) > i - pos {
                            assert(!match_at(suffix, "==="@, i - pos));
                        }
                    }
                }
                let part = slice_chars(&chars, pos, i);
                proof {
                    assert(part@ =~= suffix.subrange(0, marker_break(suffix)));
                    assert(chars@.subrange(i + 3, n as int) =~= suffix.subrange(
                        marker_break(suffix) + 3,
                        suffix.len() as int,
                    ));
                }
                parts.push(part);
                pos = i + 3;
                proof {
                    assert(parts@.map_values(|p: Vec<char>| p@) =~= parts@.drop_last().map_values(
                        |p: Vec<char>| p@,
                    ).push(parts@.last()@));
                    assert(split_heredoc(chars@) =~= parts@.map_values(|p: Vec<char>| p@)
                        + split_heredoc(chars@.subrange(pos as int, n as int)));
                }
            },
            None => {
                proof {
                    assert(marker_break(suffix) < 0) by {
                        if marker_break(suffix) >= 0 {
                            let mb = marker_break(suffix);
                            assert(match_at(suffix, "==="@, mb));
                            assert(match_at(chars@, "==="@, pos + mb)) by {
                                assert(chars@.subrange(pos + mb, pos + mb + 3) =~= suffix.subrange(
                                    mb,
                                    mb + 3,
                                ));
                            }
                        }
                    }
                }
                let part = slice_chars(&chars, pos, n);
                proof {
                    assert(part@ =~= suffix);
                }
                parts.push(part);
                done = true;
                proof {
                    assert(split_heredoc(suffix) =~= seq![suffix]);
                    assert(parts@.map_values(|p: Vec<char>| p@) =~= parts@.drop_last().map_values(
                        |p: Vec<char>| p@,
                    ).push(parts@.last()@));
                    assert(split_heredoc(chars@) =~= parts@.map_values(|p: Vec<char>| p@));
                }
            },
        }
    }
    // Rebuild, quoting and escaping every odd-numbered part.
    let ghost pv = parts@.map_values(|p: Vec<char>| p@);
    let mut out: Vec<char> = Vec::new();
    let mut idx: usize = 0;
    proof {
        assert(out@ + rebuild_heredoc(pv, 0) =~= rebuild_heredoc(pv, 0));
    }
    while idx < parts.len()
        invariant
            pv == parts@.map_values(|p: Vec<char>| p@),
            idx <= parts@.len(),
            rebuild_heredoc(pv, 0) == out@ + rebuild_heredoc(pv, idx as int),
        decreases parts@.len() - idx,
    {
        let ghost out0 = out@;
        let part = &parts[idx];
        if idx % 2 == 1 {
            out.push('"');
            let part_text = chars_to_string(part);
            let escaped = escape_debug_text(part_text.as_str());
            let esc = str_chars(escaped.as_str());
            let mut j: usize = 0;
            while j < esc.len()
                invariant
                    0 <= idx < pv.len(),
                    esc@ == debug_escaped(pv[idx as int]),
                    j <= esc@.len(),
                    out@ == out0 + seq!['"'] + esc@.subrange(0, j as int),
                decreases esc@.len() - j,
            {
                out.push(esc[j]);
                j = j + 1;
                proof {
                    assert(out@ =~= out0 + seq!['"'] + esc@.subrange(0, j as int));
                }
            }
            out.push('"');
            proof {
                assert(esc@.subrange(0, esc@.len() as int) =~= esc@);
                assert(out@ =~= out0 + (seq!['"'] + debug_escaped(pv[idx as int]) + seq!['"']));
            }
        } else {
            let mut j: usize = 0;
            while j < part.len()
                invariant
                    0 <= idx < pv.len(),
                    part@ == pv[idx as int],
                    j <= part@.len(),
                    out@ == out0 + part@.subrange(0, j as int),
                decreases part@.len() - j,
            {
                out.push(part[j]);
                j = j + 1;
                proof {
                    assert(out@ =~= out0 + part@.subrange(0, j as int));
                }
            }
            proof {
                assert(part@.subrange(0, part@.len() as int) =~= part@);
                assert(out@ =~= out0 + pv[idx as int]);
            }
        }
        idx = idx + 1;
        proof {
            assert(rebuild_heredoc(pv, 0) =~= out@ + rebuild_heredoc(pv, idx as int));
        }
    }
    proof {
        assert(rebuild_heredoc(pv, parts@.len() as int) =~= Seq::<char>::empty());
        assert(out@ =~= rebuild_heredoc(pv, 0));
        assert(out@ =~= transform_spec(input@));
    }
    chars_to_string(&out)
}

} // verus!
