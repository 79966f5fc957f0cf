//! Character-level text utilities shared by the protocol and editor modules.
//!
//! All searching and trimming is done over `Vec<char>`, whose view is the same
//! `Seq<char>` that `str` and `String` views use, so contracts compose across
//! the string-typed public API.

use vstd::prelude::*;

verus! {

/// `pat` occurs in `s` starting at position `i`.
pub open spec fn match_at(s: Seq<char>, pat: Seq<char>, i: int) -> bool {
    0 <= i && i + pat.len() <= s.len() && s.subrange(i, i + pat.len() as int) == pat
}

/// `pat` occurs somewhere in `s`.
pub open spec fn contains_pat(s: Seq<char>, pat: Seq<char>) -> bool {
    exists|i: int| match_at(s, pat, i)
}

/// `i` is the first position at which `pat` occurs in `s`.
pub open spec fn first_match_at(s: Seq<char>, pat: Seq<char>, i: int) -> bool {
    match_at(s, pat, i) && forall|j: int| 0 <= j < i ==> !match_at(s, pat, j)
}

/// `pat` is a prefix of `s`.
pub open spec fn starts_with(s: Seq<char>, pat: Seq<char>) -> bool {
    pat.len() <= s.len() && s.subrange(0, pat.len() as int) == pat
}

/// The whitespace characters recognized when trimming and counting
/// indentation: the code points of Unicode's White_Space property, the set
/// `char::is_whitespace` recognizes.
pub open spec fn is_space_char(c: char) -> bool {
    let u = c as u32;
    ||| u == 0x20
    ||| (0x09 <= u && u <= 0x0D)
    ||| u == 0x85
    ||| u == 0xA0
    ||| u == 0x1680
    ||| (0x2000 <= u && u <= 0x200A)
    ||| u == 0x2028
    ||| u == 0x2029
    ||| u == 0x202F
    ||| u == 0x205F
    ||| u == 0x3000
}

/// Number of whitespace characters at the front of `s`.
pub open spec fn leading_spaces(s: Seq<char>) -> int
    decreases s.len(),
{
    if s.len() == 0 {
        0
    } else if is_space_char(s[0]) {
        1 + leading_spaces(s.subrange(1, s.len() as int))
    } else {
        0
    }
}

/// Number of whitespace characters at the back of `s`.
pub open spec fn trailing_spaces(s: Seq<char>) -> int
    decreases s.len(),
{
    if s.len() == 0 {
        0
    } else if is_space_char(s[s.len() - 1]) {
        1 + trailing_spaces(s.subrange(0, s.len() - 1))
    } else {
        0
    }
}

/// `s` with leading and trailing whitespace removed.
pub open spec fn trim_seq(s: Seq<char>) -> Seq<char> {
    if leading_spaces(s) == s.len() {
        Seq::empty()
    } else {
        s.subrange(leading_spaces(s), s.len() - trailing_spaces(s))
    }
}

pub proof fn lemma_leading_spaces_bounds(s: Seq<char>)
    ensures
        0 <= leading_spaces(s) <= s.len(),
        forall|i: int| 0 <= i < leading_spaces(s) ==> is_space_char(s[i]),
        leading_spaces(s) < s.len() ==> !is_space_char(s[leading_spaces(s)]),
    decreases s.len(),
{
    if s.len() > 0 && is_space_char(s[0]) {
        lemma_leading_spaces_bounds(s.subrange(1, s.len() as int));
        assert forall|i: int| 0 <= i < leading_spaces(s) implies is_space_char(s[i]) by {
            if i > 0 {
                assert(s.subrange(1, s.len() as int)[i - 1] == s[i]);
            }
        }
        if leading_spaces(s) < s.len() {
            assert(s.subrange(1, s.len() as int)[leading_spaces(s) - 1] == s[leading_spaces(s)]);
        }
    }
}

pub proof fn lemma_trailing_spaces_bounds(s: Seq<char>)
    ensures
        0 <= trailing_spaces(s) <= s.len(),
        forall|i: int| s.len() - trailing_spaces(s) <= i < s.len() ==> is_space_char(s[i]),
        trailing_spaces(s) < s.len() ==> !is_space_char(s[s.len() - 1 - trailing_spaces(s)]),
    decreases s.len(),
{
    if s.len() > 0 && is_space_char(s[s.len() - 1]) {
        lemma_trailing_spaces_bounds(s.subrange(0, s.len() - 1));
        assert forall|i: int| s.len() - trailing_spaces(s) <= i < s.len() implies is_space_char(
            s[i],
        ) by {
            if i < s.len() - 1 {
                assert(s.subrange(0, s.len() - 1)[i] == s[i]);
            }
        }
        if trailing_spaces(s) < s.len() {
            assert(s.subrange(0, s.len() - 1)[s.len() - 2 - (trailing_spaces(s) - 1)] == s[s.len()
                - 1 - trailing_spaces(s)]);
        }
    }
}

/// Whether `c` is one of the whitespace characters recognized by trimming.
pub fn is_space(c: char) -> (r: bool)
    ensures
        r == is_space_char(c),
{
    let u = c as u32;
    u == 0x20 || (0x09 <= u && u <= 0x0D) || u == 0x85 || u == 0xA0 || u == 0x1680 || (0x2000 <= u
        && u <= 0x200A) || u == 0x2028 || u == 0x2029 || u == 0x202F || u == 0x205F || u == 0x3000
}

/// Collects the characters of `s` into a vector with the same view.
pub fn str_chars(s: &str) -> (r: Vec<char>)
    ensures
        r@ == s@,
{
    let n: usize = s.unicode_len();
    let mut r: Vec<char> = Vec::new();
    let mut i: usize = 0;
    while i < n
        invariant
            n == s@.len(),
            i <= n,
            r@ == s@.subrange(0, i as int),
        decreases n - i,
    {
        let c = s.get_char(i);
        r.push(c);
        i = i + 1;
        proof {
            assert(r@ =~= s@.subrange(0, i as int));
        }
    }
    proof {
        assert(r@ =~= s@);
    }
    r
}

/// Relies on `String::push`: appends exactly the one character to the string.
#[verifier::external_body]
fn push_char(s: &mut String, c: char)
    ensures
        final(s)@ == old(s)@.push(c),
{
    s.push(c);
}

/// Builds a string whose view is exactly the characters of `v`.
pub fn chars_to_string(v: &Vec<char>) -> (r: String)
    ensures
        r@ == v@,
{
    let mut r = String::new();
    let mut i: usize = 0;
    while i < v.len()
        invariant
            i <= v@.len(),
            r@ == v@.subrange(0, i as int),
        decreases v@.len() - i,
    {
        push_char(&mut r, v[i]);
        i = i + 1;
        proof {
            assert(r@ =~= v@.subrange(0, i as int));
        }
    }
    proof {
        assert(r@ =~= v@);
    }
    r
}

/// Appends one character to a string, with the same meaning as `push_char`.
pub fn string_push(s: &mut String, c: char)
    ensures
        final(s)@ == old(s)@.push(c),
{
    push_char(s, c);
}

/// `pat` occurs in `v` at position `i`.
pub fn match_at_exec(v: &Vec<char>, pat: &Vec<char>, i: usize) -> (r: bool)
    ensures
        r == match_at(v@, pat@, i as int),
{
    if i > v.len() || pat.len() > v.len() - i {
        proof {
            assert(!match_at(v@, pat@, i as int));
        }
        return false;
    }
    let n: usize = v.len();
    let mut k: usize = 0;
    while k < pat.len()
        invariant
            n == v@.len(),
            i + pat@.len() <= v@.len(),
            k <= pat@.len(),
            forall|j: int| 0 <= j < k ==> v@[i + j] == pat@[j],
        decreases pat@.len() - k,
    {
        if v[i + k] != pat[k] {
            proof {
                assert(v@.subrange(i as int, i + pat@.len() as int)[k as int] == v@[i + k]);
            }
            return false;
        }
        k = k + 1;
    }
    proof {
        assert(v@.subrange(i as int, i + pat@.len() as int) =~= pat@);
    }
    true
}

/// Finds the first occurrence of `pat` in `v`, if there is one.
pub fn find_pat(v: &Vec<char>, pat: &Vec<char>) -> (r: Option<usize>)
    ensures
        match r {
            Some(i) => first_match_at(v@, pat@, i as int),
            None => !contains_pat(v@, pat@),
        },
{
    if pat.len() > v.len() {
        return None;
    }
    let mut i: usize = 0;
    let last: usize = v.len() - pat.len();
    while i < last
        invariant
            pat@.len() <= v@.len(),
            last == v@.len() - pat@.len(),
            i <= last,
            forall|j: int| 0 <= j < i ==> !match_at(v@, pat@, j),
        decreases last - i,
    {
        if match_at_exec(v, pat, i) {
            return Some(i);
        }
        i = i + 1;
    }
    if match_at_exec(v, pat, last) {
        return Some(last);
    }
    proof {
        assert forall|j: int| !match_at(v@, pat@, j) by {
            if 0 <= j && j + pat@.len() <= v@.len() {
                assert(j <= last);
            }
        }
    }
    None
}

/// `i` is the first position at or after `from` at which `pat` occurs in `s`.
pub open spec fn first_match_from(s: Seq<char>, pat: Seq<char>, from: int, i: int) -> bool {
    match_at(s, pat, i) && from <= i && forall|j: int| from <= j < i ==> !match_at(s, pat, j)
}

/// Finds the first occurrence of `pat` at or after position `from`.
pub fn find_pat_from(v: &Vec<char>, pat: &Vec<char>, from: usize) -> (r: Option<usize>)
    ensures
        match r {
            Some(i) => first_match_from(v@, pat@, from as int, i as int),
            None => forall|j: int| from <= j ==> !match_at(v@, pat@, j),
        },
{
    if from > v.len() || pat.len() > v.len() - from {
        return None;
    }
    let n: usize = v.len();
    let mut i: usize = from;
    let last: usize = n - pat.len();
    while i < last
        invariant
            n == v@.len(),
            pat@.len() <= v@.len(),
            last == v@.len() - pat@.len(),
            from <= i <= last,
            forall|j: int| from <= j < i ==> !match_at(v@, pat@, j),
        decreases last - i,
    {
        if match_at_exec(v, pat, i) {
            return Some(i);
        }
        i = i + 1;
    }
    if match_at_exec(v, pat, last) {
        return Some(last);
    }
    proof {
        assert forall|j: int| from <= j implies !match_at(v@, pat@, j) by {
            if j + pat@.len() <= v@.len() {
                assert(j <= last);
            }
        }
    }
    None
}

/// Copies `v[lo..hi]` out as its own vector.
pub fn slice_chars(v: &Vec<char>, lo: usize, hi: usize) -> (r: Vec<char>)
    requires
        lo <= hi <= v@.len(),
    ensures
        r@ == v@.subrange(lo as int, hi as int),
{
    let mut r: Vec<char> = Vec::new();
    let mut i: usize = lo;
    while i < hi
        invariant
            lo <= i <= hi <= v@.len(),
            r@ == v@.subrange(lo as int, i as int),
        decreases hi - i,
    {
        r.push(v[i]);
        i = i + 1;
        proof {
            assert(r@ =~= v@.subrange(lo as int, i as int));
        }
    }
    proof {
        assert(r@ =~= v@.subrange(lo as int, hi as int));
    }
    r
}

/// Whether `pat` occurs anywhere in `v`.
pub fn contains_pat_exec(v: &Vec<char>, pat: &Vec<char>) -> (r: bool)
    ensures
        r == contains_pat(v@, pat@),
{
    find_pat(v, pat).is_some()
}

/// Whether `pat` is a prefix of `v`.
pub fn starts_with_exec(v: &Vec<char>, pat: &Vec<char>) -> (r: bool)
    ensures
        r == starts_with(v@, pat@),
{
    let r = match_at_exec(v, pat, 0);
    proof {
        if starts_with(v@, pat@) {
            assert(match_at(v@, pat@, 0));
        }
    }
    r
}

/// The trimmed form of `v`: both ends stripped of whitespace.
pub fn trim_chars(v: &Vec<char>) -> (r: Vec<char>)
    ensures
        r@ == trim_seq(v@),
{
    proof {
        lemma_leading_spaces_bounds(v@);
        lemma_trailing_spaces_bounds(v@);
    }
    let mut lo: usize = 0;
    while lo < v.len() && is_space(v[lo])
        invariant
            lo <= v@.len(),
            forall|i: int| 0 <= i < lo ==> is_space_char(v@[i]),
            lo <= leading_spaces(v@),
        decreases v@.len() - lo,
    {
        lo = lo + 1;
        proof {
            lemma_leading_spaces_bounds(v@);
            if lo > leading_spaces(v@) {
                assert(is_space_char(v@[leading_spaces(v@)]));
            }
        }
    }
    proof {
        lemma_leading_spaces_bounds(v@);
        if lo < leading_spaces(v@) {
            assert(is_space_char(v@[lo as int]));
        }
        assert(lo == leading_spaces(v@));
    }
    if lo == v.len() {
        let r: Vec<char> = Vec::new();
        proof {
            assert(r@ =~= trim_seq(v@));
        }
        return r;
    }
    let mut hi: usize = v.len();
    while hi > lo && is_space(v[hi - 1])
        invariant
            lo < v@.len(),
            lo == leading_spaces(v@),
            !is_space_char(v@[lo as int]),
            lo <= hi <= v@.len(),
            forall|i: int| hi <= i < v@.len() ==> is_space_char(v@[i]),
            v@.len() - hi <= trailing_spaces(v@),
        decreases hi,
    {
        hi = hi - 1;
        proof {
            lemma_trailing_spaces_bounds(v@);
            if v@.len() - hi > trailing_spaces(v@) {
                assert(is_space_char(v@[v@.len() - 1 - trailing_spaces(v@)]));
            }
        }
    }
    proof {
        lemma_trailing_spaces_bounds(v@);
        if v@.len() - hi < trailing_spaces(v@) {
            assert(is_space_char(v@[hi - 1]));
        }
        assert(v@.len() - hi == trailing_spaces(v@));
    }
    let mut r: Vec<char> = Vec::new();
    let mut i: usize = lo;
    while i < hi
        invariant
            lo <= i <= hi <= v@.len(),
            r@ == v@.subrange(lo as int, i as int),
        decreases hi - i,
    {
        r.push(v[i]);
        i = i + 1;
        proof {
            assert(r@ =~= v@.subrange(lo as int, i as int));
        }
    }
    proof {
        assert(r@ =~= trim_seq(v@));
    }
    r
}

} // verus!
