//! The markup-to-render boundary: the markup newtype handed from stage 1 to
//! stage 2, and the classification of what the native layout engine returned.
//!
//! The foreign rendering call itself cannot be verified; it lives outside this
//! crate.  Everything that can be said about its textual result is said here,
//! over plain strings.

use vstd::prelude::*;

use crate::error::RenderError;
use crate::text::{
    chars_to_string, contains_pat, contains_pat_exec, find_pat, first_match_at, match_at,
    str_chars,
};

verus! {

/// Markup text produced by stage 1 and consumed by stage 2.
#[derive(Debug, Clone)]
pub struct PikchrCode {
    text: String,
}

impl View for PikchrCode {
    type V = Seq<char>;

    closed spec fn view(&self) -> Seq<char> {
        self.text@
    }
}

impl PikchrCode {
    /// Wraps markup text.
    pub fn new(input: &str) -> (r: Self)
        ensures
            r@ == input@,
    {
        PikchrCode { text: String::from_str(input) }
    }

    /// Hands the markup text back out.
    pub fn into_inner(self) -> (r: String)
        ensures
            r@ == self@,
    {
        self.text
    }

    /// Borrows the markup text.
    pub fn as_inner(&self) -> (r: &String)
        ensures
            r@ == self@,
    {
        &self.text
    }
}

/// The marker the layout engine embeds in its output when it rejects markup.
pub open spec fn render_error_marker() -> Seq<char> {
    "ERROR: "@
}

/// The sentinel the layout engine emits for a well-formed but empty diagram.
pub open spec fn empty_diagram_marker() -> Seq<char> {
    "<!-- empty pikchr diagram -->"@
}

/// The rendered artifact: output text and the geometry the engine reported.
#[derive(Debug, Clone)]
pub struct RenderedOutput {
    pub text: String,
    pub width: i32,
    pub height: i32,
}

/// Whether rendered text carries the engine's own error marker.
pub fn render_text_is_error(text: &str) -> (r: bool)
    ensures
        r == contains_pat(text@, render_error_marker()),
{
    let chars = str_chars(text);
    let marker = str_chars("ERROR: ");
    contains_pat_exec(&chars, &marker)
}

/// Whether rendered text is the conventional empty-diagram output.
pub fn render_text_is_empty(text: &str) -> (r: bool)
    ensures
        r == contains_pat(text@, empty_diagram_marker()),
{
    let chars = str_chars(text);
    let marker = str_chars("<!-- empty pikchr diagram -->");
    contains_pat_exec(&chars, &marker)
}

/// Classifies what a nominally successful foreign render call returned: an
/// engine-reported error, the empty-diagram sentinel, or a genuine success.
pub fn classify_render_output(text: String, width: i32, height: i32) -> (r: Result<
    RenderedOutput,
    RenderError,
>)
    ensures
        contains_pat(text@, render_error_marker()) ==> (r matches Err(
            RenderError::NativeRenderError(m),
        ) && m@ == text@),
        !contains_pat(text@, render_error_marker()) && contains_pat(
            text@,
            empty_diagram_marker(),
        ) ==> r == Err::<RenderedOutput, RenderError>(RenderError::EmptyResult),
        !contains_pat(text@, render_error_marker()) && !contains_pat(
            text@,
            empty_diagram_marker(),
        ) ==> (r matches Ok(out) && out.text@ == text@ && out.width == width && out.height
            == height),
{
    if render_text_is_error(text.as_str()) {
        Err(RenderError::NativeRenderError(text))
    } else if render_text_is_empty(text.as_str()) {
        Err(RenderError::EmptyResult)
    } else {
        Ok(RenderedOutput { text, width, height })
    }
}

/// The style directive injected into successful output, pinning the fonts that
/// text and path labels use.
pub open spec fn svg_style_directive() -> Seq<char> {
    "<style>text,path { font-family: 'Space Mono'; }</style>"@
}

/// Decorates successful render output with the editor's style directive,
/// inserted directly after the first `>` (the end of the opening tag).  Text
/// without any `>` is returned unchanged.
pub fn inject_svg_style(input: String) -> (r: String)
    ensures
        (forall|i: int| !first_match_at(input@, seq!['>'], i)) ==> r@ == input@,
        forall|i: int|
            first_match_at(input@, seq!['>'], i) ==> r@ == input@.subrange(0, i + 1)
                + svg_style_directive() + input@.subrange(i + 1, input@.len() as int),
{
    let chars = str_chars(input.as_str());
    let needle = str_chars(">");
    proof {
        reveal_strlit(">");
        assert(needle@ =~= seq!['>']);
    }
    match find_pat(&chars, &needle) {
        None => {
            proof {
                assert(forall|i: int| !first_match_at(input@, seq!['>'], i));
            }
            input
        },
        Some(p) => {
            let style = str_chars("<style>text,path { font-family: 'Space Mono'; }</style>");
            let n: usize = chars.len();
            let mut out: Vec<char> = Vec::new();
            let mut i: usize = 0;
            while i <= p
                invariant
                    n == chars@.len(),
                    p < chars@.len(),
                    i <= p + 1,
                    out@ == chars@.subrange(0, i as int),
                decreases p + 1 - i,
            {
                out.push(chars[i]);
                i = i + 1;
                proof {
                    assert(out@ =~= chars@.subrange(0, i as int));
                }
            }
            let mut j: usize = 0;
            while j < style.len()
                invariant
                    p < chars@.len(),
                    j <= style@.len(),
                    out@ == chars@.subrange(0, p + 1) + style@.subrange(0, j as int),
                decreases style@.len() - j,
            {
                out.push(style[j]);
                j = j + 1;
                proof {
                    assert(out@ =~= chars@.subrange(0, p + 1) + style@.subrange(0, j as int));
                }
            }
            proof {
                assert(style@.subrange(0, style@.len() as int) =~= style@);
            }
            let mut k: usize = p + 1;

            while k < chars.len()
                invariant
                    p < chars@.len(),
                    p + 1 <= k <= chars@.len(),
                    out@ == chars@.subrange(0, p + 1) + style@ + chars@.subrange(p + 1, k as int),
                decreases chars@.len() - k,
            {
                out.push(chars[k]);
                k = k + 1;
                proof {
                    assert(out@ =~= chars@.subrange(0, p + 1) + style@ + chars@.subrange(
                        p + 1,
                        k as int,
                    ));
                }
            }
            let r = chars_to_string(&out);
            proof {
                assert forall|i: int|
                    first_match_at(input@, seq!['>'], i) implies r@ == input@.subrange(0, i + 1)
                    + svg_style_directive() + input@.subrange(i + 1, input@.len() as int) by {
                    assert(match_at(input@, seq!['>'], p as int));
                    assert(i == p) by {
                        if i < p {
                            assert(!match_at(input@, seq!['>'], i));
                        }
                        if p < i {
                            assert(!match_at(input@, seq!['>'], p as int));
                        }
                    }
                }
            }
            r
        },
    }
}

} // verus!
