//! The interpreter invocation protocol: how a sequence of source fragments
//! becomes one virtual program on the sandbox's standard input, and how the
//! captured output streams are classified as success or failure.
//!
//! The sandboxed interpreter has no structured error channel; failure is
//! inferred from a non-empty captured error stream or from conventional error
//! markers at the start of the output text.

use vstd::prelude::*;

use crate::error::RenderError;
use crate::text::{
    chars_to_string, is_space_char, leading_spaces, lemma_leading_spaces_bounds,
    lemma_trailing_spaces_bounds, starts_with, starts_with_exec, str_chars, string_push,
    trailing_spaces, trim_chars, trim_seq,
};

verus! {

/// An ordered sequence of source fragments (for example a shared prelude
/// followed by the user's buffer), concatenated in order before being handed
/// to the interpreter.
pub type Queries = Vec<String>;

/// The driver fragment that runs the diagram grammar and prints its output.
pub open spec fn diagram_init_text() -> Seq<char> {
    "run :- phrase(diagram, Out), format(\"~s\", [Out])."@
}

/// Builds the driver fragment prepended to every diagram program.
pub fn diagram_init() -> (r: String)
    ensures
        r@ == diagram_init_text(),
{
    String::from_str("run :- phrase(diagram, Out), format(\"~s\", [Out]).")
}

/// The virtual program text: every fragment in order, each on its own line.
pub open spec fn program_text(qs: Seq<Seq<char>>) -> Seq<char>
    decreases qs.len(),
{
    if qs.len() == 0 {
        Seq::empty()
    } else {
        program_text(qs.drop_last()) + qs.last() + seq!['\n']
    }
}

/// Concatenates the query fragments, each terminated by a newline, into the
/// single stream handed to the interpreter's standard input.
pub fn assemble_program(queries: &Queries) -> (r: String)
    ensures
        r@ == program_text(queries@.map_values(|q: String| q@)),
{
    let ghost qs = queries@.map_values(|q: String| q@);
    let mut r = String::new();
    let mut i: usize = 0;
    while i < queries.len()
        invariant
            qs == queries@.map_values(|q: String| q@),
            i <= queries@.len(),
            r@ == program_text(qs.subrange(0, i as int)),
        decreases queries@.len() - i,
    {
        r.append(queries[i].as_str());
        string_push(&mut r, '\n');
        i = i + 1;
        proof {
            assert(qs.subrange(0, i as int).drop_last() =~= qs.subrange(0, i - 1));
            assert(qs.subrange(0, i as int).last() == qs[i - 1]);
        }
    }
    proof {
        assert(qs.subrange(0, qs.len() as int) =~= qs);
    }
    r
}

/// The command-line arguments of the virtual interpreter process: quiet mode,
/// consult the program from standard input, then run `goal`.
pub fn interpreter_args(goal: &str) -> (r: Vec<String>)
    ensures
        r@.len() == 5,
        r@[0]@ == "tpl"@,
        r@[1]@ == "-q"@,
        r@[2]@ == "--consult"@,
        r@[3]@ == "-g"@,
        r@[4]@ == goal@,
{
    let mut r: Vec<String> = Vec::new();
    r.push(String::from_str("tpl"));
    r.push(String::from_str("-q"));
    r.push(String::from_str("--consult"));
    r.push(String::from_str("-g"));
    r.push(String::from_str(goal));
    r
}

/// The default goal an invocation runs after consulting the program.
pub fn run_goal() -> (r: String)
    ensures
        r@ == "run, halt"@,
{
    String::from_str("run, halt")
}

/// What one invocation's captured streams mean: the success text, or the text
/// of the failure.
pub enum Classification {
    Success(Seq<char>),
    Failure(Seq<char>),
}

/// Classifies captured output and error streams.  A non-empty error stream is
/// a failure; output whose trimmed form begins with the structured error-term
/// prefix `error(` or with the conventional `Error:` prefix is a failure;
/// otherwise the trimmed output is the success value.
pub open spec fn classification(out: Seq<char>, err: Seq<char>) -> Classification {
    if err.len() > 0 {
        Classification::Failure(err)
    } else if starts_with(trim_seq(out), "error("@) {
        Classification::Failure(out)
    } else if starts_with(trim_seq(out), "Error:"@) {
        Classification::Failure(out)
    } else {
        Classification::Success(trim_seq(out))
    }
}

/// Output that begins with the `Error:` marker still begins with it after
/// trimming: the marker starts and ends with non-whitespace characters, so
/// trimming removes nothing in front of it and cannot cut into it.
pub proof fn lemma_error_prefix_survives_trim(out: Seq<char>)
    requires
        starts_with(out, "Error:"@),
    ensures
        starts_with(trim_seq(out), "Error:"@),
{
    reveal_strlit("Error:");
    lemma_leading_spaces_bounds(out);
    lemma_trailing_spaces_bounds(out);
    assert(out[0] == 'E') by {
        assert(out.subrange(0, 6)[0] == out[0]);
    }
    assert(out[5] == ':') by {
        assert(out.subrange(0, 6)[5] == out[5]);
    }
    assert(leading_spaces(out) == 0) by {
        if leading_spaces(out) > 0 {
            assert(is_space_char(out[0]));
        }
    }
    assert(out.len() - trailing_spaces(out) >= 6) by {
        if out.len() - trailing_spaces(out) < 6 {
            assert(is_space_char(out[5]));
        }
    }
    assert(trim_seq(out).subrange(0, 6) =~= "Error:"@);
}

/// The classification is a function of the captured streams alone: two
/// invocations that captured identical output and error text are classified
/// identically.  This is the deterministic half of the protocol; what the
/// sandbox itself prints for a given program is outside this crate.
pub proof fn lemma_classification_deterministic(
    out1: Seq<char>,
    err1: Seq<char>,
    out2: Seq<char>,
    err2: Seq<char>,
)
    requires
        out1 == out2,
        err1 == err2,
    ensures
        classification(out1, err1) == classification(out2, err2),
{
}

/// Classifies what one invocation captured, exactly as `classification` says.
/// Any output beginning with the `Error:` marker - trimmed or not - is
/// classified as an interpreter error, whatever its length.
pub fn classify_output(out: String, err: String) -> (r: Result<String, RenderError>)
    ensures
        match classification(out@, err@) {
            Classification::Success(s) => r matches Ok(t) && t@ == s,
            Classification::Failure(m) => r matches Err(RenderError::InterpreterError(t)) && t@
                == m,
        },
        starts_with(trim_seq(out@), "Error:"@) ==> r matches Err(
            RenderError::InterpreterError(_),
        ),
        starts_with(out@, "Error:"@) ==> r matches Err(RenderError::InterpreterError(_)),
{
    proof {
        if starts_with(out@, "Error:"@) {
            lemma_error_prefix_survives_trim(out@);
        }
    }
    if !err.as_str().is_empty() {
        return Err(RenderError::InterpreterError(err));
    }
    let out_chars = str_chars(out.as_str());
    let trimmed = trim_chars(&out_chars);
    let error_term = str_chars("error(");
    let error_line = str_chars("Error:");
    if starts_with_exec(&trimmed, &error_term) {
        return Err(RenderError::InterpreterError(out));
    }
    if starts_with_exec(&trimmed, &error_line) {
        return Err(RenderError::InterpreterError(out));
    }
    Ok(chars_to_string(&trimmed))
}

} // verus!
