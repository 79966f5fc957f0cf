//! Tests of the invocation protocol: program assembly and output
//! classification.

use pikchr_pl::error::RenderError;
use pikchr_pl::invoke::{
    assemble_program, classify_output, diagram_init, interpreter_args, run_goal,
};

#[test]
fn assemble_concatenates_each_fragment_on_its_own_line() {
    let queries = vec![String::from("circle --> \"circle;\"."), String::from("diagram --> circle.")];
    let program = assemble_program(&queries);
    assert_eq!(program, "circle --> \"circle;\".\ndiagram --> circle.\n");
}

#[test]
fn assemble_empty_queries_gives_empty_program() {
    let queries: Vec<String> = Vec::new();
    assert_eq!(assemble_program(&queries), "");
}

#[test]
fn interpreter_args_select_consult_then_goal() {
    let args = interpreter_args("run, halt");
    assert_eq!(args, vec!["tpl", "-q", "--consult", "-g", "run, halt"]);
}

#[test]
fn run_goal_is_run_then_halt() {
    assert_eq!(run_goal(), "run, halt");
}

#[test]
fn diagram_init_drives_the_diagram_grammar() {
    assert_eq!(diagram_init(), "run :- phrase(diagram, Out), format(\"~s\", [Out]).");
}

#[test]
fn success_output_is_trimmed() {
    let r = classify_output(String::from("circle;\n"), String::new());
    match r {
        Ok(s) => assert_eq!(s, "circle;"),
        Err(_) => panic!("expected success"),
    }
}

#[test]
fn nonempty_error_stream_is_an_interpreter_error() {
    let r = classify_output(String::from("partial output"), String::from("boom"));
    match r {
        Err(RenderError::InterpreterError(m)) => assert_eq!(m, "boom"),
        _ => panic!("expected an interpreter error carrying the error stream"),
    }
}

#[test]
fn error_term_prefix_after_trim_is_an_interpreter_error() {
    let r = classify_output(String::from("  \nerror(type_error, foo)\n"), String::new());
    match r {
        Err(RenderError::InterpreterError(m)) => assert_eq!(m, "  \nerror(type_error, foo)\n"),
        _ => panic!("expected an interpreter error carrying the whole output"),
    }
}

#[test]
fn error_line_prefix_is_an_interpreter_error_whatever_the_length() {
    let long_tail = "x".repeat(5000);
    let out = format!("Error: something failed {}", long_tail);
    let r = classify_output(out.clone(), String::new());
    match r {
        Err(RenderError::InterpreterError(m)) => assert_eq!(m, out),
        _ => panic!("expected an interpreter error"),
    }
}

#[test]
fn error_line_prefix_is_detected_after_trimming() {
    let r = classify_output(String::from(" \nError: oops\n"), String::new());
    match r {
        Err(RenderError::InterpreterError(m)) => assert_eq!(m, " \nError: oops\n"),
        _ => panic!("leading whitespace must not hide the error marker"),
    }
}

#[test]
fn error_marker_not_at_start_is_success() {
    let r = classify_output(String::from("box; Error: not really\n"), String::new());
    match r {
        Ok(s) => assert_eq!(s, "box; Error: not really"),
        Err(_) => panic!("an error marker in the middle must not fail the run"),
    }
}

#[test]
fn classification_is_deterministic_for_identical_streams() {
    let a = classify_output(String::from("circle;\n"), String::new());
    let b = classify_output(String::from("circle;\n"), String::new());
    match (a, b) {
        (Ok(x), Ok(y)) => assert_eq!(x, y),
        _ => panic!("identical captured streams must classify identically"),
    }
}
