//! Tests of runtime construction and the invocation path, exercised with a
//! minimal module: the real interpreter module is an asset of the
//! application, not of this crate.

use pikchr_pl::engine::{
    init_sync, prepare_runtime_image, process_diagram_sync, PrologEngine, PrologEngineAsync,
    GUEST_MEMORY_RESERVATION,
};
use pikchr_pl::error::RenderError;

/// The smallest well-formed module: magic and version, no sections.
fn empty_module() -> Vec<u8> {
    vec![0x00, 0x61, 0x73, 0x6d, 0x01, 0x00, 0x00, 0x00]
}

/// A guest that ignores its input and writes `text` to the given file
/// descriptor: enough to drive the whole invocation path - virtual context,
/// instantiation, entry call, capture and classification - without the real
/// interpreter module, which is an application asset.
fn writer_module(fd: u32, text: &str) -> Vec<u8> {
    let escaped: String = text
        .bytes()
        .map(|b| format!("\\{:02x}", b))
        .collect();
    format!(
        r#"(module
  (import "wasi_snapshot_preview1" "fd_write"
    (func $fd_write (param i32 i32 i32 i32) (result i32)))
  (memory (export "memory") 1)
  (data (i32.const 64) "{escaped}")
  (func (export "_start")
    (i32.store (i32.const 0) (i32.const 64))
    (i32.store (i32.const 4) (i32.const {len}))
    (drop (call $fd_write (i32.const {fd}) (i32.const 0) (i32.const 1) (i32.const 8)))))
"#,
        escaped = escaped,
        len = text.len(),
        fd = fd,
    )
    .into_bytes()
}

#[test]
fn captured_output_is_classified_and_trimmed() {
    let engine = PrologEngine::new(writer_module(1, "circle;\n"));
    match engine.run_prolog(vec![String::from("diagram --> circle.")]) {
        Ok(s) => assert_eq!(s, "circle;"),
        Err(e) => panic!("expected captured output, got {}", e.message()),
    }
}

#[test]
fn process_diagram_hands_captured_markup_on_unchanged() {
    let engine = PrologEngine::new(writer_module(1, "box;arrow;box"));
    match engine.process_diagram(vec![String::from("diagram --> \"box;\", \"arrow;\", \"box\".")]) {
        Ok(code) => assert_eq!(code.into_inner(), "box;arrow;box"),
        Err(e) => panic!("expected markup, got {}", e.message()),
    }
}

#[test]
fn a_caller_chosen_goal_runs_the_same_invocation_path() {
    let engine = PrologEngine::new(writer_module(1, "1"));
    match engine.run_prolog_goal("main", vec![String::from("main :- write(1).")]) {
        Ok(s) => assert_eq!(s, "1"),
        Err(e) => panic!("expected captured output, got {}", e.message()),
    }
}

#[test]
fn a_captured_error_line_fails_the_invocation() {
    let engine = PrologEngine::new(writer_module(1, "Error: no diagram"));
    match engine.run_prolog(vec![String::new()]) {
        Err(RenderError::InterpreterError(m)) => assert_eq!(m, "Error: no diagram"),
        _ => panic!("an Error: line at the start of the output must fail the run"),
    }
}

#[test]
fn a_nonempty_error_stream_fails_the_invocation() {
    let engine = PrologEngine::new(writer_module(2, "stack overflow"));
    match engine.run_prolog(vec![String::new()]) {
        Err(RenderError::InterpreterError(m)) => assert_eq!(m, "stack overflow"),
        _ => panic!("a non-empty captured error stream must fail the run"),
    }
}

#[test]
fn garbage_module_bytes_fail_initialization_fatally() {
    let engine = PrologEngine::new(vec![0xde, 0xad, 0xbe, 0xef]);
    match engine.init() {
        Err(RenderError::InitializationFailure(_)) => (),
        _ => panic!("expected a fatal initialization failure"),
    }
    // The failure is remembered: later use fails the same way, never retried.
    match engine.run_prolog(vec![String::from("diagram --> circle.")]) {
        Err(RenderError::InitializationFailure(_)) => (),
        _ => panic!("a failed runtime must stay failed"),
    }
}

#[test]
fn init_sync_reports_bad_module_bytes() {
    assert!(init_sync(vec![0x01]).is_err());
}

#[test]
fn a_wellformed_module_initializes_both_modes() {
    let blocking = PrologEngine::new(empty_module());
    assert!(blocking.init().is_ok());
    let suspending = PrologEngineAsync::new(empty_module());
    assert!(suspending.init().is_ok());
    assert!(suspending.runtime().is_ok());
}

#[test]
fn a_module_without_the_entry_function_is_an_interpreter_error() {
    let engine = PrologEngine::new(empty_module());
    match engine.run_prolog(vec![String::from("diagram --> circle.")]) {
        Err(RenderError::InterpreterError(_)) => (),
        _ => panic!("a module with no entry function must fail the invocation"),
    }
}

#[test]
fn process_diagram_sync_flattens_the_failure_to_text() {
    let engine = PrologEngine::new(empty_module());
    let _ = engine.init();
    match process_diagram_sync(&engine, String::from("diagram --> circle.")) {
        Err(message) => assert!(!message.is_empty()),
        Ok(_) => panic!("expected a failure without the interpreter module"),
    }
}

/// A guest whose entry function traps at once: an engine-level execution
/// failure, not a guest exit.
fn trapping_module() -> Vec<u8> {
    b"(module (func (export \"_start\") unreachable))".to_vec()
}

/// A guest that writes `text` to standard output and then exits through the
/// virtualized OS, as a real interpreter run does at `halt`.
fn writer_exit_module(text: &str) -> Vec<u8> {
    let escaped: String = text
        .bytes()
        .map(|b| format!("\\{:02x}", b))
        .collect();
    format!(
        r#"(module
  (import "wasi_snapshot_preview1" "fd_write"
    (func $fd_write (param i32 i32 i32 i32) (result i32)))
  (import "wasi_snapshot_preview1" "proc_exit" (func $proc_exit (param i32)))
  (memory (export "memory") 1)
  (data (i32.const 64) "{escaped}")
  (func (export "_start")
    (i32.store (i32.const 0) (i32.const 64))
    (i32.store (i32.const 4) (i32.const {len}))
    (drop (call $fd_write (i32.const 1) (i32.const 0) (i32.const 1) (i32.const 8)))
    (call $proc_exit (i32.const 0))))
"#,
        escaped = escaped,
        len = text.len(),
    )
    .into_bytes()
}

#[test]
fn a_genuine_trap_fails_the_run_whatever_was_captured() {
    let engine = PrologEngine::new(trapping_module());
    match engine.run_prolog(vec![String::new()]) {
        Err(RenderError::InterpreterError(_)) => (),
        Ok(_) => panic!("a trapped run must never classify as success"),
        _ => panic!("a trap must surface as an interpreter error"),
    }
}

#[test]
fn a_guest_exit_is_not_a_failure_and_the_buffers_decide() {
    let engine = PrologEngine::new(writer_exit_module("circle;\n"));
    match engine.run_prolog(vec![String::from("diagram --> circle.")]) {
        Ok(s) => assert_eq!(s, "circle;"),
        Err(e) => panic!("a guest exit must not fail the run: {}", e.message()),
    }
}

/// An engine with the library's own memory settings, for prepared-module
/// tests.
fn host_engine() -> wasmtime::Engine {
    let mut config = wasmtime::Config::new();
    config.memory_reservation(GUEST_MEMORY_RESERVATION);
    wasmtime::Engine::new(&config).unwrap()
}

#[test]
fn a_prepared_module_runs_without_further_initialization() {
    let engine = host_engine();
    let module = wasmtime::Module::new(&engine, writer_module(1, "box;\n")).unwrap();
    let prepared = PrologEngine::from_prepared(engine, module).unwrap();
    match prepared.run_prolog(vec![String::new()]) {
        Ok(s) => assert_eq!(s, "box;"),
        Err(e) => panic!("expected captured output, got {}", e.message()),
    }
}

#[test]
fn a_module_from_a_foreign_engine_is_an_error_not_a_crash() {
    let other = host_engine();
    let module = wasmtime::Module::new(&other, empty_module()).unwrap();
    let engine = host_engine();
    let prepared = PrologEngine::from_prepared(engine, module).unwrap();
    match prepared.run_prolog(vec![String::new()]) {
        Err(RenderError::InterpreterError(_)) => (),
        _ => panic!("cross-engine instantiation must surface as an interpreter error"),
    }
}

#[test]
fn image_preparation_falls_back_to_raw_bytes_on_garbage() {
    let raw = vec![0xde, 0xad];
    let image = prepare_runtime_image(raw.clone(), None);
    assert!(!image.precompiled);
    assert_eq!(image.bytes, raw);
}

#[test]
fn image_preparation_falls_back_on_an_unsupported_target() {
    let raw = empty_module();
    let image = prepare_runtime_image(raw.clone(), Some("no-such-target-triple"));
    assert!(!image.precompiled);
    assert_eq!(image.bytes, raw);
}

#[test]
fn image_preparation_precompiles_a_wellformed_module() {
    let image = prepare_runtime_image(empty_module(), None);
    assert!(image.precompiled);
    assert_ne!(image.bytes, empty_module());
}
