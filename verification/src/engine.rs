//! The sandbox runtime and the execution of one program inside it.
//!
//! A runtime is the triple (execution engine, compiled module, linkage table),
//! built lazily exactly once per execution mode inside a compute-once cell and
//! read-only afterwards.  Each invocation gets its own store and fresh capture
//! pipes on top of the shared runtime, so invocations never observe each
//! other's input or output.
//!
//! The engine itself is foreign code: every call into it goes through a
//! trusted wrapper whose contract states no more than the engine's own
//! source shows.  Everything around the calls - program assembly, argument
//! construction, output classification - is verified in `invoke`.

use vstd::prelude::*;

use crate::error::RenderError;
use crate::host::{
    builder_args, builder_build_p1, builder_env, builder_new, builder_preopen_cwd, builder_stderr,
    builder_stdin, builder_stdout, bytes_to_string, config_new, config_set_memory_reservation,
    config_set_target, engine_new, engine_precompile, error_text, is_guest_exit,
    linker_add_wasi_async, linker_add_wasi_sync, linker_new, module_new, pipe_capture, pipe_clone,
    pipe_contents, pipe_stdin, store_new, StoreState,
};
use crate::invoke::{
    assemble_program, classification, classify_output, diagram_init, interpreter_args, run_goal,
    Classification, Queries,
};
use crate::render::PikchrCode;

verus! {

// ---------------------------------------------------------------------------
// The runtime triple and its compute-once cell.
// ---------------------------------------------------------------------------
/// The capacity of each capture buffer: sized generously for typical diagram
/// programs.
pub fn capture_capacity() -> (r: usize)
    ensures
        r == 65535,
{
    65535
}

/// The up-front virtual-memory reservation per guest instance: 512 MiB,
/// ample for diagram programs and small enough that invocations also run
/// inside constrained address spaces.
pub const GUEST_MEMORY_RESERVATION: u64 = 0x2000_0000;

/// The shared, read-only runtime triple for one execution mode.
/// `suspendable` records which flavor of the virtualized OS imports the
/// linkage table carries: `true` for the suspending one, whose invocations
/// must be driven asynchronously, `false` for the blocking one.
pub struct SandboxRuntime {
    pub suspendable: bool,
    pub engine: wasmtime::Engine,
    pub module: wasmtime::Module,
    pub linker: wasmtime::Linker<StoreState>,
}

/// What one attempt to build a runtime produced.  A failure is fatal to the
/// cell: it is stored and every later use sees the same failure.
pub enum InitOutcome {
    Ready(SandboxRuntime),
    Failed(String),
}

/// Builds the runtime triple for one execution mode from raw module bytes:
/// engine, compiled module, and a linkage table carrying the virtualized OS
/// imports in the matching (blocking or suspending) flavor.  The engine
/// itself serves both modes; the mode lives in the linkage table's flavor.
pub fn build_runtime(suspendable: bool, module_bytes: &Vec<u8>) -> (r: InitOutcome)
    ensures
        r matches InitOutcome::Ready(rt) ==> rt.suspendable == suspendable,
{
    let mut config = config_new();
    config_set_memory_reservation(&mut config, GUEST_MEMORY_RESERVATION);
    let engine = match engine_new(&config) {
        Ok(e) => e,
        Err(e) => {
            return InitOutcome::Failed(error_text(&e));
        },
    };
    let module = match module_new(&engine, module_bytes.as_slice()) {
        Ok(m) => m,
        Err(e) => {
            return InitOutcome::Failed(error_text(&e));
        },
    };
    assemble_runtime(suspendable, engine, module)
}

/// Builds a runtime around an engine and a module prepared elsewhere - for
/// example an ahead-of-time compiled image the host deserialized - by adding
/// the linkage table of the requested flavor.  A module compiled by a
/// different engine is rejected at instantiation time by the engine itself.
pub fn assemble_runtime(
    suspendable: bool,
    engine: wasmtime::Engine,
    module: wasmtime::Module,
) -> (r: InitOutcome)
    ensures
        r matches InitOutcome::Ready(rt) ==> rt.suspendable == suspendable,
{
    let mut linker = linker_new(&engine);
    let linked = if suspendable {
        linker_add_wasi_async(&mut linker)
    } else {
        linker_add_wasi_sync(&mut linker)
    };
    match linked {
        Ok(_) => InitOutcome::Ready(SandboxRuntime { suspendable, engine, module, linker }),
        Err(e) => InitOutcome::Failed(error_text(&e)),
    }
}

/// A compute-once cell owning one runtime: the runtime is built at most once,
/// on first use, and shared read-only afterwards.  Construction failure is
/// remembered and never retried.
pub struct RuntimeCell {
    suspendable: bool,
    module_bytes: Vec<u8>,
    cell: std::sync::OnceLock<InitOutcome>,
}

/// Relies on `std::sync::OnceLock::new`: a fresh, empty cell.
#[verifier::external_body]
fn once_lock_new() -> std::sync::OnceLock<InitOutcome> {
    std::sync::OnceLock::new()
}

/// Relies on `std::sync::OnceLock::from`: a cell already holding the value.
#[verifier::external_body]
fn once_lock_filled(v: InitOutcome) -> std::sync::OnceLock<InitOutcome> {
    std::sync::OnceLock::from(v)
}

impl RuntimeCell {
    /// The execution mode this cell builds its runtime for.
    pub closed spec fn suspendable_spec(&self) -> bool {
        self.suspendable
    }

    /// A cell that will build, on first use, a runtime of the given mode from
    /// the given raw module bytes.
    pub fn new(suspendable: bool, module_bytes: Vec<u8>) -> (r: Self)
        ensures
            r.suspendable_spec() == suspendable,
    {
        RuntimeCell { suspendable, module_bytes, cell: once_lock_new() }
    }

    /// A cell already holding a built runtime, whose mode the cell records;
    /// used when the host prepared the module itself.
    pub fn new_ready(rt: SandboxRuntime) -> (r: Self)
        ensures
            r.suspendable_spec() == rt.suspendable,
    {
        let suspendable = rt.suspendable;
        RuntimeCell {
            suspendable,
            module_bytes: Vec::new(),
            cell: once_lock_filled(InitOutcome::Ready(rt)),
        }
    }

    /// Relies on `std::sync::OnceLock::get_or_init`: idempotent and race-safe
    /// under concurrent first use; exactly one caller runs the closure, every
    /// caller gets the stored outcome.  The cell field is private; it is
    /// either empty at construction (`new`) and initialized only here, always
    /// with `build_runtime` on this cell's own mode, or pre-filled at
    /// construction (`new_ready`) with a runtime whose mode the cell records
    /// - so any stored runtime carries the cell's mode, as the contract
    /// states.
    #[verifier::external_body]
    fn force(&self) -> (r: &InitOutcome)
        ensures
            r matches InitOutcome::Ready(rt) ==> rt.suspendable == self.suspendable_spec(),
    {
        self.cell.get_or_init(|| build_runtime(self.suspendable, &self.module_bytes))
    }

    /// The shared runtime, built on first use; a remembered construction
    /// failure surfaces as `InitializationFailure` on every use.
    pub fn get(&self) -> (r: Result<&SandboxRuntime, RenderError>)
        ensures
            r matches Ok(rt) ==> rt.suspendable == self.suspendable_spec(),
            r matches Err(e) ==> e is InitializationFailure,
    {
        match self.force() {
            InitOutcome::Ready(rt) => Ok(rt),
            InitOutcome::Failed(m) => Err(
                RenderError::InitializationFailure(m.clone()),
            ),
        }
    }
}

// ---------------------------------------------------------------------------
// One invocation: fresh context, instantiate, run, classify.
// ---------------------------------------------------------------------------
/// The private execution state of one invocation: a store built on the
/// runtime the session was opened for, that runtime's linkage table and
/// module, the two handles to the capture buffers, and the instance and
/// entry function once they exist.  The fields are private and only
/// `open_session` constructs a session, so the store, linkage table and
/// module always belong to one runtime: the pairing the engine's handle
/// operations demand cannot be broken by a caller.
pub struct Session<'a> {
    store: wasmtime::Store<StoreState>,
    linker: &'a wasmtime::Linker<StoreState>,
    module: &'a wasmtime::Module,
    stdout: wasmtime_wasi::p2::pipe::MemoryOutputPipe,
    stderr: wasmtime_wasi::p2::pipe::MemoryOutputPipe,
    instance: Option<wasmtime::Instance>,
    entry: Option<wasmtime::TypedFunc<(), ()>>,
}

impl<'a> Session<'a> {
    /// Whether the module has been instantiated in this session.
    pub closed spec fn has_instance(&self) -> bool {
        self.instance is Some
    }

    /// Whether the entry function has been looked up in this session.
    pub closed spec fn has_entry(&self) -> bool {
        self.entry is Some
    }

    /// Relies on `wasmtime::Linker::instantiate`: instantiates the session's
    /// module against its store, resolving imports from its linkage table
    /// (blocking mode).  Store and linkage table come from one runtime by
    /// construction, which is what the call demands; a module compiled by a
    /// different engine is reported as an error by the call itself.
    #[verifier::external_body]
    fn instantiate(&mut self) -> (r: Result<(), wasmtime::Error>)
        ensures
            r is Ok ==> final(self).has_instance(),
    {
        match self.linker.instantiate(&mut self.store, self.module) {
            Ok(i) => {
                self.instance = Some(i);
                Ok(())
            },
            Err(e) => Err(e),
        }
    }

    /// Relies on `wasmtime::Instance::get_typed_func`: looks up the named
    /// export of this session's instance, in this session's store, as a
    /// function taking and returning nothing.
    #[verifier::external_body]
    fn fetch_entry(&mut self, name: &str) -> (r: Result<(), wasmtime::Error>)
        requires
            old(self).has_instance(),
        ensures
            r is Ok ==> final(self).has_entry(),
    {
        let instance = self.instance.as_ref().unwrap();
        match instance.get_typed_func::<(), ()>(&mut self.store, name) {
            Ok(f) => {
                self.entry = Some(f);
                Ok(())
            },
            Err(e) => Err(e),
        }
    }

    /// Relies on `wasmtime::TypedFunc::call`: drives this session's entry
    /// function to completion in this session's store (blocking mode).  An
    /// error is a trap, which includes the guest's own exit at `halt`; see
    /// `is_guest_exit`.
    #[verifier::external_body]
    fn run_entry(&mut self) -> Result<(), wasmtime::Error>
        requires
            old(self).has_entry(),
    {
        let entry = self.entry.as_ref().unwrap().clone();
        entry.call(&mut self.store, ())
    }

    /// Hands the store and the capture-buffer handles out to an unverified
    /// host that drives the suspending flavor of this invocation itself.
    pub fn into_parts(self) -> (
        wasmtime::Store<StoreState>,
        wasmtime_wasi::p2::pipe::MemoryOutputPipe,
        wasmtime_wasi::p2::pipe::MemoryOutputPipe,
    ) {
        (self.store, self.stdout, self.stderr)
    }
}

/// Builds the fresh, isolated execution context for one invocation: the
/// program text as the whole of standard input, fresh capture buffers for
/// standard output and error, the consult-then-run-`goal` arguments, a
/// read-only view of the working directory, and a private store on the
/// runtime's engine, paired with that runtime's linkage table and module.
pub fn open_session<'a>(rt: &'a SandboxRuntime, program: String, goal: &str) -> (r: Result<
    Session<'a>,
    RenderError,
>)
    ensures
        r matches Err(e) ==> e is InitializationFailure,
{
    let stdin = pipe_stdin(program);
    let stdout = pipe_capture(capture_capacity());
    let stderr = pipe_capture(capture_capacity());
    let mut builder = builder_new();
    builder_stdin(&mut builder, stdin);
    builder_stdout(&mut builder, pipe_clone(&stdout));
    builder_stderr(&mut builder, pipe_clone(&stderr));
    let args = interpreter_args(goal);
    builder_args(&mut builder, &args);
    if let Err(e) = builder_preopen_cwd(&mut builder) {
        return Err(RenderError::InitializationFailure(error_text(&e)));
    }
    builder_env(&mut builder, "PWD", "/");
    let wasi = builder_build_p1(builder);
    let store = store_new(&rt.engine, StoreState { wasi });
    Ok(
        Session {
            store,
            linker: &rt.linker,
            module: &rt.module,
            stdout,
            stderr,
            instance: None,
            entry: None,
        },
    )
}

/// Reads both capture buffers of a finished invocation and classifies them.
/// Every successful result is the classification's success value for the
/// captured streams; output that is not valid UTF-8 is an interpreter error.
pub fn collect_output(
    stdout: &wasmtime_wasi::p2::pipe::MemoryOutputPipe,
    stderr: &wasmtime_wasi::p2::pipe::MemoryOutputPipe,
) -> (r: Result<String, RenderError>)
    ensures
        r matches Ok(s) ==> exists|o: Seq<char>, e: Seq<char>|
            classification(o, e) == Classification::Success(s@),
        r matches Err(e) ==> e is InterpreterError,
{
    let out_bytes = pipe_contents(stdout);
    let err_bytes = pipe_contents(stderr);
    let out_str = match bytes_to_string(out_bytes) {
        Some(s) => s,
        None => {
            return Err(
                RenderError::InterpreterError(String::from_str("output is not valid UTF-8")),
            );
        },
    };
    let err_str = match bytes_to_string(err_bytes) {
        Some(s) => s,
        None => {
            return Err(
                RenderError::InterpreterError(String::from_str("error output is not valid UTF-8")),
            );
        },
    };
    let ghost o = out_str@;
    let ghost e = err_str@;
    let r = classify_output(out_str, err_str);
    proof {
        match &r {
            Ok(s) => {
                assert(classification(o, e) == Classification::Success(s@));
            },
            _ => {},
        }
    }
    r
}

// ---------------------------------------------------------------------------
// The blocking engine.
// ---------------------------------------------------------------------------
/// The blocking-mode engine: one shared runtime, used by non-suspending
/// invocations.
pub struct PrologEngine {
    cell: RuntimeCell,
}

impl PrologEngine {
    /// An engine that will build its runtime from the given raw interpreter
    /// module bytes on first use.
    pub fn new(module_bytes: Vec<u8>) -> (r: Self) {
        PrologEngine { cell: RuntimeCell::new(false, module_bytes) }
    }

    /// A blocking engine over an engine and module the host prepared - for
    /// example a deserialized image from the runtime cache - ready at once.
    pub fn from_prepared(engine: wasmtime::Engine, module: wasmtime::Module) -> (r: Result<
        Self,
        RenderError,
    >)
        ensures
            r matches Err(e) ==> e is InitializationFailure,
    {
        match assemble_runtime(false, engine, module) {
            InitOutcome::Ready(rt) => Ok(PrologEngine { cell: RuntimeCell::new_ready(rt) }),
            InitOutcome::Failed(m) => Err(RenderError::InitializationFailure(m)),
        }
    }

    /// Forces runtime construction now, so the first invocation does not pay
    /// for it.  A failure here is fatal: every later use fails the same way.
    pub fn init(&self) -> (r: Result<(), RenderError>)
        ensures
            r matches Err(e) ==> e is InitializationFailure,
    {
        match self.cell.get() {
            Ok(_) => Ok(()),
            Err(e) => Err(e),
        }
    }

    /// Runs one program - the query fragments concatenated line by line -
    /// to completion inside the sandbox and classifies what it printed.
    /// Every `Ok` is the classification's success text for some pair of
    /// captured streams; failures are interpreter errors or the remembered
    /// initialization failure.
    pub fn run_prolog(&self, input: Queries) -> (r: Result<String, RenderError>)
        ensures
            r matches Ok(s) ==> exists|o: Seq<char>, e: Seq<char>|
                classification(o, e) == Classification::Success(s@),
            r matches Err(e) ==> (e is InterpreterError || e is InitializationFailure),
    {
        let goal = run_goal();
        self.run_with_full_goal(goal, input)
    }

    /// As `run_prolog`, but invoking a caller-chosen goal after the program
    /// is consulted; `halt` is appended so the virtual process terminates.
    pub fn run_prolog_goal(&self, goal: &str, input: Queries) -> (r: Result<String, RenderError>)
        ensures
            r matches Ok(s) ==> exists|o: Seq<char>, e: Seq<char>|
                classification(o, e) == Classification::Success(s@),
            r matches Err(e) ==> (e is InterpreterError || e is InitializationFailure),
    {
        let full_goal = String::from_str(goal).concat(", halt");
        self.run_with_full_goal(full_goal, input)
    }

    /// The shared invocation path, with the goal taken as it will be run.
    fn run_with_full_goal(&self, goal: String, input: Queries) -> (r: Result<String, RenderError>)
        ensures
            r matches Ok(s) ==> exists|o: Seq<char>, e: Seq<char>|
                classification(o, e) == Classification::Success(s@),
            r matches Err(e) ==> (e is InterpreterError || e is InitializationFailure),
    {
        let rt = match self.cell.get() {
            Ok(rt) => rt,
            Err(e) => {
                return Err(e);
            },
        };
        let program = assemble_program(&input);
        let mut session = match open_session(rt, program, goal.as_str()) {
            Ok(s) => s,
            Err(e) => {
                return Err(e);
            },
        };
        if let Err(e) = session.instantiate() {
            return Err(RenderError::InterpreterError(error_text(&e)));
        }
        if let Err(e) = session.fetch_entry("_start") {
            return Err(RenderError::InterpreterError(error_text(&e)));
        }
        // The guest's own exit at `halt` reaches the engine as a trap and is
        // not a failure; the captured buffers decide those runs.  Any other
        // trap is an engine-level execution failure and fails the run,
        // whatever partial output was captured.
        if let Err(e) = session.run_entry() {
            if !is_guest_exit(&e) {
                return Err(RenderError::InterpreterError(error_text(&e)));
            }
        }
        collect_output(&session.stdout, &session.stderr)
    }

    /// Runs the diagram grammar over the query fragments: the driver fragment
    /// is prepended, the program is run, and successful output is handed on
    /// as markup for the render stage, unchanged.
    pub fn process_diagram(&self, input: Queries) -> (r: Result<PikchrCode, RenderError>)
        ensures
            r matches Ok(pc) ==> exists|o: Seq<char>, e: Seq<char>|
                classification(o, e) == Classification::Success(pc@),
            r matches Err(e) ==> (e is InterpreterError || e is InitializationFailure),
    {
        let mut diagram_input = input;
        diagram_input.insert(0, diagram_init());
        match self.run_prolog(diagram_input) {
            Ok(s) => Ok(PikchrCode::new(s.as_str())),
            Err(e) => Err(e),
        }
    }
}

// ---------------------------------------------------------------------------
// The suspend-capable engine.
// ---------------------------------------------------------------------------
/// The suspend-capable engine: its runtime is built here, exactly as the
/// blocking one but carrying the suspending flavor of the OS imports;
/// driving an invocation to completion suspends and is done by the
/// unverified host on top of `open_session` and `collect_output`.
pub struct PrologEngineAsync {
    cell: RuntimeCell,
}

impl PrologEngineAsync {
    /// Every suspend-capable engine owns a cell of the suspending mode.
    #[verifier::type_invariant]
    spec fn mode_fixed(&self) -> bool {
        self.cell.suspendable_spec() == true
    }

    /// An engine that will build its suspend-capable runtime from the given
    /// raw interpreter module bytes on first use.
    pub fn new(module_bytes: Vec<u8>) -> (r: Self) {
        PrologEngineAsync { cell: RuntimeCell::new(true, module_bytes) }
    }

    /// A suspend-capable engine over an engine and module the host prepared,
    /// ready at once.
    pub fn from_prepared(engine: wasmtime::Engine, module: wasmtime::Module) -> (r: Result<
        Self,
        RenderError,
    >)
        ensures
            r matches Err(e) ==> e is InitializationFailure,
    {
        match assemble_runtime(true, engine, module) {
            InitOutcome::Ready(rt) => Ok(PrologEngineAsync { cell: RuntimeCell::new_ready(rt) }),
            InitOutcome::Failed(m) => Err(RenderError::InitializationFailure(m)),
        }
    }

    /// Forces runtime construction now; a failure is fatal and remembered.
    pub fn init(&self) -> (r: Result<(), RenderError>)
        ensures
            r matches Err(e) ==> e is InitializationFailure,
    {
        match self.cell.get() {
            Ok(_) => Ok(()),
            Err(e) => Err(e),
        }
    }

    /// The shared suspend-capable runtime, for the host's invocation loop.
    pub fn runtime(&self) -> (r: Result<&SandboxRuntime, RenderError>)
        ensures
            r matches Ok(rt) ==> rt.suspendable,
            r matches Err(e) ==> e is InitializationFailure,
    {
        proof {
            use_type_invariant(self);
        }
        self.cell.get()
    }
}

// ---------------------------------------------------------------------------
// Convenience entry points mirroring the one-engine-per-mode API.
// ---------------------------------------------------------------------------
/// Builds and initializes the blocking engine.
pub fn init_sync(module_bytes: Vec<u8>) -> (r: Result<PrologEngine, RenderError>)
    ensures
        r matches Err(e) ==> e is InitializationFailure,
{
    let engine = PrologEngine::new(module_bytes);
    match engine.init() {
        Ok(_) => Ok(engine),
        Err(e) => Err(e),
    }
}

/// Builds and initializes the suspend-capable engine.
pub fn init_async(module_bytes: Vec<u8>) -> (r: Result<PrologEngineAsync, RenderError>)
    ensures
        r matches Err(e) ==> e is InitializationFailure,
{
    let engine = PrologEngineAsync::new(module_bytes);
    match engine.init() {
        Ok(_) => Ok(engine),
        Err(e) => Err(e),
    }
}

/// Runs one user program as a diagram, blocking, with errors flattened to
/// their display text: every `Err` carries the display form of an
/// interpreter or initialization failure.
pub fn process_diagram_sync(engine: &PrologEngine, input: String) -> (r: Result<PikchrCode, String>)
    ensures
        r matches Ok(pc) ==> exists|o: Seq<char>, e: Seq<char>|
            classification(o, e) == Classification::Success(pc@),
        r matches Err(m) ==> exists|e: RenderError|
            (e is InterpreterError || e is InitializationFailure) && m@ == e.message_view(),
{
    match engine.process_diagram(vec![input]) {
        Ok(pc) => Ok(pc),
        Err(e) => {
            let text = e.message();
            proof {
                assert(text@ == e.message_view());
            }
            Err(text)
        },
    }
}

// ---------------------------------------------------------------------------
// The runtime image cache.
// ---------------------------------------------------------------------------
/// The cached form of the interpreter module: either an ahead-of-time
/// compiled image for one target, or the raw bytes unchanged.
pub struct RuntimeImage {
    pub bytes: Vec<u8>,
    pub precompiled: bool,
}

/// Prepares the cached module image for a target: attempts ahead-of-time
/// compilation, and on any failure - unsupported target, engine construction
/// failure, compiler error - falls back to the raw bytes unchanged, marked as
/// not precompiled.
pub fn prepare_runtime_image(raw: Vec<u8>, target: Option<&str>) -> (r: RuntimeImage)
    ensures
        !r.precompiled ==> r.bytes@ == raw@,
{
    let mut config = config_new();
    if let Some(triple) = &target {
        if let Err(_) = config_set_target(&mut config, triple) {
            return RuntimeImage { bytes: raw, precompiled: false };
        }
    }
    let engine = match engine_new(&config) {
        Ok(e) => e,
        Err(_) => {
            return RuntimeImage { bytes: raw, precompiled: false };
        },
    };
    match engine_precompile(&engine, raw.as_slice()) {
        Ok(compiled) => RuntimeImage { bytes: compiled, precompiled: true },
        Err(_) => RuntimeImage { bytes: raw, precompiled: false },
    }
}

} // verus!
