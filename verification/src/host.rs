//! The trusted surface over the foreign execution engine and its virtualized
//! OS layer: type declarations and one wrapper per foreign function.
//!
//! Everything here is believed, not proved; each wrapper's doc comment names
//! the foreign function relied on.  The values these wrappers hand around are
//! opaque to the verifier and only flow between wrappers.

use vstd::prelude::*;

verus! {

// ---------------------------------------------------------------------------
// Declarations of the foreign engine's types.  They are opaque to the
// verifier; values of them are only carried between trusted wrappers.
// ---------------------------------------------------------------------------
#[verifier::external_type_specification]
#[verifier::external_body]
pub struct ExConfig(wasmtime::Config);

#[verifier::external_type_specification]
#[verifier::external_body]
pub struct ExEngine(wasmtime::Engine);

#[verifier::external_type_specification]
#[verifier::external_body]
pub struct ExModule(wasmtime::Module);

#[verifier::external_type_specification]
#[verifier::external_body]
#[verifier::reject_recursive_types(T)]
pub struct ExLinker<T>(wasmtime::Linker<T>);

#[verifier::external_type_specification]
#[verifier::external_body]
#[verifier::reject_recursive_types(T)]
pub struct ExStore<T: 'static>(wasmtime::Store<T>);

#[verifier::external_type_specification]
#[verifier::external_body]
pub struct ExInstance(wasmtime::Instance);

#[verifier::external_type_specification]
#[verifier::external_body]
#[verifier::reject_recursive_types(Params)]
#[verifier::reject_recursive_types(Results)]
pub struct ExTypedFunc<Params, Results>(wasmtime::TypedFunc<Params, Results>);

#[verifier::external_type_specification]
#[verifier::external_body]
pub struct ExWasmtimeError(wasmtime::Error);

#[verifier::external_type_specification]
#[verifier::external_body]
pub struct ExWasiP1Ctx(wasmtime_wasi::p1::WasiP1Ctx);

#[verifier::external_type_specification]
#[verifier::external_body]
pub struct ExWasiCtxBuilder(wasmtime_wasi::WasiCtxBuilder);

#[verifier::external_type_specification]
#[verifier::external_body]
pub struct ExMemoryInputPipe(wasmtime_wasi::p2::pipe::MemoryInputPipe);

#[verifier::external_type_specification]
#[verifier::external_body]
pub struct ExMemoryOutputPipe(wasmtime_wasi::p2::pipe::MemoryOutputPipe);

#[verifier::external_type_specification]
#[verifier::external_body]
#[verifier::reject_recursive_types(T)]
pub struct ExOnceLock<T>(std::sync::OnceLock<T>);

/// The per-invocation store state: the virtualized OS surface handed to the
/// linkage table's import functions.
pub struct StoreState {
    pub wasi: wasmtime_wasi::p1::WasiP1Ctx,
}

// ---------------------------------------------------------------------------
// Trusted wrappers, one per foreign function.
// ---------------------------------------------------------------------------
/// Relies on `wasmtime::Config::new`: a fresh default engine configuration.
#[verifier::external_body]
pub(crate) fn config_new() -> wasmtime::Config {
    wasmtime::Config::new()
}

/// Relies on `wasmtime::Config::memory_reservation`: bounds the virtual
/// address space reserved up front for each guest linear memory; growth
/// beyond it still works, by moving the memory.
#[verifier::external_body]
pub(crate) fn config_set_memory_reservation(c: &mut wasmtime::Config, bytes: u64) {
    c.memory_reservation(bytes);
}

/// Relies on `wasmtime::Config::target`: selects the compilation target, or
/// reports that the triple is unsupported.
#[verifier::external_body]
pub(crate) fn config_set_target(c: &mut wasmtime::Config, triple: &str) -> Result<
    (),
    wasmtime::Error,
> {
    match c.target(triple) {
        Ok(_) => Ok(()),
        Err(e) => Err(e),
    }
}

/// Relies on `wasmtime::Engine::new`: builds the execution engine for a
/// configuration.
#[verifier::external_body]
pub(crate) fn engine_new(c: &wasmtime::Config) -> Result<wasmtime::Engine, wasmtime::Error> {
    wasmtime::Engine::new(c)
}

/// Relies on `wasmtime::Engine::precompile_module`: ahead-of-time compiles
/// raw module bytes for the engine's target.
#[verifier::external_body]
pub(crate) fn engine_precompile(e: &wasmtime::Engine, bytes: &[u8]) -> Result<
    Vec<u8>,
    wasmtime::Error,
> {
    e.precompile_module(bytes)
}

/// Relies on `wasmtime::Module::new`: compiles raw module bytes.
#[verifier::external_body]
pub(crate) fn module_new(e: &wasmtime::Engine, bytes: &[u8]) -> Result<
    wasmtime::Module,
    wasmtime::Error,
> {
    wasmtime::Module::new(e, bytes)
}

/// Relies on `wasmtime::Linker::new`: a fresh linkage table for the engine.
#[verifier::external_body]
pub(crate) fn linker_new(e: &wasmtime::Engine) -> wasmtime::Linker<StoreState> {
    wasmtime::Linker::new(e)
}

/// Relies on `wasmtime_wasi::p1::add_to_linker_sync`: adds the blocking
/// implementations of the virtualized OS imports to the linkage table.
#[verifier::external_body]
pub(crate) fn linker_add_wasi_sync(l: &mut wasmtime::Linker<StoreState>) -> Result<
    (),
    wasmtime::Error,
> {
    wasmtime_wasi::p1::add_to_linker_sync(l, |s: &mut StoreState| &mut s.wasi)
}

/// Relies on `wasmtime_wasi::p1::add_to_linker_async`: adds the suspending
/// implementations of the virtualized OS imports to the linkage table.
#[verifier::external_body]
pub(crate) fn linker_add_wasi_async(l: &mut wasmtime::Linker<StoreState>) -> Result<
    (),
    wasmtime::Error,
> {
    wasmtime_wasi::p1::add_to_linker_async(l, |s: &mut StoreState| &mut s.wasi)
}

/// Relies on `MemoryInputPipe::new`: an in-memory standard-input stream
/// holding exactly the given text.
#[verifier::external_body]
pub(crate) fn pipe_stdin(text: String) -> wasmtime_wasi::p2::pipe::MemoryInputPipe {
    wasmtime_wasi::p2::pipe::MemoryInputPipe::new(text)
}

/// Relies on `MemoryOutputPipe::new`: a fresh bounded in-memory capture
/// buffer.
#[verifier::external_body]
pub(crate) fn pipe_capture(capacity: usize) -> wasmtime_wasi::p2::pipe::MemoryOutputPipe {
    wasmtime_wasi::p2::pipe::MemoryOutputPipe::new(capacity)
}

/// Relies on `MemoryOutputPipe::clone`: a second handle to the same capture
/// buffer, so the buffer can be read after the context consumed the original.
#[verifier::external_body]
pub(crate) fn pipe_clone(
    p: &wasmtime_wasi::p2::pipe::MemoryOutputPipe,
) -> wasmtime_wasi::p2::pipe::MemoryOutputPipe {
    p.clone()
}

/// Relies on `MemoryOutputPipe::contents`: the bytes captured so far.
#[verifier::external_body]
pub(crate) fn pipe_contents(p: &wasmtime_wasi::p2::pipe::MemoryOutputPipe) -> Vec<u8> {
    p.contents().to_vec()
}

/// Relies on `WasiCtxBuilder::new`: a fresh context builder.
#[verifier::external_body]
pub(crate) fn builder_new() -> wasmtime_wasi::WasiCtxBuilder {
    wasmtime_wasi::WasiCtxBuilder::new()
}

/// Relies on `WasiCtxBuilder::stdin`: installs the given standard input.
#[verifier::external_body]
pub(crate) fn builder_stdin(
    b: &mut wasmtime_wasi::WasiCtxBuilder,
    p: wasmtime_wasi::p2::pipe::MemoryInputPipe,
) {
    b.stdin(p);
}

/// Relies on `WasiCtxBuilder::stdout`: installs the given standard output.
#[verifier::external_body]
pub(crate) fn builder_stdout(
    b: &mut wasmtime_wasi::WasiCtxBuilder,
    p: wasmtime_wasi::p2::pipe::MemoryOutputPipe,
) {
    b.stdout(p);
}

/// Relies on `WasiCtxBuilder::stderr`: installs the given standard error.
#[verifier::external_body]
pub(crate) fn builder_stderr(
    b: &mut wasmtime_wasi::WasiCtxBuilder,
    p: wasmtime_wasi::p2::pipe::MemoryOutputPipe,
) {
    b.stderr(p);
}

/// Relies on `WasiCtxBuilder::args`: sets the virtual process arguments.
#[verifier::external_body]
pub(crate) fn builder_args(b: &mut wasmtime_wasi::WasiCtxBuilder, args: &Vec<String>) {
    b.args(args);
}

/// Relies on `WasiCtxBuilder::env`: sets one environment variable.
#[verifier::external_body]
pub(crate) fn builder_env(b: &mut wasmtime_wasi::WasiCtxBuilder, key: &str, value: &str) {
    b.env(key, value);
}

/// Relies on `WasiCtxBuilder::preopened_dir`: exposes the current working
/// directory read-only as the guest's root.
#[verifier::external_body]
pub(crate) fn builder_preopen_cwd(b: &mut wasmtime_wasi::WasiCtxBuilder) -> Result<
    (),
    wasmtime::Error,
> {
    match b.preopened_dir(
        ".",
        "/",
        wasmtime_wasi::DirPerms::READ,
        wasmtime_wasi::FilePerms::READ,
    ) {
        Ok(_) => Ok(()),
        Err(e) => Err(e),
    }
}

/// Relies on `WasiCtxBuilder::build_p1`: finishes the builder into a
/// virtualized OS context.  Building a builder twice panics, so the builder
/// is taken by value: a second build of the same builder cannot be written.
#[verifier::external_body]
pub(crate) fn builder_build_p1(b: wasmtime_wasi::WasiCtxBuilder) -> wasmtime_wasi::p1::WasiP1Ctx {
    let mut b = b;
    b.build_p1()
}

/// Relies on `wasmtime::Store::new`: a fresh private store holding the
/// per-invocation state.
#[verifier::external_body]
pub(crate) fn store_new(e: &wasmtime::Engine, st: StoreState) -> wasmtime::Store<StoreState> {
    wasmtime::Store::new(e, st)
}

/// Relies on `String::from_utf8`: returns the decoding exactly when the
/// bytes are valid UTF-8, stated over vstd's model of UTF-8.
#[verifier::external_body]
pub(crate) fn bytes_to_string(v: Vec<u8>) -> (r: Option<String>)
    ensures
        r is Some <==> vstd::utf8::valid_utf8(v@),
        r matches Some(s) ==> s@ == vstd::utf8::decode_utf8(v@),
{
    String::from_utf8(v).ok()
}

/// Relies on `wasmtime::Error::downcast_ref` and `wasmtime_wasi::I32Exit`:
/// whether a failed entry call was the guest's own exit (the `halt` at the
/// end of every goal reaches the engine as an exit trap), as opposed to an
/// engine-level execution failure.
#[verifier::external_body]
pub(crate) fn is_guest_exit(e: &wasmtime::Error) -> bool {
    e.downcast_ref::<wasmtime_wasi::I32Exit>().is_some()
}

/// Relies on the `Display` form of `wasmtime::Error`: the engine's own
/// description of the failure.
#[verifier::external_body]
pub(crate) fn error_text(e: &wasmtime::Error) -> String {
    format!("{}", e)
}

} // verus!
