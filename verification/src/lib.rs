//! A two-stage diagram compilation library: Prolog source is executed inside a
//! WASM-sandboxed interpreter to produce pikchr markup, which a native layout
//! engine renders to a vector image.  This crate holds the verified core: the
//! interpreter invocation protocol, output classification, the staleness-gated
//! pipeline primitives, and the editor-side text logic.

pub mod buffered;
pub mod editor;
pub mod engine;
pub mod error;
pub mod heredoc;
pub mod highlight;
pub mod host;
pub mod invoke;
pub mod modules;
pub mod pipeline;
pub mod render;
pub mod slot;
pub mod string_ext;
pub mod text;
