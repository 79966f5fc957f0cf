//! Error taxonomy of the compilation pipeline.

use vstd::prelude::*;

verus! {

/// A failure of one stage of the pipeline.
///
/// `InterpreterError` carries the text of a failed sandboxed run,
/// `NativeRenderError` the text the layout engine produced for a rejected
/// markup, `EmptyResult` marks a well-formed but empty diagram, `FormatError`
/// an internal text-assembly failure, and `InitializationFailure` a fatal
/// failure to construct a subsystem.
#[derive(Debug, Clone)]
pub enum RenderError {
    InterpreterError(String),
    NativeRenderError(String),
    EmptyResult,
    FormatError,
    InitializationFailure(String),
}

impl RenderError {
    /// A display form of the error, used by unverified front ends.
    pub fn message(&self) -> (r: String)
        ensures
            match self {
                RenderError::InterpreterError(m) => r@ == "Prolog error: "@ + m@,
                RenderError::NativeRenderError(m) => r@ == "Pikchr error: "@ + m@,
                RenderError::EmptyResult => r@ == "empty diagram"@,
                RenderError::FormatError => r@ == "format error"@,
                RenderError::InitializationFailure(m) => r@ == "initialization failure: "@ + m@,
            },
    {
        match self {
            RenderError::InterpreterError(m) => String::from_str("Prolog error: ").concat(
                m.as_str(),
            ),
            RenderError::NativeRenderError(m) => String::from_str("Pikchr error: ").concat(
                m.as_str(),
            ),
            RenderError::EmptyResult => String::from_str("empty diagram"),
            RenderError::FormatError => String::from_str("format error"),
            RenderError::InitializationFailure(m) => String::from_str(
                "initialization failure: ",
            ).concat(m.as_str()),
        }
    }
}

/// An error surfaced to the editor front end.
#[derive(Debug, Clone)]
pub enum ApplicationError {
    SaveFailure,
    PikchrPrologError(RenderError),
    PikchrError(String),
    PikchrEmpty,
    FileLoadFailure(String),
    Unknown,
}

impl ApplicationError {
    /// A display form of the error, used by unverified front ends.
    pub fn message(&self) -> (r: String)
        ensures
            match self {
                ApplicationError::SaveFailure => r@ == "SAVE UNSUCCESSFUL"@,
                ApplicationError::PikchrPrologError(e) => r@ == "PikchrProlog error: "@
                    + e.message_view(),
                ApplicationError::PikchrError(m) => r@ == "Pikchr render error: "@ + m@,
                ApplicationError::PikchrEmpty => r@ == "Pikchr render is empty"@,
                ApplicationError::FileLoadFailure(p) => r@ == "Failed to load file "@ + p@,
                ApplicationError::Unknown => r@ == "unknown error"@,
            },
    {
        match self {
            ApplicationError::SaveFailure => String::from_str("SAVE UNSUCCESSFUL"),
            ApplicationError::PikchrPrologError(e) => String::from_str(
                "PikchrProlog error: ",
            ).concat(e.message().as_str()),
            ApplicationError::PikchrError(m) => String::from_str("Pikchr render error: ").concat(
                m.as_str(),
            ),
            ApplicationError::PikchrEmpty => String::from_str("Pikchr render is empty"),
            ApplicationError::FileLoadFailure(p) => String::from_str(
                "Failed to load file ",
            ).concat(p.as_str()),
            ApplicationError::Unknown => String::from_str("unknown error"),
        }
    }
}

impl RenderError {
    /// The view of `message`, for use in contracts about `ApplicationError`.
    pub open spec fn message_view(&self) -> Seq<char> {
        match self {
            RenderError::InterpreterError(m) => "Prolog error: "@ + m@,
            RenderError::NativeRenderError(m) => "Pikchr error: "@ + m@,
            RenderError::EmptyResult => "empty diagram"@,
            RenderError::FormatError => "format error"@,
            RenderError::InitializationFailure(m) => "initialization failure: "@ + m@,
        }
    }
}

} // verus!
