//! Shader stages and the diagnostics that a failed reload reports.

use vstd::prelude::*;

verus! {

/// The programmable stage that a shader source is compiled for.
#[derive(Clone, Copy, Debug, PartialEq, Eq, Structural)]
pub enum ShaderStage {
    Vertex,
    Fragment,
}

/// What went wrong during a reload attempt.
#[derive(Clone, Copy, Debug, PartialEq, Eq, Structural)]
pub enum DiagnosticKind {
    /// The shading-language text is malformed.
    ParseError,
    /// The text is well formed but semantically invalid for its stage.
    ValidationError,
    /// The template holds no placeholder or could not be read.
    TemplateError,
    /// A source location could not be read.
    IoError,
    /// The toolchain or the device failed for a reason unrelated to the text.
    BackendError,
}

/// A position inside shader source text, counted from one. The column is
/// absent where the toolchain gives only the line.
#[derive(Clone, Copy, Debug, PartialEq, Eq, Structural)]
pub struct SourceSpan {
    pub line: u32,
    pub column: Option<u32>,
}

/// A failure report: its kind, display text and, where known, where it points.
#[derive(Clone, Debug)]
pub struct Diagnostic {
    pub kind: DiagnosticKind,
    pub message: String,
    pub span: Option<SourceSpan>,
}

impl Diagnostic {
    /// A diagnostic without a source position.
    pub fn new(kind: DiagnosticKind, message: String) -> (d: Diagnostic)
        ensures
            d.kind == kind,
            d.message@ == message@,
            d.span is None,
    {
        Diagnostic { kind, message, span: None }
    }

    /// An equal copy of this diagnostic.
    pub fn duplicate(&self) -> (d: Diagnostic)
        ensures
            d == *self,
    {
        Diagnostic { kind: self.kind, message: self.message.clone(), span: self.span }
    }
}

} // verus!
