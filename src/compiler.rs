//! Preparation of shader sources for the external toolchain, and the
//! interpretation of what the toolchain reports.

use vstd::prelude::*;
use crate::diagnostic::{Diagnostic, DiagnosticKind, ShaderStage, SourceSpan};
use crate::position::{line_in_message, line_of_message};
use crate::template::{chars_of, has_placeholder, materialize, no_placeholder_message, substituted};

verus! {

/// The first word of every SPIR-V module.
pub const SPIRV_MAGIC: u32 = 0x0723_0203;

/// Number of words in a SPIR-V module's header.
pub const SPIRV_HEADER_WORDS: usize = 5;

/// Shader text ready to be handed to the toolchain for one stage.
#[derive(Clone, Debug)]
pub struct ShaderSource {
    pub stage: ShaderStage,
    pub text: String,
}

/// The device-consumable form of one stage: a SPIR-V word stream.
#[derive(Clone, Debug)]
pub struct CompiledArtifact {
    pub stage: ShaderStage,
    pub words: Vec<u32>,
}

/// A failure reported by the external shader toolchain, held as plain values.
#[derive(Clone, Debug)]
pub enum ToolchainError {
    /// The source did not compile; `errors` counts the errors found.
    Compilation { errors: u32, message: String },
    /// The toolchain failed internally.
    Internal(String),
    /// The stage could not be deduced or is not valid for the source.
    InvalidStage(String),
    /// An assembly text was invalid.
    InvalidAssembly(String),
    /// The toolchain produced no result object.
    NullResult(String),
    /// The compiler or its options could not be created.
    Unavailable,
}

/// `s` holds a NUL character, which the toolchain cannot take.
pub open spec fn has_nul(s: Seq<char>) -> bool {
    exists|i: int| 0 <= i < s.len() && s[i] == '\0'
}

/// `pat` stands in `s` from position `i` on.
pub open spec fn text_at(s: Seq<char>, pat: Seq<char>, i: int) -> bool {
    0 <= i && i + pat.len() <= s.len() && s.subrange(i, i + pat.len()) == pat
}

/// `pat` stands somewhere in `s`.
pub open spec fn holds_text(s: Seq<char>, pat: Seq<char>) -> bool {
    exists|i: int| text_at(s, pat, i)
}

/// A compiler report of malformed text: glslang words these as a syntax
/// error or as an undeclared identifier. Every other compilation failure is
/// about well-formed text that is semantically invalid (a type error, a
/// missing entry point, an unsupported construct).
pub open spec fn is_parse_failure(message: Seq<char>) -> bool {
    holds_text(message, "syntax error"@) || holds_text(message, "undeclared identifier"@)
}

/// The kind of diagnostic that a toolchain failure becomes.
pub open spec fn kind_of_failure(e: ToolchainError) -> DiagnosticKind {
    match e {
        ToolchainError::Compilation { message, .. } => if is_parse_failure(message@) {
            DiagnosticKind::ParseError
        } else {
            DiagnosticKind::ValidationError
        },
        ToolchainError::InvalidStage(_) => DiagnosticKind::ValidationError,
        ToolchainError::InvalidAssembly(_) => DiagnosticKind::ValidationError,
        ToolchainError::Internal(_) => DiagnosticKind::BackendError,
        ToolchainError::NullResult(_) => DiagnosticKind::BackendError,
        ToolchainError::Unavailable => DiagnosticKind::BackendError,
    }
}

/// The toolchain's own text for a failure, empty where it gave none.
pub open spec fn text_of_failure(e: ToolchainError) -> Seq<char> {
    match e {
        ToolchainError::Compilation { message, .. } => message@,
        ToolchainError::Internal(m) => m@,
        ToolchainError::InvalidStage(m) => m@,
        ToolchainError::InvalidAssembly(m) => m@,
        ToolchainError::NullResult(m) => m@,
        ToolchainError::Unavailable => Seq::empty(),
    }
}

/// The message for a failure whose toolchain text is empty.
pub open spec fn fallback_of_failure(e: ToolchainError) -> Seq<char> {
    match e {
        ToolchainError::Compilation { .. } => "compilation error"@,
        ToolchainError::Internal(_) => "internal toolchain error"@,
        ToolchainError::InvalidStage(_) => "invalid shader stage"@,
        ToolchainError::InvalidAssembly(_) => "invalid assembly"@,
        ToolchainError::NullResult(_) => "the toolchain returned no result"@,
        ToolchainError::Unavailable => "the shader compiler could not be initialised"@,
    }
}

/// The message a failure is reported with: the toolchain's text where there
/// is one.
pub open spec fn message_of_failure(e: ToolchainError) -> Seq<char> {
    if text_of_failure(e).len() > 0 {
        text_of_failure(e)
    } else {
        fallback_of_failure(e)
    }
}

/// The message for a word stream that is no SPIR-V module.
pub open spec fn not_spirv_message() -> Seq<char> {
    "the toolchain produced no SPIR-V module"@
}

/// The message for a vertex source that holds a NUL character.
pub open spec fn vertex_nul_message() -> Seq<char> {
    "the vertex source holds a NUL character"@
}

/// The message for a fragment source that holds a NUL character.
pub open spec fn fragment_nul_message() -> Seq<char> {
    "the fragment source holds a NUL character"@
}

/// The position that a toolchain failure points at: the line that a
/// compilation error's text gives, where it gives one.
pub open spec fn span_of_failure(e: ToolchainError) -> Option<SourceSpan> {
    match e {
        ToolchainError::Compilation { message, .. } => match line_of_message(message@) {
            Some(n) => Some(SourceSpan { line: n as u32, column: None }),
            None => None,
        },
        _ => None,
    }
}

/// A word stream that starts as a SPIR-V module does: a header of five
/// words, the first of them the magic number.
pub open spec fn is_spirv(words: Seq<u32>) -> bool {
    words.len() >= SPIRV_HEADER_WORDS && words[0] == SPIRV_MAGIC
}

/// `d` is the diagnostic that the toolchain outcome `outcome` is reported
/// with, where that outcome gives no artifact.
pub open spec fn reports(outcome: Result<Vec<u32>, ToolchainError>, d: Diagnostic) -> bool {
    match outcome {
        Ok(_) => d.kind == DiagnosticKind::BackendError && d.message@ == not_spirv_message()
            && d.span is None,
        Err(e) => d.kind == kind_of_failure(e) && d.span == span_of_failure(e) && d.message@
            == message_of_failure(e),
    }
}

/// Whether `s` holds a NUL character.
pub fn contains_nul(s: &str) -> (r: bool)
    ensures
        r == has_nul(s@),
{
    let chars = chars_of(s);
    let mut i: usize = 0;
    while i < chars.len()
        invariant
            chars@ == s@,
            i <= chars@.len(),
            forall|j: int| 0 <= j < i ==> chars@[j] != '\0',
        decreases chars.len() - i,
    {
        if chars[i] == '\0' {
            return true;
        }
        i = i + 1;
    }
    false
}

/// Whether `pat` stands in `s` from position `i` on.
fn text_at_exec(s: &Vec<char>, pat: &Vec<char>, i: usize) -> (r: bool)
    ensures
        r == text_at(s@, pat@, i as int),
{
    if pat.len() > s.len() || i > s.len() - pat.len() {
        return false;
    }
    let mut k: usize = 0;
    while k < pat.len()
        invariant
            i + pat.len() <= s.len(),
            k <= pat.len(),
            forall|j: int| 0 <= j < k ==> s@[i + j] == pat@[j],
        decreases pat.len() - k,
    {
        if s[i + k] != pat[k] {
            proof {
                let w = s@.subrange(i as int, i + pat.len());
                assert(w[k as int] == s@[i + k]);
            }
            return false;
        }
        k = k + 1;
    }
    proof {
        assert(s@.subrange(i as int, i + pat.len()) =~= pat@);
    }
    true
}

/// Whether `pat` stands somewhere in `s`.
pub fn contains_text(s: &str, pat: &str) -> (r: bool)
    ensures
        r == holds_text(s@, pat@),
{
    let sc = chars_of(s);
    let pc = chars_of(pat);
    if pc.len() == 0 {
        assert(s@.subrange(0, 0) =~= pat@);
        assert(text_at(s@, pat@, 0));
        return true;
    }
    let mut i: usize = 0;
    while i < sc.len()
        invariant
            sc@ == s@,
            pc@ == pat@,
            pc@.len() > 0,
            forall|j: int| 0 <= j < i ==> !text_at(s@, pat@, j),
        decreases sc.len() - i,
    {
        if text_at_exec(&sc, &pc, i) {
            return true;
        }
        i = i + 1;
    }
    assert forall|j: int| !text_at(s@, pat@, j) by {
        if j >= sc.len() {
            assert(!text_at(s@, pat@, j));
        }
    }
    false
}

/// The vertex stage's source, ready for the toolchain.
pub fn load_vertex_shader(source: &str) -> (r: Result<ShaderSource, Diagnostic>)
    ensures
        r is Ok <==> !has_nul(source@),
        r matches Ok(src) ==> src.stage == ShaderStage::Vertex && src.text@ == source@,
        r matches Err(d) ==> d.kind == DiagnosticKind::ParseError && d.message@
            == vertex_nul_message() && d.span is None,
{
    if contains_nul(source) {
        return Err(
            Diagnostic::new(
                DiagnosticKind::ParseError,
                String::from_str("the vertex source holds a NUL character"),
            ),
        );
    }
    Ok(ShaderSource { stage: ShaderStage::Vertex, text: String::from_str(source) })
}

/// The fragment stage's source: `template` with `content` substituted for
/// its placeholder, ready for the toolchain.
pub fn load_fragment_shader(template: &str, content: &str) -> (r: Result<ShaderSource, Diagnostic>)
    ensures
        r is Ok <==> has_placeholder(template@) && !has_nul(substituted(template@, content@)),
        r matches Ok(src) ==> src.stage == ShaderStage::Fragment && src.text@ == substituted(
            template@,
            content@,
        ),
        r matches Err(d) ==> d.kind == if has_placeholder(template@) {
            DiagnosticKind::ParseError
        } else {
            DiagnosticKind::TemplateError
        },
        r matches Err(d) ==> d.message@ == if has_placeholder(template@) {
            fragment_nul_message()
        } else {
            no_placeholder_message()
        },
        r matches Err(d) ==> d.span is None,
{
    match materialize(template, content) {
        Err(d) => Err(d),
        Ok(text) => {
            if contains_nul(text.as_str()) {
                Err(
                    Diagnostic::new(
                        DiagnosticKind::ParseError,
                        String::from_str("the fragment source holds a NUL character"),
                    ),
                )
            } else {
                Ok(ShaderSource { stage: ShaderStage::Fragment, text })
            }
        },
    }
}

/// The diagnostic that a toolchain failure is reported as. Its message is the
/// toolchain's text where there is one, and never empty.
pub fn diagnose(e: &ToolchainError) -> (d: Diagnostic)
    ensures
        d.kind == kind_of_failure(*e),
        d.span == span_of_failure(*e),
        d.message@ == message_of_failure(*e),
        d.message@.len() > 0,
{
    let kind = match e {
        ToolchainError::Compilation { message, .. } => {
            if contains_text(message.as_str(), "syntax error") || contains_text(
                message.as_str(),
                "undeclared identifier",
            ) {
                DiagnosticKind::ParseError
            } else {
                DiagnosticKind::ValidationError
            }
        },
        ToolchainError::InvalidStage(_) => DiagnosticKind::ValidationError,
        ToolchainError::InvalidAssembly(_) => DiagnosticKind::ValidationError,
        ToolchainError::Internal(_) => DiagnosticKind::BackendError,
        ToolchainError::NullResult(_) => DiagnosticKind::BackendError,
        ToolchainError::Unavailable => DiagnosticKind::BackendError,
    };
    let (text, fallback) = match e {
        ToolchainError::Compilation { message, .. } => (message.as_str(), "compilation error"),
        ToolchainError::Internal(m) => (m.as_str(), "internal toolchain error"),
        ToolchainError::InvalidStage(m) => (m.as_str(), "invalid shader stage"),
        ToolchainError::InvalidAssembly(m) => (m.as_str(), "invalid assembly"),
        ToolchainError::NullResult(m) => (m.as_str(), "the toolchain returned no result"),
        ToolchainError::Unavailable => ("", "the shader compiler could not be initialised"),
    };
    proof {
        reveal_strlit("");
        reveal_strlit("compilation error");
        reveal_strlit("internal toolchain error");
        reveal_strlit("invalid shader stage");
        reveal_strlit("invalid assembly");
        reveal_strlit("the toolchain returned no result");
        reveal_strlit("the shader compiler could not be initialised");
    }
    let message = if text.is_empty() {
        String::from_str(fallback)
    } else {
        String::from_str(text)
    };
    let span = match e {
        ToolchainError::Compilation { message, .. } => match line_in_message(message.as_str()) {
            Some(line) => Some(SourceSpan { line, column: None }),
            None => None,
        },
        _ => None,
    };
    Diagnostic { kind, message, span }
}

/// The artifact for `stage` from what the toolchain returned: the word stream
/// where it is a SPIR-V module, else the failure as a diagnostic.
pub fn convert_shader(
    stage: ShaderStage,
    outcome: Result<Vec<u32>, ToolchainError>,
) -> (r: Result<CompiledArtifact, Diagnostic>)
    ensures
        r is Ok <==> (outcome matches Ok(w) && is_spirv(w@)),
        r matches Ok(a) ==> a.stage == stage && outcome is Ok && a.words@ == outcome->Ok_0@,
        r matches Err(d) ==> reports(outcome, d),
        r matches Err(d) ==> d.message@.len() > 0,
{
    match outcome {
        Ok(words) => {
            if words.len() >= SPIRV_HEADER_WORDS && words[0] == SPIRV_MAGIC {
                Ok(CompiledArtifact { stage, words })
            } else {
                proof {
                    reveal_strlit("the toolchain produced no SPIR-V module");
                }
                Err(
                    Diagnostic::new(
                        DiagnosticKind::BackendError,
                        String::from_str("the toolchain produced no SPIR-V module"),
                    ),
                )
            }
        },
        Err(e) => Err(diagnose(&e)),
    }
}

} // verus!
