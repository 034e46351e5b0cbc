//! What a pipeline is built from: a vertex and a fragment artifact and the
//! fixed resource layout of one uniform buffer. The device work itself is
//! the caller's.

use vstd::prelude::*;
use crate::compiler::CompiledArtifact;
use crate::diagnostic::{Diagnostic, DiagnosticKind, ShaderStage};

verus! {

/// Binding slot of the uniform buffer.
pub const UNIFORM_BINDING: u32 = 0;

/// Number of 32-bit values in the uniform buffer.
pub const UNIFORM_WORDS: u32 = 52;

/// Vertices drawn per frame, without an index buffer.
pub const DRAW_VERTEX_COUNT: u32 = 6;

/// Everything the device needs to build one pipeline.
#[derive(Clone, Debug)]
pub struct PipelinePlan {
    pub vertex_words: Vec<u32>,
    pub fragment_words: Vec<u32>,
    /// The stage that sees the uniform buffer.
    pub uniform_visibility: ShaderStage,
    pub uniform_binding: u32,
    /// Size of the uniform buffer in bytes.
    pub uniform_size: u32,
    pub vertex_count: u32,
}

/// The pair is a vertex artifact followed by a fragment artifact.
pub open spec fn stages_match(vertex: CompiledArtifact, fragment: CompiledArtifact) -> bool {
    vertex.stage == ShaderStage::Vertex && fragment.stage == ShaderStage::Fragment
}

/// The plan for a pipeline from `vertex` and `fragment`, which must be a
/// vertex and a fragment artifact in that order.
pub fn plan_pipeline(
    vertex: CompiledArtifact,
    fragment: CompiledArtifact,
) -> (r: Result<PipelinePlan, Diagnostic>)
    ensures
        r is Ok <==> stages_match(vertex, fragment),
        r matches Ok(p) ==> p.vertex_words@ == vertex.words@ && p.fragment_words@
            == fragment.words@ && p.uniform_visibility == ShaderStage::Fragment
            && p.uniform_binding == UNIFORM_BINDING && p.uniform_size == 4 * UNIFORM_WORDS
            && p.vertex_count == DRAW_VERTEX_COUNT,
        r matches Err(d) ==> d.kind == DiagnosticKind::ValidationError,
{
    if vertex.stage != ShaderStage::Vertex || fragment.stage != ShaderStage::Fragment {
        return Err(
            Diagnostic::new(
                DiagnosticKind::ValidationError,
                String::from_str("a pipeline takes a vertex and a fragment artifact, in that order"),
            ),
        );
    }
    Ok(
        PipelinePlan {
            vertex_words: vertex.words,
            fragment_words: fragment.words,
            uniform_visibility: ShaderStage::Fragment,
            uniform_binding: UNIFORM_BINDING,
            uniform_size: 4 * UNIFORM_WORDS,
            vertex_count: DRAW_VERTEX_COUNT,
        },
    )
}

} // verus!
