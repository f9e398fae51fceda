use vstd::prelude::*;

verus! {

/// How the vertices of a draw are assembled into primitives.
#[derive(Clone, Copy, Debug, PartialEq, Eq, Structural)]
pub enum PrimitiveTopology {
    PointList,
    LineList,
    LineStrip,
    TriangleList,
    TriangleStrip,
}

impl PrimitiveTopology {
    pub open spec fn spec_is_strip(self) -> bool {
        self is LineStrip || self is TriangleStrip
    }

    /// Whether adjacent primitives share vertices.
    #[verifier::when_used_as_spec(spec_is_strip)]
    pub fn is_strip(self) -> (r: bool)
        ensures
            r == self.spec_is_strip(),
    {
        match self {
            PrimitiveTopology::LineStrip | PrimitiveTopology::TriangleStrip => true,
            _ => false,
        }
    }
}

/// Width of the index value that restarts a strip.
#[derive(Clone, Copy, Debug, PartialEq, Eq, Structural)]
pub enum IndexFormat {
    Uint16,
    Uint32,
}

/// Shader code, as text or as a compiled binary.
#[derive(Clone, Debug)]
pub enum ShaderSource {
    /// WGSL source text.
    Wgsl(String),
    /// SPIR-V words.
    SpirV(Vec<u32>),
}

/// What the caller chooses about the one render pipeline. The shader must
/// provide a vertex entry point named [`VERTEX_ENTRY`] and a fragment entry
/// point named [`FRAGMENT_ENTRY`].
#[derive(Clone, Debug)]
pub struct Inputs {
    pub source: ShaderSource,
    pub topology: PrimitiveTopology,
    pub strip_index_format: Option<IndexFormat>,
}

/// The entry point of the vertex stage.
pub const VERTEX_ENTRY: &'static str = "vs_main";

/// The entry point of the fragment stage.
pub const FRAGMENT_ENTRY: &'static str = "fs_main";

/// The render pipeline that setup builds: both stages from the one shader
/// module, no vertex buffers, an empty layout, one color target in the
/// surface's format, no depth or stencil, one sample per pixel, no multiview.
#[derive(Clone, Copy, Debug)]
pub struct PipelinePlan {
    pub vertex_entry: &'static str,
    pub fragment_entry: &'static str,
    pub topology: PrimitiveTopology,
    pub strip_index_format: Option<IndexFormat>,
    pub color_format: wgpu::TextureFormat,
    pub sample_count: u32,
}

impl PipelinePlan {
    /// The pipeline for `inputs`, drawing into targets of `color_format`.
    pub fn new(inputs: &Inputs, color_format: wgpu::TextureFormat) -> (r: PipelinePlan)
        ensures
            r.vertex_entry@ == VERTEX_ENTRY@,
            r.fragment_entry@ == FRAGMENT_ENTRY@,
            r.topology == inputs.topology,
            r.strip_index_format == inputs.strip_index_format,
            r.color_format == color_format,
            r.sample_count == 1,
    {
        PipelinePlan {
            vertex_entry: VERTEX_ENTRY,
            fragment_entry: FRAGMENT_ENTRY,
            topology: inputs.topology,
            strip_index_format: inputs.strip_index_format,
            color_format,
            sample_count: 1,
        }
    }
}

} // verus!
