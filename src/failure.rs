use vstd::prelude::*;

verus! {

/// Why the renderer stops. Every failure is fatal: nothing is retried.
#[derive(Clone, Copy, Debug, PartialEq, Eq, Structural)]
pub enum Failure {
    /// No adapter is compatible with the surface.
    AdapterUnavailable,
    /// The adapter cannot give a device with the default features and limits.
    DeviceUnsupported,
    /// The surface has no preferred format on this adapter.
    NoSurfaceFormat,
    /// The backend refused the shader module.
    ShaderRejected,
    /// The backend refused the render pipeline (a missing entry point, a
    /// strip index format on a list topology, ...).
    PipelineRejected,
    /// No frame could be taken from the surface for a redraw.
    FrameUnavailable,
}

} // verus!
