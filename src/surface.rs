use vstd::prelude::*;

verus! {

/// The pixel format that the surface prefers; chosen by the GPU backend and
/// only carried through by this library.
#[verifier::external_type_specification]
#[verifier::external_body]
pub struct ExTextureFormat(wgpu::TextureFormat);

/// How finished frames are queued for display.
#[derive(Clone, Copy, Debug, PartialEq, Eq, Structural)]
pub enum PresentMode {
    /// Shown at once; may tear.
    Immediate,
    /// Low latency without tearing: the newest frame replaces a queued one.
    Mailbox,
    /// Queued behind the display's vertical blank.
    Fifo,
}

/// The presentation configuration of the window's surface. Its usage is
/// always "render attachment": the surface is only ever drawn into.
#[derive(Clone, Copy, Debug, PartialEq, Eq)]
pub struct SurfaceSettings {
    pub format: wgpu::TextureFormat,
    pub width: u32,
    pub height: u32,
    pub present_mode: PresentMode,
}

impl SurfaceSettings {
    /// The configuration that setup applies for a window of the given size:
    /// the surface's preferred format and the low-latency mailbox mode.
    pub fn new(format: wgpu::TextureFormat, width: u32, height: u32) -> (r: SurfaceSettings)
        ensures
            r.format == format,
            r.width == width,
            r.height == height,
            r.present_mode == PresentMode::Mailbox,
    {
        SurfaceSettings { format, width, height, present_mode: PresentMode::Mailbox }
    }

    /// The same configuration for a window resized to `width` by `height`.
    pub fn resized(&self, width: u32, height: u32) -> (r: SurfaceSettings)
        ensures
            r == (SurfaceSettings { width, height, ..*self }),
    {
        SurfaceSettings { width, height, ..*self }
    }
}

} // verus!
