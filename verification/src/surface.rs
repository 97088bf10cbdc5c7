//! The surface configuration that the controller keeps and resizes.

use vstd::prelude::*;
use crate::event::PhysicalSize;

verus! {

/// `wgpu::TextureFormat`, carried through unread: the controller hands the
/// format that the host derived on to the pipeline and to the surface.
/// Nothing is assumed of its values.
#[verifier::external_type_specification]
#[verifier::external_body]
pub struct ExTextureFormat(wgpu::TextureFormat);

/// The agreement between surface and device: pixel size and colour format.
#[derive(Clone, Copy, Debug, PartialEq, Eq)]
pub struct SurfaceConfig {
    pub width: u32,
    pub height: u32,
    pub format: wgpu::TextureFormat,
}

impl SurfaceConfig {
    /// The configuration with the dimensions replaced and the format kept.
    pub open spec fn resized(self, size: PhysicalSize) -> SurfaceConfig {
        SurfaceConfig { width: size.width, height: size.height, format: self.format }
    }

    /// Builds a configuration from its parts.
    pub fn new(width: u32, height: u32, format: wgpu::TextureFormat) -> (config: SurfaceConfig)
        ensures
            config == (SurfaceConfig { width, height, format }),
    {
        SurfaceConfig { width, height, format }
    }

    /// Applies new pixel dimensions; the format is left as it was.
    pub fn resize(&mut self, size: PhysicalSize)
        ensures
            *final(self) == old(self).resized(size),
    {
        self.width = size.width;
        self.height = size.height;
    }
}

} // verus!
