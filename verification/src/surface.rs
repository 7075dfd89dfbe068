//! The surface configuration and the context that keeps it in step with the
//! window's pixel size.

use vstd::prelude::*;
use crate::format::{preferred_format, select_format};

verus! {

/// `wgpu::PresentMode`, carried through without a look inside.
#[verifier::external_type_specification]
#[verifier::external_body]
pub struct ExPresentMode(wgpu::PresentMode);

/// `wgpu::CompositeAlphaMode`, carried through without a look inside.
#[verifier::external_type_specification]
#[verifier::external_body]
pub struct ExCompositeAlphaMode(wgpu::CompositeAlphaMode);

/// Number of frames the presentation backend may buffer.
pub const FRAME_LATENCY: u32 = 2;

/// A size in physical pixels.
#[derive(Clone, Copy, Debug, PartialEq, Eq, Structural)]
pub struct PixelSize {
    pub width: u32,
    pub height: u32,
}

impl PixelSize {
    /// A surface can present only into a target with area.
    pub open spec fn presentable(self) -> bool {
        self.width > 0 && self.height > 0
    }

    pub fn new(width: u32, height: u32) -> (size: Self)
        ensures
            size.width == width,
            size.height == height,
    {
        PixelSize { width, height }
    }

    pub fn is_presentable(&self) -> (yes: bool)
        ensures
            yes == self.presentable(),
    {
        self.width > 0 && self.height > 0
    }
}

/// What is pushed to the surface whenever it is configured.
#[derive(Clone, Copy, Debug, PartialEq, Eq)]
pub struct SurfaceConfig {
    pub format: wgpu::TextureFormat,
    pub width: u32,
    pub height: u32,
    pub present_mode: wgpu::PresentMode,
    pub alpha_mode: wgpu::CompositeAlphaMode,
    pub frame_latency: u32,
}

impl SurfaceConfig {
    /// The same configuration at another size.
    pub open spec fn with_extent(self, size: PixelSize) -> SurfaceConfig {
        SurfaceConfig {
            format: self.format,
            width: size.width,
            height: size.height,
            present_mode: self.present_mode,
            alpha_mode: self.alpha_mode,
            frame_latency: self.frame_latency,
        }
    }

    pub open spec fn extent(self) -> PixelSize {
        PixelSize { width: self.width, height: self.height }
    }
}

/// The negotiated configuration together with the last accepted pixel size.
#[derive(Clone, Copy, Debug, PartialEq, Eq)]
pub struct GpuContext {
    pub config: SurfaceConfig,
    pub size: PixelSize,
}

impl GpuContext {
    /// The configuration always carries the stored size.
    pub open spec fn wf(self) -> bool {
        self.config.extent() == self.size
    }

    /// The context after a resize to `new_size`: a size without area is
    /// ignored, any other replaces the stored one.
    pub open spec fn resized(self, new_size: PixelSize) -> GpuContext {
        if new_size.presentable() {
            GpuContext { config: self.config.with_extent(new_size), size: new_size }
        } else {
            self
        }
    }

    /// What a resize to `new_size` pushes to the surface, if anything.
    pub open spec fn pushed_by(self, new_size: PixelSize) -> Option<SurfaceConfig> {
        if new_size.presentable() {
            Some(self.config.with_extent(new_size))
        } else {
            None
        }
    }

    /// Negotiates the configuration from what the surface reports. The format
    /// is the first sRGB one, or the first reported where none is sRGB. The
    /// present mode and the alpha mode are the first reported: no preference
    /// is applied among them.
    pub fn new(
        formats: &Vec<wgpu::TextureFormat>,
        present_modes: &Vec<wgpu::PresentMode>,
        alpha_modes: &Vec<wgpu::CompositeAlphaMode>,
        size: PixelSize,
    ) -> (ctx: Self)
        requires
            formats.len() > 0,
            present_modes.len() > 0,
            alpha_modes.len() > 0,
        ensures
            ctx.wf(),
            ctx.size == size,
            ctx.config.frame_latency == FRAME_LATENCY,
            ctx.config.present_mode == present_modes@[0],
            ctx.config.alpha_mode == alpha_modes@[0],
            ctx.config.format == preferred_format(formats@),
    {
        let at = select_format(formats);
        let ctx = GpuContext {
            config: SurfaceConfig {
                format: formats[at],
                width: size.width,
                height: size.height,
                present_mode: present_modes[0],
                alpha_mode: alpha_modes[0],
                frame_latency: FRAME_LATENCY,
            },
            size,
        };
        ctx
    }

    /// Takes a new window size. A size with a zero dimension changes nothing.
    /// Any other is stored, and the configuration that is returned must be
    /// pushed to the surface before the next frame is acquired.
    pub fn resize(&mut self, new_size: PixelSize) -> (push: Option<SurfaceConfig>)
        ensures
            *final(self) == old(self).resized(new_size),
            push == old(self).pushed_by(new_size),
            old(self).wf() ==> final(self).wf(),
    {
        if new_size.width > 0 && new_size.height > 0 {
            self.size = new_size;
            self.config.width = new_size.width;
            self.config.height = new_size.height;
            Some(self.config)
        } else {
            None
        }
    }
}

/// A resize keeps the configuration and the stored size in step.
pub proof fn lemma_resize_keeps_wf(ctx: GpuContext, new_size: PixelSize)
    requires
        ctx.wf(),
    ensures
        ctx.resized(new_size).wf(),
{
}

/// After a resize to a size with area, the stored size and the configured
/// width and height are those of the request, and that configuration is the
/// one handed out to be pushed.
pub proof fn lemma_resize_accepted(ctx: GpuContext, new_size: PixelSize)
    requires
        new_size.presentable(),
    ensures
        ctx.resized(new_size).size == new_size,
        ctx.resized(new_size).config.width == new_size.width,
        ctx.resized(new_size).config.height == new_size.height,
        ctx.pushed_by(new_size) == Some(ctx.resized(new_size).config),
{
}

/// A resize to a size without area leaves the context as it was and pushes
/// nothing, however often it is repeated.
pub proof fn lemma_resize_ignored(ctx: GpuContext, new_size: PixelSize)
    requires
        !new_size.presentable(),
    ensures
        ctx.resized(new_size) == ctx,
        ctx.resized(new_size).resized(new_size) == ctx,
        ctx.pushed_by(new_size) is None,
{
}

} // verus!
