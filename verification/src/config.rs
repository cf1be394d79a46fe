//! What a surface can do, and how it is set up for presentation.

use vstd::prelude::*;
use wgpu::{CompositeAlphaMode, PresentMode, TextureFormat};
use crate::format::{preferred_format, select_format};
use crate::gpu::{render_attachment_bits, RENDER_ATTACHMENT};
use crate::size::PhysicalSize;

verus! {

/// How many frames the backend may queue ahead of presentation.
pub const MAX_FRAME_LATENCY: u32 = 2;

/// What a surface supports on a given adapter, each list in the backend's
/// order of preference.
#[derive(Debug, PartialEq)]
pub struct SurfaceCapabilities {
    pub formats: Vec<TextureFormat>,
    pub present_modes: Vec<PresentMode>,
    pub alpha_modes: Vec<CompositeAlphaMode>,
}

impl SurfaceCapabilities {
    /// A surface can be configured only if it offers at least one format, one
    /// present mode and one alpha mode.
    pub open spec fn usable(&self) -> bool {
        &&& self.formats@.len() > 0
        &&& self.present_modes@.len() > 0
        &&& self.alpha_modes@.len() > 0
    }

    /// Whether a configuration can be made of these capabilities.
    pub fn is_usable(&self) -> (usable: bool)
        ensures
            usable == self.usable(),
    {
        self.formats.len() > 0 && self.present_modes.len() > 0 && self.alpha_modes.len() > 0
    }
}

/// How a surface is set up for presentation.
#[derive(Debug, PartialEq)]
pub struct SurfaceConfig {
    /// The bits of the usages of the surface's textures.
    pub usage: u32,
    pub format: TextureFormat,
    pub width: u32,
    pub height: u32,
    pub present_mode: PresentMode,
    pub alpha_mode: CompositeAlphaMode,
    /// The formats, besides `format`, in which views of the surface's textures
    /// may be made.
    pub view_formats: Vec<TextureFormat>,
    pub desired_maximum_frame_latency: u32,
}

/// A surface configuration as a mathematical value.
pub struct SurfaceConfigView {
    pub usage: u32,
    pub format: TextureFormat,
    pub width: u32,
    pub height: u32,
    pub present_mode: PresentMode,
    pub alpha_mode: CompositeAlphaMode,
    pub view_formats: Seq<TextureFormat>,
    pub desired_maximum_frame_latency: u32,
}

impl View for SurfaceConfig {
    type V = SurfaceConfigView;

    open spec fn view(&self) -> SurfaceConfigView {
        SurfaceConfigView {
            usage: self.usage,
            format: self.format,
            width: self.width,
            height: self.height,
            present_mode: self.present_mode,
            alpha_mode: self.alpha_mode,
            view_formats: self.view_formats@,
            desired_maximum_frame_latency: self.desired_maximum_frame_latency,
        }
    }
}

impl SurfaceConfigView {
    /// The configuration in which a surface of the given capabilities first
    /// presents at `size`: a render target in the preferred format, with the
    /// first present mode and the first alpha mode on offer, no further view
    /// formats, and at most `MAX_FRAME_LATENCY` frames queued.
    pub open spec fn initial(size: PhysicalSize, caps: SurfaceCapabilities) -> SurfaceConfigView
        recommends
            caps.usable(),
    {
        SurfaceConfigView {
            usage: RENDER_ATTACHMENT,
            format: preferred_format(caps.formats@),
            width: size.width,
            height: size.height,
            present_mode: caps.present_modes@[0],
            alpha_mode: caps.alpha_modes@[0],
            view_formats: Seq::empty(),
            desired_maximum_frame_latency: MAX_FRAME_LATENCY,
        }
    }

    /// This configuration at another extent, all else kept.
    pub open spec fn with_extent(self, size: PhysicalSize) -> SurfaceConfigView {
        SurfaceConfigView { width: size.width, height: size.height, ..self }
    }

    /// The extent of this configuration is `size`.
    pub open spec fn mirrors(self, size: PhysicalSize) -> bool {
        self.width == size.width && self.height == size.height
    }
}

impl SurfaceConfig {
    /// The configuration in which a surface of capabilities `caps` first
    /// presents at `size`.
    pub fn initial(size: PhysicalSize, caps: &SurfaceCapabilities) -> (config: SurfaceConfig)
        requires
            caps.usable(),
        ensures
            config@ == SurfaceConfigView::initial(size, *caps),
    {
        SurfaceConfig {
            usage: render_attachment_bits(),
            format: select_format(&caps.formats),
            width: size.width,
            height: size.height,
            present_mode: caps.present_modes[0],
            alpha_mode: caps.alpha_modes[0],
            view_formats: Vec::new(),
            desired_maximum_frame_latency: MAX_FRAME_LATENCY,
        }
    }
}

} // verus!
