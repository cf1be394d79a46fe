//! The surface session: the format and configuration of a window's surface
//! together with the window's last known size.

use vstd::prelude::*;
use wgpu::TextureFormat;
use crate::config::{SurfaceCapabilities, SurfaceConfig, SurfaceConfigView, MAX_FRAME_LATENCY};
use crate::format::preferred_format;
use crate::gpu::RENDER_ATTACHMENT;
use crate::size::PhysicalSize;

verus! {

/// The session of one window's surface. It keeps the surface's configuration
/// at the window's last valid size.
pub struct App {
    surface_format: TextureFormat,
    surface_config: SurfaceConfig,
    size: PhysicalSize,
}

/// A session as a mathematical value.
pub struct AppView {
    pub surface_format: TextureFormat,
    pub surface_config: SurfaceConfigView,
    pub size: PhysicalSize,
}

impl AppView {
    /// What holds of every session: its configuration is that of a render
    /// target in the session's format and at the session's size, without
    /// further view formats, that queues at most `MAX_FRAME_LATENCY` frames.
    pub open spec fn wf(self) -> bool {
        &&& self.surface_config.format == self.surface_format
        &&& self.surface_config.mirrors(self.size)
        &&& self.surface_config.usage == RENDER_ATTACHMENT
        &&& self.surface_config.view_formats.len() == 0
        &&& self.surface_config.desired_maximum_frame_latency == MAX_FRAME_LATENCY
    }

    /// The session of a window of size `size` whose surface has the
    /// capabilities `caps`.
    pub open spec fn initial(size: PhysicalSize, caps: SurfaceCapabilities) -> AppView
        recommends
            caps.usable(),
    {
        AppView {
            surface_format: preferred_format(caps.formats@),
            surface_config: SurfaceConfigView::initial(size, caps),
            size,
        }
    }

    /// The session after a resize to `new_size`. A size with an area becomes
    /// the session's size and its configuration's extent. A size without one
    /// is dropped, and the session stays as it is.
    pub open spec fn resized(self, new_size: PhysicalSize) -> AppView {
        if new_size.has_area() {
            AppView {
                surface_config: self.surface_config.with_extent(new_size),
                size: new_size,
                ..self
            }
        } else {
            self
        }
    }
}

impl View for App {
    type V = AppView;

    closed spec fn view(&self) -> AppView {
        AppView {
            surface_format: self.surface_format,
            surface_config: self.surface_config@,
            size: self.size,
        }
    }
}

/// Moves a tracked size and the extent of a configuration to `new_size` in
/// one step, so that the two never differ.
fn set_extent(size: &mut PhysicalSize, config: &mut SurfaceConfig, new_size: PhysicalSize)
    ensures
        *final(size) == new_size,
        final(config)@ == old(config)@.with_extent(new_size),
    no_unwind
{
    *size = new_size;
    config.width = new_size.width;
    config.height = new_size.height;
}

impl App {
    /// Every session is well-formed, at all times.
    #[verifier::type_invariant]
    pub open spec fn inv(self) -> bool {
        self@.wf()
    }

    /// Opens the session of a window whose size is `size`, on a surface of
    /// capabilities `caps`: the surface presents in the preferred format of
    /// `caps`, in its initial configuration at `size`.
    pub fn new(size: PhysicalSize, caps: &SurfaceCapabilities) -> (app: App)
        requires
            caps.usable(),
        ensures
            app@ == AppView::initial(size, *caps),
            app@.wf(),
    {
        let surface_config = SurfaceConfig::initial(size, caps);
        App { surface_format: surface_config.format, surface_config, size }
    }

    /// Takes note of a new window size. A size with an area becomes the
    /// session's size and the extent of its configuration, and the surface is
    /// to be configured anew: the result is `true`. A size with a zero
    /// dimension is dropped: the session stays as it is and the result is
    /// `false`.
    pub fn resize(&mut self, new_size: PhysicalSize) -> (reconfigure: bool)
        ensures
            final(self)@ == old(self)@.resized(new_size),
            reconfigure == new_size.has_area(),
            new_size.has_area() ==> final(self)@.size == new_size,
            new_size.has_area() ==> final(self)@.surface_config.width == new_size.width,
            new_size.has_area() ==> final(self)@.surface_config.height == new_size.height,
            !new_size.has_area() ==> final(self)@ == old(self)@,
            final(self)@.wf(),
    {
        proof {
            use_type_invariant(&*self);
        }
        if new_size.is_drawable() {
            set_extent(&mut self.size, &mut self.surface_config, new_size);
            true
        } else {
            false
        }
    }

    /// The last valid size of the window.
    pub fn size(&self) -> (size: PhysicalSize)
        ensures
            size == self@.size,
            self@.wf(),
    {
        proof {
            use_type_invariant(self);
        }
        self.size
    }

    /// The format in which the surface presents.
    pub fn surface_format(&self) -> (format: TextureFormat)
        ensures
            format == self@.surface_format,
            self@.wf(),
    {
        proof {
            use_type_invariant(self);
        }
        self.surface_format
    }

    /// The configuration that the surface is to have.
    pub fn surface_config(&self) -> (config: &SurfaceConfig)
        ensures
            config@ == self@.surface_config,
            self@.wf(),
    {
        proof {
            use_type_invariant(self);
        }
        &self.surface_config
    }
}

/// Resizing twice to the same size leaves the session as resizing once does.
pub proof fn lemma_resize_idempotent(app: AppView, size: PhysicalSize)
    ensures
        app.resized(size).resized(size) == app.resized(size),
{
}

/// A well-formed session that is resized to the size it already has stays as
/// it is.
pub proof fn lemma_resize_to_current(app: AppView)
    requires
        app.wf(),
    ensures
        app.resized(app.size) == app,
{
}

/// A session is well-formed when it is opened.
pub proof fn lemma_initial_wf(size: PhysicalSize, caps: SurfaceCapabilities)
    ensures
        AppView::initial(size, caps).wf(),
{
}

/// A resize keeps a well-formed session well-formed.
pub proof fn lemma_resize_preserves_wf(app: AppView, size: PhysicalSize)
    requires
        app.wf(),
    ensures
        app.resized(size).wf(),
{
}

} // verus!
