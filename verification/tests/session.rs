use surface_session::config::MAX_FRAME_LATENCY;
use surface_session::gpu::RENDER_ATTACHMENT;
use surface_session::{App, PhysicalSize, SurfaceCapabilities, SurfaceConfig};
use wgpu::{CompositeAlphaMode, PresentMode, TextureFormat, TextureUsages};

fn sample_caps() -> SurfaceCapabilities {
    SurfaceCapabilities {
        formats: vec![TextureFormat::Bgra8Unorm, TextureFormat::Bgra8UnormSrgb],
        present_modes: vec![PresentMode::Fifo, PresentMode::Mailbox],
        alpha_modes: vec![CompositeAlphaMode::Opaque, CompositeAlphaMode::Inherit],
    }
}

#[test]
fn size_with_area() {
    assert!(PhysicalSize::new(1, 1).is_drawable());
    assert!(PhysicalSize::new(u32::MAX, u32::MAX).is_drawable());
    assert!(!PhysicalSize::new(0, 1).is_drawable());
    assert!(!PhysicalSize::new(1, 0).is_drawable());
    assert!(!PhysicalSize::new(0, 0).is_drawable());
    assert_eq!(PhysicalSize::new(3, 4), PhysicalSize { width: 3, height: 4 });
}

#[test]
fn capabilities_are_usable_when_nothing_is_missing() {
    assert!(sample_caps().is_usable());
    let mut caps = sample_caps();
    caps.formats.clear();
    assert!(!caps.is_usable());
    let mut caps = sample_caps();
    caps.present_modes.clear();
    assert!(!caps.is_usable());
    let mut caps = sample_caps();
    caps.alpha_modes.clear();
    assert!(!caps.is_usable());
}

#[test]
fn initial_config_is_exact() {
    let config = SurfaceConfig::initial(PhysicalSize::new(800, 600), &sample_caps());
    let expected = SurfaceConfig {
        usage: 16,
        format: TextureFormat::Bgra8UnormSrgb,
        width: 800,
        height: 600,
        present_mode: PresentMode::Fifo,
        alpha_mode: CompositeAlphaMode::Opaque,
        view_formats: vec![],
        desired_maximum_frame_latency: 2,
    };
    assert_eq!(config, expected);
}

#[test]
fn initial_usage_is_the_backend_s_render_attachment() {
    let config = SurfaceConfig::initial(PhysicalSize::new(1, 1), &sample_caps());
    assert_eq!(config.usage, TextureUsages::RENDER_ATTACHMENT.bits());
    assert_eq!(config.usage, RENDER_ATTACHMENT);
    assert_eq!(TextureUsages::from_bits(config.usage), Some(TextureUsages::RENDER_ATTACHMENT));
    assert_eq!(config.desired_maximum_frame_latency, MAX_FRAME_LATENCY);
    assert_eq!(MAX_FRAME_LATENCY, 2);
}

#[test]
fn initial_config_takes_the_first_modes() {
    let caps = SurfaceCapabilities {
        formats: vec![TextureFormat::Rgba8Unorm],
        present_modes: vec![PresentMode::Immediate, PresentMode::Fifo],
        alpha_modes: vec![CompositeAlphaMode::PreMultiplied, CompositeAlphaMode::Opaque],
    };
    let config = SurfaceConfig::initial(PhysicalSize::new(640, 480), &caps);
    assert_eq!(config.present_mode, PresentMode::Immediate);
    assert_eq!(config.alpha_mode, CompositeAlphaMode::PreMultiplied);
    assert_eq!(config.format, TextureFormat::Rgba8Unorm);
}

#[test]
fn new_session_mirrors_the_window() {
    let app = App::new(PhysicalSize::new(800, 600), &sample_caps());
    assert_eq!(app.size(), PhysicalSize::new(800, 600));
    assert_eq!(app.surface_config().width, 800);
    assert_eq!(app.surface_config().height, 600);
    assert_eq!(app.surface_format(), TextureFormat::Bgra8UnormSrgb);
    assert_eq!(app.surface_config().format, app.surface_format());
    assert_eq!(
        app.surface_config(),
        &SurfaceConfig::initial(PhysicalSize::new(800, 600), &sample_caps())
    );
}

#[test]
fn new_session_without_srgb_takes_the_first_format() {
    let caps = SurfaceCapabilities {
        formats: vec![TextureFormat::Rgba16Float, TextureFormat::Bgra8Unorm],
        present_modes: vec![PresentMode::Fifo],
        alpha_modes: vec![CompositeAlphaMode::Auto],
    };
    let app = App::new(PhysicalSize::new(10, 20), &caps);
    assert_eq!(app.surface_format(), TextureFormat::Rgba16Float);
    assert_eq!(app.surface_config().format, TextureFormat::Rgba16Float);
}

#[test]
fn new_session_of_a_window_without_area() {
    let app = App::new(PhysicalSize::new(0, 0), &sample_caps());
    assert_eq!(app.size(), PhysicalSize::new(0, 0));
    assert_eq!(app.surface_config().width, 0);
    assert_eq!(app.surface_config().height, 0);
}

#[test]
fn resize_sets_size_and_extent() {
    let mut app = App::new(PhysicalSize::new(800, 600), &sample_caps());
    assert!(app.resize(PhysicalSize::new(1024, 768)));
    assert_eq!(app.size(), PhysicalSize::new(1024, 768));
    assert_eq!(app.surface_config().width, 1024);
    assert_eq!(app.surface_config().height, 768);
    assert!(app.resize(PhysicalSize::new(1, u32::MAX)));
    assert_eq!(app.size(), PhysicalSize::new(1, u32::MAX));
    assert_eq!(app.surface_config().width, 1);
    assert_eq!(app.surface_config().height, u32::MAX);
}

#[test]
fn resize_changes_nothing_but_the_extent() {
    let mut app = App::new(PhysicalSize::new(800, 600), &sample_caps());
    app.resize(PhysicalSize::new(320, 200));
    assert_eq!(
        app.surface_config(),
        &SurfaceConfig::initial(PhysicalSize::new(320, 200), &sample_caps())
    );
    assert_eq!(app.surface_format(), TextureFormat::Bgra8UnormSrgb);
}

#[test]
fn resize_to_zero_width_is_dropped() {
    let mut app = App::new(PhysicalSize::new(800, 600), &sample_caps());
    assert!(!app.resize(PhysicalSize::new(0, 300)));
    assert_eq!(app.size(), PhysicalSize::new(800, 600));
    assert_eq!(
        app.surface_config(),
        &SurfaceConfig::initial(PhysicalSize::new(800, 600), &sample_caps())
    );
}

#[test]
fn resize_to_zero_height_is_dropped() {
    let mut app = App::new(PhysicalSize::new(800, 600), &sample_caps());
    assert!(!app.resize(PhysicalSize::new(300, 0)));
    assert_eq!(app.size(), PhysicalSize::new(800, 600));
    assert_eq!(app.surface_config().width, 800);
    assert_eq!(app.surface_config().height, 600);
}

#[test]
fn resize_to_nothing_is_dropped() {
    let mut app = App::new(PhysicalSize::new(800, 600), &sample_caps());
    assert!(!app.resize(PhysicalSize::new(0, 0)));
    assert_eq!(app.size(), PhysicalSize::new(800, 600));
    assert_eq!(app.surface_config().width, 800);
    assert_eq!(app.surface_config().height, 600);
}

#[test]
fn resize_twice_is_resize_once() {
    let mut once = App::new(PhysicalSize::new(800, 600), &sample_caps());
    once.resize(PhysicalSize::new(1280, 720));
    let mut twice = App::new(PhysicalSize::new(800, 600), &sample_caps());
    twice.resize(PhysicalSize::new(1280, 720));
    assert!(twice.resize(PhysicalSize::new(1280, 720)));
    assert_eq!(twice.size(), once.size());
    assert_eq!(twice.surface_config(), once.surface_config());
    assert_eq!(twice.surface_format(), once.surface_format());
}

#[test]
fn dropped_resize_twice_is_dropped_once() {
    let mut app = App::new(PhysicalSize::new(800, 600), &sample_caps());
    assert!(!app.resize(PhysicalSize::new(0, 5)));
    assert!(!app.resize(PhysicalSize::new(0, 5)));
    assert_eq!(app.size(), PhysicalSize::new(800, 600));
}
