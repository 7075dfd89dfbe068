use frame_loop::format::{pick_preferred, select_format};
use frame_loop::surface::{GpuContext, PixelSize, FRAME_LATENCY};
use wgpu::{CompositeAlphaMode, PresentMode, TextureFormat};

#[test]
fn pick_preferred_takes_first_set_flag() {
    assert_eq!(pick_preferred(&vec![false, false, true, true]), 2);
    assert_eq!(pick_preferred(&vec![true, false, true]), 0);
    assert_eq!(pick_preferred(&vec![false, true]), 1);
}

#[test]
fn pick_preferred_falls_back_to_first() {
    assert_eq!(pick_preferred(&vec![false]), 0);
    assert_eq!(pick_preferred(&vec![false, false, false]), 0);
}

#[test]
fn select_format_prefers_first_srgb() {
    let formats = vec![
        TextureFormat::Bgra8Unorm,
        TextureFormat::Rgba16Float,
        TextureFormat::Rgba8UnormSrgb,
        TextureFormat::Bgra8UnormSrgb,
    ];
    assert_eq!(select_format(&formats), 2);
}

#[test]
fn select_format_srgb_in_front() {
    let formats = vec![TextureFormat::Bgra8UnormSrgb, TextureFormat::Bgra8Unorm];
    assert_eq!(select_format(&formats), 0);
}

#[test]
fn select_format_without_srgb_takes_first() {
    let formats = vec![TextureFormat::Rgba16Float, TextureFormat::Bgra8Unorm, TextureFormat::Rgb10a2Unorm];
    assert_eq!(select_format(&formats), 0);
}

#[test]
fn new_context_negotiates_configuration() {
    let formats = vec![TextureFormat::Bgra8Unorm, TextureFormat::Bgra8UnormSrgb];
    let present_modes = vec![PresentMode::Mailbox, PresentMode::Fifo];
    let alpha_modes = vec![CompositeAlphaMode::PreMultiplied, CompositeAlphaMode::Opaque];
    let ctx = GpuContext::new(&formats, &present_modes, &alpha_modes, PixelSize::new(640, 480));
    assert_eq!(ctx.config.format, TextureFormat::Bgra8UnormSrgb);
    assert_eq!(ctx.config.present_mode, PresentMode::Mailbox);
    assert_eq!(ctx.config.alpha_mode, CompositeAlphaMode::PreMultiplied);
    assert_eq!(ctx.config.width, 640);
    assert_eq!(ctx.config.height, 480);
    assert_eq!(ctx.config.frame_latency, 2);
    assert_eq!(FRAME_LATENCY, 2);
    assert_eq!(ctx.size, PixelSize { width: 640, height: 480 });
}

#[test]
fn new_context_falls_back_to_first_format() {
    let formats = vec![TextureFormat::Rgba8Unorm, TextureFormat::Bgra8Unorm];
    let ctx = GpuContext::new(
        &formats,
        &vec![PresentMode::Fifo],
        &vec![CompositeAlphaMode::Auto],
        PixelSize::new(1, 1),
    );
    assert_eq!(ctx.config.format, TextureFormat::Rgba8Unorm);
    assert_eq!(ctx.config.present_mode, PresentMode::Fifo);
    assert_eq!(ctx.config.alpha_mode, CompositeAlphaMode::Auto);
}

#[test]
fn new_context_keeps_a_size_without_area() {
    let ctx = GpuContext::new(
        &vec![TextureFormat::Bgra8UnormSrgb],
        &vec![PresentMode::Fifo],
        &vec![CompositeAlphaMode::Opaque],
        PixelSize::new(0, 0),
    );
    assert_eq!(ctx.size, PixelSize::new(0, 0));
    assert_eq!((ctx.config.width, ctx.config.height), (0, 0));
}

#[test]
fn pixel_size_presentable_needs_both_dimensions() {
    assert!(PixelSize::new(1, 1).is_presentable());
    assert!(PixelSize::new(u32::MAX, u32::MAX).is_presentable());
    assert!(!PixelSize::new(0, 1).is_presentable());
    assert!(!PixelSize::new(1, 0).is_presentable());
    assert!(!PixelSize::new(0, 0).is_presentable());
}

#[test]
fn resize_accepted_updates_size_and_configuration() {
    let mut ctx = GpuContext::new(
        &vec![TextureFormat::Bgra8UnormSrgb],
        &vec![PresentMode::Fifo],
        &vec![CompositeAlphaMode::Opaque],
        PixelSize::new(640, 480),
    );
    let before = ctx;
    let push = ctx.resize(PixelSize::new(800, 600));
    assert_eq!(ctx.size, PixelSize::new(800, 600));
    assert_eq!((ctx.config.width, ctx.config.height), (800, 600));
    assert_eq!(ctx.config.format, before.config.format);
    assert_eq!(ctx.config.present_mode, before.config.present_mode);
    assert_eq!(ctx.config.alpha_mode, before.config.alpha_mode);
    assert_eq!(ctx.config.frame_latency, 2);
    assert_eq!(push, Some(ctx.config));
}

#[test]
fn resize_without_area_changes_nothing() {
    let mut ctx = GpuContext::new(
        &vec![TextureFormat::Bgra8UnormSrgb],
        &vec![PresentMode::Fifo],
        &vec![CompositeAlphaMode::Opaque],
        PixelSize::new(640, 480),
    );
    let before = ctx;
    assert_eq!(ctx.resize(PixelSize::new(0, 600)), None);
    assert_eq!(ctx, before);
    assert_eq!(ctx.resize(PixelSize::new(800, 0)), None);
    assert_eq!(ctx, before);
    assert_eq!(ctx.resize(PixelSize::new(0, 0)), None);
    assert_eq!(ctx.resize(PixelSize::new(0, 0)), None);
    assert_eq!(ctx, before);
}
