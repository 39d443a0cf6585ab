use kopki::context::{
    preferred_place, select_format, Context, Handle, RenderSurface, ResourceKind,
    SurfaceCapabilities,
};
use kopki::error::RenderError;

fn capabilities(formats: Vec<wgpu::TextureFormat>) -> SurfaceCapabilities {
    SurfaceCapabilities {
        formats,
        present_modes: vec![wgpu::PresentMode::Fifo, wgpu::PresentMode::Mailbox],
        alpha_modes: vec![wgpu::CompositeAlphaMode::Opaque, wgpu::CompositeAlphaMode::Auto],
    }
}

#[test]
fn context_needs_adapter_and_device() {
    assert_eq!(Context::new(false, false).err(), Some(RenderError::DeviceUnavailable));
    assert_eq!(Context::new(true, false).err(), Some(RenderError::DeviceUnavailable));
    assert_eq!(Context::new(false, true).err(), Some(RenderError::DeviceUnavailable));
    let ctx = Context::new(true, true).unwrap();
    assert_eq!(ctx.resource_count(), 0);
}

#[test]
fn context_names_resources_in_order_of_creation() {
    let mut ctx = Context::new(true, true).unwrap();
    let first = ctx.register(ResourceKind::Buffer);
    let second = ctx.register(ResourceKind::Sampler);
    assert_eq!(first, Handle { index: 0 });
    assert_eq!(second, Handle { index: 1 });
    assert_eq!(ctx.resource_count(), 2);
    assert_eq!(ctx.kind_of(first), Some(ResourceKind::Buffer));
    assert_eq!(ctx.kind_of(second), Some(ResourceKind::Sampler));
    assert_eq!(ctx.kind_of(Handle { index: 2 }), None);
}

#[test]
fn released_handle_names_nothing() {
    let mut ctx = Context::new(true, true).unwrap();
    let buffer = ctx.register(ResourceKind::Buffer);
    let sampler = ctx.register(ResourceKind::Sampler);
    assert!(ctx.holds(buffer, ResourceKind::Buffer));
    assert!(!ctx.holds(buffer, ResourceKind::Sampler));
    assert!(!ctx.holds(Handle { index: 2 }, ResourceKind::Buffer));
    assert!(ctx.release(buffer));
    assert!(!ctx.holds(buffer, ResourceKind::Buffer));
    assert_eq!(ctx.kind_of(buffer), None);
    assert_eq!(ctx.kind_of(sampler), Some(ResourceKind::Sampler));
    assert!(!ctx.release(buffer));
    assert!(!ctx.release(Handle { index: 2 }));
    assert_eq!(ctx.resource_count(), 2);
    assert_eq!(ctx.register(ResourceKind::Buffer), Handle { index: 2 });
}

#[test]
fn surface_prefers_the_first_srgb_format() {
    let ctx = Context::new(true, true).unwrap();
    let caps = capabilities(vec![
        wgpu::TextureFormat::Bgra8Unorm,
        wgpu::TextureFormat::Rgba8UnormSrgb,
        wgpu::TextureFormat::Bgra8UnormSrgb,
    ]);
    let surface = ctx.create_surface(caps, 800, 600).unwrap();
    assert_eq!(*surface.format(), wgpu::TextureFormat::Rgba8UnormSrgb);
    assert_eq!(surface.configuration().format, wgpu::TextureFormat::Rgba8UnormSrgb);
    assert_eq!(surface.configuration().width, 800);
    assert_eq!(surface.configuration().height, 600);
    assert_eq!(surface.configuration().present_mode, wgpu::PresentMode::Fifo);
    assert_eq!(surface.configuration().alpha_mode, wgpu::CompositeAlphaMode::Opaque);
    assert_eq!(surface.configuration().desired_maximum_frame_latency, 2);
    assert_eq!(surface.capabilities().formats.len(), 3);
}

#[test]
fn surface_without_srgb_takes_the_first_format() {
    let ctx = Context::new(true, true).unwrap();
    let caps = capabilities(vec![
        wgpu::TextureFormat::Bgra8Unorm,
        wgpu::TextureFormat::Rgba8Unorm,
    ]);
    let surface = ctx.create_surface(caps, 640, 480).unwrap();
    assert_eq!(*surface.format(), wgpu::TextureFormat::Bgra8Unorm);
}

#[test]
fn select_format_gives_the_place_of_the_format() {
    assert_eq!(select_format(&vec![]), None);
    assert_eq!(select_format(&vec![wgpu::TextureFormat::Rgba8Unorm]), Some(0));
    assert_eq!(select_format(&vec![wgpu::TextureFormat::Rgba8UnormSrgb]), Some(0));
    assert_eq!(
        select_format(&vec![
            wgpu::TextureFormat::Rgba8Unorm,
            wgpu::TextureFormat::Rgba16Float,
            wgpu::TextureFormat::Bgra8UnormSrgb,
            wgpu::TextureFormat::Rgba8UnormSrgb,
        ]),
        Some(2)
    );
}

#[test]
fn preferred_place_is_the_first_set_or_the_first() {
    assert_eq!(preferred_place(&vec![]), None);
    assert_eq!(preferred_place(&vec![false]), Some(0));
    assert_eq!(preferred_place(&vec![true]), Some(0));
    assert_eq!(preferred_place(&vec![false, false, false]), Some(0));
    assert_eq!(preferred_place(&vec![false, true, true]), Some(1));
    assert_eq!(preferred_place(&vec![false, false, true]), Some(2));
}

#[test]
fn surface_of_zero_size_is_refused() {
    let ctx = Context::new(true, true).unwrap();
    let formats = vec![wgpu::TextureFormat::Bgra8UnormSrgb];
    assert_eq!(
        ctx.create_surface(capabilities(formats.clone()), 0, 600).err(),
        Some(RenderError::SurfaceConfigurationInvalid)
    );
    assert_eq!(
        ctx.create_surface(capabilities(formats.clone()), 800, 0).err(),
        Some(RenderError::SurfaceConfigurationInvalid)
    );
    assert_eq!(
        ctx.create_surface(capabilities(formats), 0, 0).err(),
        Some(RenderError::SurfaceConfigurationInvalid)
    );
}

#[test]
fn surface_without_capabilities_is_refused() {
    let ctx = Context::new(true, true).unwrap();
    assert_eq!(
        ctx.create_surface(capabilities(vec![]), 800, 600).err(),
        Some(RenderError::SurfaceConfigurationInvalid)
    );
    let mut no_present = capabilities(vec![wgpu::TextureFormat::Bgra8Unorm]);
    no_present.present_modes.clear();
    assert_eq!(
        ctx.create_surface(no_present, 800, 600).err(),
        Some(RenderError::SurfaceConfigurationInvalid)
    );
    let mut no_alpha = capabilities(vec![wgpu::TextureFormat::Bgra8Unorm]);
    no_alpha.alpha_modes.clear();
    assert_eq!(
        ctx.create_surface(no_alpha, 800, 600).err(),
        Some(RenderError::SurfaceConfigurationInvalid)
    );
}

#[test]
fn resize_with_a_zero_dimension_changes_nothing() {
    let ctx = Context::new(true, true).unwrap();
    let caps = capabilities(vec![wgpu::TextureFormat::Bgra8UnormSrgb]);
    let mut surface = ctx.create_surface(caps, 800, 600).unwrap();
    let before = *surface.configuration();
    assert!(!surface.resize(0, 300));
    assert_eq!(*surface.configuration(), before);
    assert!(!surface.resize(400, 0));
    assert_eq!(*surface.configuration(), before);
    assert!(!surface.resize(0, 0));
    assert_eq!(*surface.configuration(), before);
    assert_eq!(surface.capabilities().present_modes.len(), 2);
}

#[test]
fn render_surface_is_the_surface_of_a_window() {
    let ctx = Context::new(true, true).unwrap();
    let caps = capabilities(vec![wgpu::TextureFormat::Bgra8UnormSrgb]);
    let mut surface: RenderSurface = ctx.create_surface(caps, 800, 600).unwrap();
    assert!(!RenderSurface::resize(&mut surface, 0, 0));
    assert!(RenderSurface::resize(&mut surface, 640, 480));
    assert_eq!(surface.configuration().width, 640);
    assert_eq!(surface.configuration().height, 480);
}

#[test]
fn resize_takes_the_new_size_and_keeps_the_rest() {
    let ctx = Context::new(true, true).unwrap();
    let caps = capabilities(vec![wgpu::TextureFormat::Bgra8UnormSrgb]);
    let mut surface = ctx.create_surface(caps, 800, 600).unwrap();
    let before = *surface.configuration();
    assert!(surface.resize(400, 300));
    let after = *surface.configuration();
    assert_eq!(after.width, 400);
    assert_eq!(after.height, 300);
    assert_eq!(after.format, before.format);
    assert_eq!(after.present_mode, before.present_mode);
    assert_eq!(after.alpha_mode, before.alpha_mode);
    assert_eq!(after.desired_maximum_frame_latency, before.desired_maximum_frame_latency);
    assert!(after.desired_maximum_frame_latency >= 1);
    assert!(surface.resize(1, u32::MAX));
    assert_eq!(surface.configuration().width, 1);
    assert_eq!(surface.configuration().height, u32::MAX);
}

#[test]
fn every_error_has_a_message_of_its_own() {
    let errors = [
        RenderError::DeviceUnavailable,
        RenderError::SurfaceConfigurationInvalid,
        RenderError::ResourceBindingMismatch,
        RenderError::CommandResourceMismatch,
        RenderError::BufferSizeMismatch,
    ];
    for (i, a) in errors.iter().enumerate() {
        assert!(!a.message().is_empty());
        for b in errors.iter().skip(i + 1) {
            assert_ne!(a.message(), b.message());
        }
    }
    assert_eq!(RenderError::BufferSizeMismatch.message(), "the data does not fit the buffer");
}
