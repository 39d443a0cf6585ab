use kopki::context::{Context, Handle, ResourceKind};
use kopki::error::RenderError;
use kopki::group::{
    BindingKind, BindingResource, BindingType, BufferBindingType, Group, GroupEntry, GroupLayout,
    LayoutEntry, SamplerBindingType, ShaderStages,
};
use kopki::render::RenderResource;
use kopki::texture::{Sampler2D, TextureView2D};
use kopki::uniform::UniformBuffer;

fn entry(binding: u32, ty: BindingType) -> LayoutEntry {
    LayoutEntry { binding, visibility: ShaderStages::fragment(), ty }
}

fn texture_and_sampler(ctx: &mut Context) -> GroupLayout {
    GroupLayout::new(
        ctx,
        &[
            entry(0, TextureView2D::binding_type()),
            entry(1, Sampler2D::binding_type()),
        ],
    )
}

#[test]
fn shader_stages_name_their_stages() {
    assert_eq!(
        ShaderStages::vertex(),
        ShaderStages { vertex: true, fragment: false, compute: false }
    );
    assert_eq!(
        ShaderStages::fragment(),
        ShaderStages { vertex: false, fragment: true, compute: false }
    );
    assert_eq!(
        ShaderStages::vertex_fragment(),
        ShaderStages { vertex: true, fragment: true, compute: false }
    );
}

#[test]
fn binding_types_have_their_kinds() {
    assert_eq!(UniformBuffer::binding_type().binding_kind(), BindingKind::Buffer);
    assert_eq!(Sampler2D::binding_type().binding_kind(), BindingKind::Sampler);
    assert_eq!(TextureView2D::binding_type().binding_kind(), BindingKind::Texture);
    assert_eq!(
        BindingType::Buffer {
            ty: BufferBindingType::Storage { read_only: true },
            has_dynamic_offset: true,
            min_binding_size: Some(16),
        }
        .binding_kind(),
        BindingKind::Buffer
    );
    assert_eq!(
        BindingType::Sampler(SamplerBindingType::Comparison).binding_kind(),
        BindingKind::Sampler
    );
    assert_eq!(BindingResource::Buffer(Handle { index: 0 }).binding_kind(), BindingKind::Buffer);
    assert_eq!(
        BindingResource::TextureView(Handle { index: 0 }).binding_kind(),
        BindingKind::Texture
    );
    assert_eq!(BindingResource::Sampler(Handle { index: 0 }).binding_kind(), BindingKind::Sampler);
}

#[test]
fn layout_keeps_its_slots_in_order() {
    let mut ctx = Context::new(true, true).unwrap();
    let layout = texture_and_sampler(&mut ctx);
    assert_eq!(layout.handle(), Handle { index: 0 });
    assert_eq!(ctx.kind_of(layout.handle()), Some(ResourceKind::GroupLayout));
    assert_eq!(
        *layout.entries(),
        vec![entry(0, TextureView2D::binding_type()), entry(1, Sampler2D::binding_type())]
    );
    assert_eq!(layout.kind_at(0), Some(BindingKind::Texture));
    assert_eq!(layout.kind_at(1), Some(BindingKind::Sampler));
    assert_eq!(layout.kind_at(2), None);
}

#[test]
fn layout_looks_a_slot_up_by_its_index() {
    let mut ctx = Context::new(true, true).unwrap();
    let layout = GroupLayout::new(
        &mut ctx,
        &[
            entry(7, Sampler2D::binding_type()),
            entry(3, UniformBuffer::binding_type()),
            entry(7, TextureView2D::binding_type()),
        ],
    );
    assert_eq!(layout.kind_at(7), Some(BindingKind::Sampler));
    assert_eq!(layout.kind_at(3), Some(BindingKind::Buffer));
    assert_eq!(layout.kind_at(0), None);
}

#[test]
fn group_binds_each_resource_at_its_position() {
    let mut ctx = Context::new(true, true).unwrap();
    let layout = texture_and_sampler(&mut ctx);
    let view = ctx.register(ResourceKind::TextureView);
    let sampler = Sampler2D::default(&mut ctx).handle();
    assert_eq!((view, sampler), (Handle { index: 1 }, Handle { index: 2 }));
    let group = Group::new(
        &mut ctx,
        &layout,
        vec![BindingResource::TextureView(view), BindingResource::Sampler(sampler)],
    )
    .unwrap();
    assert_eq!(group.handle(), Handle { index: 3 });
    assert_eq!(group.layout(), layout.handle());
    assert_eq!(
        *group.entries(),
        vec![
            GroupEntry { binding: 0, resource: BindingResource::TextureView(view) },
            GroupEntry { binding: 1, resource: BindingResource::Sampler(sampler) },
        ]
    );
    assert_eq!(ctx.kind_of(group.handle()), Some(ResourceKind::Group));
    assert_eq!(ctx.resource_count(), 4);
    assert_eq!(group.as_resource(), RenderResource::BindGroup { group: Handle { index: 3 } });
}

#[test]
fn group_binds_live_resources_of_its_context_only() {
    let mut ctx = Context::new(true, true).unwrap();
    let layout = texture_and_sampler(&mut ctx);
    let view = ctx.register(ResourceKind::TextureView);
    let sampler = ctx.register(ResourceKind::Sampler);
    let buffer = ctx.register(ResourceKind::Buffer);
    let count = ctx.resource_count();
    let bound = |view, sampler| {
        vec![BindingResource::TextureView(view), BindingResource::Sampler(sampler)]
    };
    for resources in [
        bound(view, Handle { index: 99 }),
        bound(sampler, sampler),
        bound(view, buffer),
        bound(Handle { index: count }, sampler),
    ] {
        assert!(!resources.iter().all(|resource| resource.is_live(&ctx)));
        assert_eq!(
            Group::new(&mut ctx, &layout, resources).err(),
            Some(RenderError::ResourceBindingMismatch)
        );
        assert_eq!(ctx.resource_count(), count);
    }
    assert!(ctx.release(sampler));
    assert_eq!(
        Group::new(&mut ctx, &layout, bound(view, sampler)).err(),
        Some(RenderError::ResourceBindingMismatch)
    );
    let sampler = ctx.register(ResourceKind::Sampler);
    assert!(Group::new(&mut ctx, &layout, bound(view, sampler)).is_ok());
    assert!(ctx.release(layout.handle()));
    assert_eq!(
        Group::new(&mut ctx, &layout, bound(view, sampler)).err(),
        Some(RenderError::ResourceBindingMismatch)
    );
}

#[test]
fn group_follows_the_indices_of_the_layout() {
    let mut ctx = Context::new(true, true).unwrap();
    let layout = GroupLayout::new(
        &mut ctx,
        &[entry(1, Sampler2D::binding_type()), entry(0, UniformBuffer::binding_type())],
    );
    let buffer = BindingResource::Buffer(ctx.register(ResourceKind::Buffer));
    let sampler = BindingResource::Sampler(ctx.register(ResourceKind::Sampler));
    let group = Group::new(&mut ctx, &layout, vec![buffer, sampler]).unwrap();
    assert_eq!(
        *group.entries(),
        vec![
            GroupEntry { binding: 0, resource: buffer },
            GroupEntry { binding: 1, resource: sampler },
        ]
    );
    assert_eq!(
        Group::new(&mut ctx, &layout, vec![sampler, buffer]).err(),
        Some(RenderError::ResourceBindingMismatch)
    );
}

#[test]
fn group_of_another_length_is_rejected() {
    let mut ctx = Context::new(true, true).unwrap();
    let layout = texture_and_sampler(&mut ctx);
    let view = BindingResource::TextureView(ctx.register(ResourceKind::TextureView));
    let sampler = BindingResource::Sampler(ctx.register(ResourceKind::Sampler));
    for resources in [vec![], vec![view], vec![view, sampler, sampler]] {
        assert_eq!(
            Group::new(&mut ctx, &layout, resources).err(),
            Some(RenderError::ResourceBindingMismatch)
        );
        assert_eq!(ctx.resource_count(), 3);
    }
    assert!(Group::new(&mut ctx, &layout, vec![view, sampler]).is_ok());
}

#[test]
fn group_of_another_kind_is_rejected() {
    let mut ctx = Context::new(true, true).unwrap();
    let layout = texture_and_sampler(&mut ctx);
    let view = BindingResource::TextureView(ctx.register(ResourceKind::TextureView));
    let sampler = BindingResource::Sampler(ctx.register(ResourceKind::Sampler));
    let buffer = BindingResource::Buffer(ctx.register(ResourceKind::Buffer));
    for resources in [vec![sampler, view], vec![view, buffer], vec![buffer, sampler]] {
        assert_eq!(
            Group::new(&mut ctx, &layout, resources).err(),
            Some(RenderError::ResourceBindingMismatch)
        );
        assert_eq!(ctx.resource_count(), 4);
    }
}

#[test]
fn group_needs_every_index_up_to_its_length() {
    let mut ctx = Context::new(true, true).unwrap();
    let layout = GroupLayout::new(
        &mut ctx,
        &[entry(0, UniformBuffer::binding_type()), entry(2, UniformBuffer::binding_type())],
    );
    let buffer = BindingResource::Buffer(ctx.register(ResourceKind::Buffer));
    assert_eq!(
        Group::new(&mut ctx, &layout, vec![buffer, buffer]).err(),
        Some(RenderError::ResourceBindingMismatch)
    );
}

#[test]
fn empty_group_fits_an_empty_layout() {
    let mut ctx = Context::new(true, true).unwrap();
    let layout = GroupLayout::new(&mut ctx, &[]);
    let group = Group::new(&mut ctx, &layout, vec![]).unwrap();
    assert!(group.entries().is_empty());
}
