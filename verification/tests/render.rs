use kopki::context::{Context, Handle, ResourceKind, SurfaceCapabilities, WindowSurface};
use kopki::error::RenderError;
use kopki::group::{GroupLayout, LayoutEntry, ShaderStages};
use kopki::mesh::StaticMesh;
use kopki::render::{
    resolve_command, resolve_groups, BlendState, BufferSlice, Face, FrontFace, LoadOp,
    MultisampleState, PassOp, PassTarget, Pipeline, PolygonMode, PrimitiveState,
    PrimitiveTopology, RenderCommand, RenderGroup, RenderPass, RenderResource, Submission,
};
use kopki::uniform::UniformBuffer;

const SHADER: &str = "@vertex fn vs_main() {} @fragment fn fs_main() {}";

const BLACK: wgpu::Color = wgpu::Color { r: 0.0, g: 0.0, b: 0.0, a: 0.0 };

fn surface(ctx: &Context, width: u32, height: u32) -> WindowSurface {
    let capabilities = SurfaceCapabilities {
        formats: vec![wgpu::TextureFormat::Bgra8UnormSrgb],
        present_modes: vec![wgpu::PresentMode::Fifo],
        alpha_modes: vec![wgpu::CompositeAlphaMode::Opaque],
    };
    ctx.create_surface(capabilities, width, height).unwrap()
}

fn vertex_layout() -> wgpu::VertexBufferLayout<'static> {
    wgpu::VertexBufferLayout {
        array_stride: 8,
        step_mode: wgpu::VertexStepMode::Vertex,
        attributes: &[wgpu::VertexAttribute {
            format: wgpu::VertexFormat::Float32x2,
            offset: 0,
            shader_location: 0,
        }],
    }
}

fn slice(index: usize, size: u64) -> BufferSlice {
    BufferSlice { buffer: Handle { index }, size }
}

fn live_resources(ctx: &mut Context) -> Vec<RenderResource> {
    let pipeline = ctx.register(ResourceKind::Pipeline);
    let vertices = ctx.register(ResourceKind::Buffer);
    let indices = ctx.register(ResourceKind::Buffer);
    let group = ctx.register(ResourceKind::Group);
    vec![
        RenderResource::Pipeline { pipeline },
        RenderResource::VertexBuffer { slice: BufferSlice { buffer: vertices, size: 24 } },
        RenderResource::IndexBuffer { slice: BufferSlice { buffer: indices, size: 12 } },
        RenderResource::BindGroup { group },
    ]
}

#[test]
fn triangle_is_drawn_in_one_pass_over_a_cleared_surface() {
    let mut ctx = Context::new(true, true).unwrap();
    let surface = surface(&ctx, 800, 600);
    let pipeline = Pipeline::new(SHADER, &mut ctx, &surface, vec![vertex_layout()], &[]);
    let positions: [f32; 6] = [-1.0, -1.0, 1.0, -1.0, 0.0, 1.0];
    let vertices: Vec<u8> = positions.iter().flat_map(|p| p.to_ne_bytes()).collect();
    let mesh = StaticMesh::new(&mut ctx, &vertices, &[0, 1, 2]);
    let group = RenderGroup {
        commands: vec![
            RenderCommand::SetPipeline { resource_index: 0 },
            RenderCommand::SetVertexBuffer { slot: 0, resource_index: 1 },
            RenderCommand::SetIndexBuffer {
                resource_index: 2,
                index_format: wgpu::IndexFormat::Uint32,
            },
            RenderCommand::DrawIndexed { indices: 0..3, base_vertex: 0, instances: 0..1 },
        ],
        resources: vec![
            pipeline.as_resource(),
            mesh.vertex_buffer_resource(),
            mesh.index_buffer_resource(),
        ],
    };
    let frame = ctx.render(&surface, &[&group], BLACK).unwrap();
    assert_eq!(
        frame,
        Submission {
            passes: vec![RenderPass {
                target: PassTarget::Surface { width: 800, height: 600 },
                load: LoadOp::Clear(BLACK),
                ops: vec![
                    PassOp::SetPipeline { pipeline: Handle { index: 0 } },
                    PassOp::SetVertexBuffer { slot: 0, slice: slice(1, 24) },
                    PassOp::SetIndexBuffer {
                        slice: slice(2, 12),
                        index_format: wgpu::IndexFormat::Uint32,
                    },
                    PassOp::DrawIndexed { indices: 0..3, base_vertex: 0, instances: 0..1 },
                ],
            }],
            present: true,
        }
    );
    assert_eq!(mesh.index_count(), 3);
    assert_eq!(mesh.vertex_buffer().contents(), &vertices);
}

#[test]
fn command_past_the_resource_array_is_rejected() {
    let mut ctx = Context::new(true, true).unwrap();
    let surface = surface(&ctx, 800, 600);
    let resources =
        vec![RenderResource::Pipeline { pipeline: ctx.register(ResourceKind::Pipeline) }];
    let alone = RenderGroup {
        commands: vec![RenderCommand::SetPipeline { resource_index: 0 }],
        resources: resources.clone(),
    };
    assert!(ctx.render(&surface, &[&alone], BLACK).is_ok());
    let commands = [
        RenderCommand::SetPipeline { resource_index: 1 },
        RenderCommand::SetBindGroup { index: 0, resource_index: 1 },
        RenderCommand::SetVertexBuffer { slot: 0, resource_index: usize::MAX },
        RenderCommand::SetIndexBuffer {
            resource_index: 2,
            index_format: wgpu::IndexFormat::Uint16,
        },
    ];
    for command in commands {
        let group = RenderGroup {
            commands: vec![RenderCommand::SetPipeline { resource_index: 0 }, command],
            resources: resources.clone(),
        };
        assert_eq!(
            ctx.render(&surface, &[&group], BLACK).err(),
            Some(RenderError::CommandResourceMismatch)
        );
    }
    let empty = RenderGroup {
        commands: vec![RenderCommand::SetPipeline { resource_index: 0 }],
        resources: vec![],
    };
    assert_eq!(
        ctx.render(&surface, &[&empty], BLACK).err(),
        Some(RenderError::CommandResourceMismatch)
    );
}

#[test]
fn command_on_a_resource_of_another_kind_is_rejected() {
    let mut ctx = Context::new(true, true).unwrap();
    let surface = surface(&ctx, 800, 600);
    let resources = live_resources(&mut ctx);
    let commands = [
        RenderCommand::SetPipeline { resource_index: 1 },
        RenderCommand::SetBindGroup { index: 0, resource_index: 0 },
        RenderCommand::SetVertexBuffer { slot: 0, resource_index: 2 },
        RenderCommand::SetIndexBuffer {
            resource_index: 1,
            index_format: wgpu::IndexFormat::Uint32,
        },
    ];
    for command in commands {
        assert_eq!(resolve_command(&ctx, &command, &resources), None);
        let group = RenderGroup { commands: vec![command], resources: resources.clone() };
        assert_eq!(group.resolve(&ctx).err(), Some(RenderError::CommandResourceMismatch));
        assert_eq!(
            ctx.render(&surface, &[&group], BLACK).err(),
            Some(RenderError::CommandResourceMismatch)
        );
    }
}

#[test]
fn one_bad_list_rejects_the_whole_call() {
    let ctx = Context::new(true, true).unwrap();
    let surface = surface(&ctx, 800, 600);
    let good = RenderGroup {
        commands: vec![RenderCommand::Draw { vertices: 0..3, instances: 0..1 }],
        resources: vec![],
    };
    let bad = RenderGroup {
        commands: vec![RenderCommand::SetPipeline { resource_index: 0 }],
        resources: vec![],
    };
    assert!(ctx.render(&surface, &[&good], BLACK).is_ok());
    assert_eq!(
        ctx.render(&surface, &[&good, &bad], BLACK).err(),
        Some(RenderError::CommandResourceMismatch)
    );
    assert_eq!(
        ctx.render(&surface, &[&bad, &good], BLACK).err(),
        Some(RenderError::CommandResourceMismatch)
    );
}

#[test]
fn each_command_resolves_to_its_operation() {
    let mut ctx = Context::new(true, true).unwrap();
    let resources = live_resources(&mut ctx);
    assert_eq!(
        resolve_command(&ctx, &RenderCommand::SetPipeline { resource_index: 0 }, &resources),
        Some(PassOp::SetPipeline { pipeline: Handle { index: 0 } })
    );
    assert_eq!(
        resolve_command(
            &ctx,
            &RenderCommand::SetBindGroup { index: 2, resource_index: 3 },
            &resources
        ),
        Some(PassOp::SetBindGroup { index: 2, group: Handle { index: 3 } })
    );
    assert_eq!(
        resolve_command(
            &ctx,
            &RenderCommand::SetVertexBuffer { slot: 1, resource_index: 1 },
            &resources
        ),
        Some(PassOp::SetVertexBuffer { slot: 1, slice: slice(1, 24) })
    );
    assert_eq!(
        resolve_command(
            &ctx,
            &RenderCommand::SetIndexBuffer {
                resource_index: 2,
                index_format: wgpu::IndexFormat::Uint16,
            },
            &resources
        ),
        Some(PassOp::SetIndexBuffer {
            slice: slice(2, 12),
            index_format: wgpu::IndexFormat::Uint16,
        })
    );
    assert_eq!(
        resolve_command(
            &ctx,
            &RenderCommand::DrawIndexed { indices: 3..9, base_vertex: -2, instances: 1..4 },
            &resources
        ),
        Some(PassOp::DrawIndexed { indices: 3..9, base_vertex: -2, instances: 1..4 })
    );
    assert_eq!(
        resolve_command(&ctx, &RenderCommand::Draw { vertices: 0..3, instances: 0..1 }, &vec![]),
        Some(PassOp::Draw { vertices: 0..3, instances: 0..1 })
    );
}

#[test]
fn command_on_a_resource_that_is_not_live_is_rejected() {
    let mut ctx = Context::new(true, true).unwrap();
    let surface = surface(&ctx, 800, 600);
    let resources = live_resources(&mut ctx);
    let commands = || {
        vec![
            RenderCommand::SetPipeline { resource_index: 0 },
            RenderCommand::SetVertexBuffer { slot: 0, resource_index: 1 },
            RenderCommand::SetIndexBuffer {
                resource_index: 2,
                index_format: wgpu::IndexFormat::Uint32,
            },
            RenderCommand::SetBindGroup { index: 0, resource_index: 3 },
        ]
    };
    let group = RenderGroup { commands: commands(), resources: resources.clone() };
    assert!(ctx.render(&surface, &[&group], BLACK).is_ok());
    let foreign = RenderGroup {
        commands: vec![RenderCommand::SetPipeline { resource_index: 0 }],
        resources: vec![RenderResource::Pipeline { pipeline: Handle { index: 4 } }],
    };
    assert_eq!(
        ctx.render(&surface, &[&foreign], BLACK).err(),
        Some(RenderError::CommandResourceMismatch)
    );
    let miscast = RenderGroup {
        commands: vec![RenderCommand::SetPipeline { resource_index: 0 }],
        resources: vec![RenderResource::Pipeline { pipeline: Handle { index: 1 } }],
    };
    assert_eq!(
        ctx.render(&surface, &[&miscast], BLACK).err(),
        Some(RenderError::CommandResourceMismatch)
    );
    assert!(ctx.release(Handle { index: 2 }));
    assert_eq!(
        ctx.render(&surface, &[&group], BLACK).err(),
        Some(RenderError::CommandResourceMismatch)
    );
    let unused = RenderGroup {
        commands: vec![RenderCommand::SetPipeline { resource_index: 0 }],
        resources,
    };
    assert!(ctx.render(&surface, &[&unused], BLACK).is_ok());
}

#[test]
fn lists_run_in_order_with_nothing_between_them() {
    let mut ctx = Context::new(true, true).unwrap();
    let surface = surface(&ctx, 320, 200);
    assert_eq!(ctx.register(ResourceKind::Pipeline), Handle { index: 0 });
    assert_eq!(ctx.register(ResourceKind::Buffer), Handle { index: 1 });
    assert_eq!(ctx.register(ResourceKind::Buffer), Handle { index: 2 });
    let shared = RenderGroup {
        commands: vec![RenderCommand::SetPipeline { resource_index: 0 }],
        resources: vec![RenderResource::Pipeline { pipeline: Handle { index: 0 } }],
    };
    let first = RenderGroup {
        commands: vec![
            RenderCommand::SetVertexBuffer { slot: 0, resource_index: 0 },
            RenderCommand::Draw { vertices: 0..3, instances: 0..1 },
        ],
        resources: vec![RenderResource::VertexBuffer { slice: slice(1, 24) }],
    };
    let second = RenderGroup {
        commands: vec![
            RenderCommand::SetVertexBuffer { slot: 0, resource_index: 0 },
            RenderCommand::Draw { vertices: 0..6, instances: 0..2 },
        ],
        resources: vec![RenderResource::VertexBuffer { slice: slice(2, 48) }],
    };
    let frame = ctx.render(&surface, &[&shared, &first, &second], BLACK).unwrap();
    assert_eq!(frame.passes.len(), 1);
    assert_eq!(
        frame.passes[0].ops,
        vec![
            PassOp::SetPipeline { pipeline: Handle { index: 0 } },
            PassOp::SetVertexBuffer { slot: 0, slice: slice(1, 24) },
            PassOp::Draw { vertices: 0..3, instances: 0..1 },
            PassOp::SetVertexBuffer { slot: 0, slice: slice(2, 48) },
            PassOp::Draw { vertices: 0..6, instances: 0..2 },
        ]
    );
    let mut joined = resolve_groups(&ctx, &[&shared, &first]).unwrap();
    joined.extend(resolve_groups(&ctx, &[&second]).unwrap());
    assert_eq!(joined, frame.passes[0].ops);
    let swapped = ctx.render(&surface, &[&second, &first, &shared], BLACK).unwrap();
    assert_ne!(swapped.passes[0].ops, frame.passes[0].ops);
}

#[test]
fn render_without_lists_clears_and_presents() {
    let ctx = Context::new(true, true).unwrap();
    let surface = surface(&ctx, 320, 200);
    let color = wgpu::Color { r: 0.25, g: 0.5, b: 0.75, a: 1.0 };
    let frame = ctx.render(&surface, &[], color).unwrap();
    assert_eq!(
        frame,
        Submission {
            passes: vec![RenderPass {
                target: PassTarget::Surface { width: 320, height: 200 },
                load: LoadOp::Clear(color),
                ops: vec![],
            }],
            present: true,
        }
    );
}

#[test]
fn simple_pipeline_has_the_common_defaults() {
    let mut ctx = Context::new(true, true).unwrap();
    let surface = surface(&ctx, 800, 600);
    let uniforms = GroupLayout::new(
        &mut ctx,
        &[LayoutEntry {
            binding: 0,
            visibility: ShaderStages::fragment(),
            ty: UniformBuffer::binding_type(),
        }],
    );
    let other = GroupLayout::new(&mut ctx, &[]);
    let pipeline =
        Pipeline::new(SHADER, &mut ctx, &surface, vec![vertex_layout()], &[&uniforms, &other]);
    assert_eq!(pipeline.handle(), Handle { index: 2 });
    assert_eq!(ctx.kind_of(pipeline.handle()), Some(ResourceKind::Pipeline));
    let descriptor = pipeline.descriptor();
    assert_eq!(descriptor.shader_source, SHADER);
    assert_eq!(descriptor.vertex_entry_point, "vs_main");
    assert_eq!(descriptor.fragment_entry_point, "fs_main");
    assert_eq!(descriptor.vertex_buffer_layouts, vec![vertex_layout()]);
    assert_eq!(descriptor.bind_group_layouts, vec![Handle { index: 0 }, Handle { index: 1 }]);
    assert_eq!(descriptor.target_format, wgpu::TextureFormat::Bgra8UnormSrgb);
    assert_eq!(descriptor.blend, BlendState::Replace);
    assert_eq!(
        descriptor.primitive,
        PrimitiveState {
            topology: PrimitiveTopology::TriangleList,
            strip_index_format: None,
            front_face: FrontFace::Ccw,
            cull_mode: Some(Face::Back),
            polygon_mode: PolygonMode::Fill,
            unclipped_depth: false,
            conservative: false,
        }
    );
    assert_eq!(
        descriptor.multisample,
        MultisampleState { count: 1, mask: u64::MAX, alpha_to_coverage_enabled: false }
    );
    assert_eq!(descriptor.depth_stencil, None);
    assert_eq!(descriptor.multiview, None);
    assert_eq!(pipeline.as_resource(), RenderResource::Pipeline { pipeline: Handle { index: 2 } });
}

#[test]
fn extended_pipeline_takes_what_it_is_given() {
    let mut ctx = Context::new(true, true).unwrap();
    let surface = surface(&ctx, 800, 600);
    let primitive = PrimitiveState {
        topology: PrimitiveTopology::LineStrip,
        strip_index_format: Some(wgpu::IndexFormat::Uint16),
        front_face: FrontFace::Cw,
        cull_mode: None,
        polygon_mode: PolygonMode::Line,
        unclipped_depth: true,
        conservative: false,
    };
    let multisample = MultisampleState { count: 4, mask: 0b1010, alpha_to_coverage_enabled: true };
    let depth = wgpu::DepthStencilState {
        format: wgpu::TextureFormat::Depth32Float,
        depth_write_enabled: true,
        depth_compare: wgpu::CompareFunction::Less,
        stencil: wgpu::StencilState::default(),
        bias: wgpu::DepthBiasState::default(),
    };
    let pipeline = Pipeline::new_extra(
        SHADER,
        &mut ctx,
        &surface,
        vec![],
        &[],
        primitive,
        multisample,
        Some(depth.clone()),
        Some(2),
    );
    let descriptor = pipeline.descriptor();
    assert_eq!(descriptor.primitive, primitive);
    assert_eq!(descriptor.multisample, multisample);
    assert_eq!(descriptor.depth_stencil, Some(depth));
    assert_eq!(descriptor.multiview, Some(2));
    assert!(descriptor.vertex_buffer_layouts.is_empty());
    assert!(descriptor.bind_group_layouts.is_empty());
    let flat = Pipeline::new_extra(
        SHADER, &mut ctx, &surface, vec![], &[], primitive, multisample, None, Some(0),
    );
    assert_eq!(flat.descriptor().multiview, None);
    assert_eq!(flat.handle(), Handle { index: 1 });
}

#[test]
fn checked_list_is_rejected_when_it_is_made() {
    let mut ctx = Context::new(true, true).unwrap();
    let resources =
        vec![RenderResource::Pipeline { pipeline: ctx.register(ResourceKind::Pipeline) }];
    let good = RenderGroup::new(
        &ctx,
        vec![
            RenderCommand::SetPipeline { resource_index: 0 },
            RenderCommand::Draw { vertices: 0..3, instances: 0..1 },
        ],
        resources.clone(),
    )
    .unwrap();
    assert_eq!(good.commands.len(), 2);
    assert_eq!(good.resources, resources);
    assert_eq!(
        RenderGroup::new(
            &ctx,
            vec![RenderCommand::SetPipeline { resource_index: 1 }],
            resources.clone()
        )
        .err(),
        Some(RenderError::CommandResourceMismatch)
    );
    assert_eq!(
        RenderGroup::new(
            &ctx,
            vec![RenderCommand::SetVertexBuffer { slot: 0, resource_index: 0 }],
            resources.clone()
        )
        .err(),
        Some(RenderError::CommandResourceMismatch)
    );
    assert!(RenderGroup::new(&ctx, vec![], vec![]).is_ok());
    assert!(ctx.release(Handle { index: 0 }));
    assert_eq!(
        RenderGroup::new(
            &ctx,
            vec![RenderCommand::SetPipeline { resource_index: 0 }],
            resources
        )
        .err(),
        Some(RenderError::CommandResourceMismatch)
    );
}
