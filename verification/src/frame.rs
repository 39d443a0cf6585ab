//! The offscreen framebuffer: what an application draws into, frame by
//! frame, and what is then composited onto the surface.

use vstd::prelude::*;
use std::ops::Range;
use crate::context::{Context, Handle, ResourceKind, WindowSurface};
use crate::error::RenderError;
use crate::format::format_pixel_byte_cost;
use crate::group::{
    matches_layout, slot_kind_from, BindingResource, BindingType,
    BufferBindingType, Group, GroupEntry, GroupLayout, LayoutEntry, SamplerBindingType,
    ShaderStages, TextureSampleType, TextureViewDimension,
};
use crate::render::{
    all_resolvable, ops_live, resolve_groups, resolved_groups, single_sample, surface_target,
    triangle_list, BlendState, FrontFace, LoadOp, MultisampleState, PassOp, PassTarget, Pipeline,
    PolygonMode, PrimitiveState, PrimitiveTopology, RenderGroup, RenderPass, Submission,
};
use crate::texture::{
    fill_length, repeat_nearest, RenderableTexture, Sampler2D, TextureSampler, TextureView2D,
};

verus! {

/// The source of the compositing pass: one triangle that covers the target,
/// each fragment taking the colour of the offscreen texture at its place.
pub const PRESENT_SHADER: &'static str = "struct Globals {
    framebuffer_size: vec2<f32>,
}

@group(0) @binding(0) var frame_texture: texture_2d<f32>;
@group(0) @binding(1) var frame_sampler: sampler;
@group(1) @binding(0) var<uniform> globals: Globals;

@vertex
fn vs_main(@builtin(vertex_index) index: u32) -> @builtin(position) vec4<f32> {
    let x = f32(i32(index & 1u) * 4 - 1);
    let y = f32(i32(index >> 1u) * 4 - 1);
    return vec4<f32>(x, y, f32(0), f32(1));
}

@fragment
fn fs_main(@builtin(position) position: vec4<f32>) -> @location(0) vec4<f32> {
    return textureSample(frame_texture, frame_sampler, position.xy / globals.framebuffer_size);
}
";

/// The slots of the group that binds the offscreen texture: the texture at
/// index 0 and its sampler at index 1, both for the fragment stage.
pub open spec fn texture_layout_entries() -> Seq<LayoutEntry> {
    seq![
        LayoutEntry {
            binding: 0,
            visibility: ShaderStages { vertex: false, fragment: true, compute: false },
            ty: BindingType::Texture {
                sample_type: TextureSampleType::Float { filterable: true },
                view_dimension: TextureViewDimension::D2,
                multisampled: false,
            },
        },
        LayoutEntry {
            binding: 1,
            visibility: ShaderStages { vertex: false, fragment: true, compute: false },
            ty: BindingType::Sampler(SamplerBindingType::Filtering),
        },
    ]
}

/// The slot of the group that binds the dimensions: one uniform buffer at
/// index 0, for the fragment stage.
pub open spec fn globals_layout_entries() -> Seq<LayoutEntry> {
    seq![
        LayoutEntry {
            binding: 0,
            visibility: ShaderStages { vertex: false, fragment: true, compute: false },
            ty: BindingType::Buffer {
                ty: BufferBindingType::Uniform,
                has_dynamic_offset: false,
                min_binding_size: None,
            },
        },
    ]
}

/// The kinds of the nine resources of a framebuffer, in the order in which
/// it creates them.
pub open spec fn framebuffer_resources() -> Seq<Option<ResourceKind>> {
    seq![
        Some(ResourceKind::Texture),
        Some(ResourceKind::TextureView),
        Some(ResourceKind::Sampler),
        Some(ResourceKind::GroupLayout),
        Some(ResourceKind::GroupLayout),
        Some(ResourceKind::Buffer),
        Some(ResourceKind::Group),
        Some(ResourceKind::Group),
        Some(ResourceKind::Pipeline),
    ]
}

/// One frame being recorded: the offscreen target and the passes drawn into
/// it so far. Its view is those passes.
#[derive(Debug, PartialEq)]
pub struct Frame {
    target: PassTarget,
    passes: Vec<RenderPass>,
}

impl View for Frame {
    type V = Seq<RenderPass>;

    closed spec fn view(&self) -> Seq<RenderPass> {
        self.passes@
    }
}

impl Frame {
    /// What every pass of the frame draws to.
    pub closed spec fn target_of(&self) -> PassTarget {
        self.target
    }

    /// What every pass of the frame draws to.
    pub fn target(&self) -> (target: PassTarget)
        ensures
            target == self.target_of(),
    {
        self.target
    }

    /// The passes recorded so far.
    pub fn passes(&self) -> (passes: &Vec<RenderPass>)
        ensures
            passes@ == self@,
    {
        &self.passes
    }

    /// Ends the recording without compositing: the passes of the frame as a
    /// command buffer of their own, after which nothing is presented.
    pub fn finish(self) -> (submission: Submission)
        ensures
            !submission.present,
            submission.passes@ == self@,
    {
        Submission { passes: self.passes, present: false }
    }

    /// Records a pass as it is given, after those recorded so far.
    pub fn record(&mut self, pass: RenderPass)
        ensures
            final(self).target_of() == old(self).target_of(),
            final(self)@ == old(self)@.push(pass),
    {
        self.passes.push(pass);
    }

    /// Records a pass that clears the target to `color` and draws nothing.
    pub fn clear(&mut self, color: wgpu::Color)
        ensures
            final(self).target_of() == old(self).target_of(),
            final(self)@.len() == old(self)@.len() + 1,
            final(self)@.drop_last() == old(self)@,
            final(self)@.last().target == old(self).target_of(),
            final(self)@.last().load == LoadOp::Clear(color),
            final(self)@.last().ops@ == Seq::<PassOp>::empty(),
    {
        self.passes.push(RenderPass { target: self.target, load: LoadOp::Clear(color), ops: Vec::new() });
        assert(self.passes@.drop_last() =~= old(self)@);
    }

    /// Records a pass that keeps what the target holds and runs the
    /// operations of the lists over it, as [`Context::render`] does over a
    /// surface. One command that does not resolve rejects the lists, and the
    /// frame stays as it was.
    pub fn draw(&mut self, ctx: &Context, render_groups: &[&RenderGroup]) -> (r: Result<
        (),
        RenderError,
    >)
        ensures
            match r {
                Ok(()) => {
                    &&& all_resolvable(ctx@, render_groups@)
                    &&& final(self).target_of() == old(self).target_of()
                    &&& final(self)@.len() == old(self)@.len() + 1
                    &&& final(self)@.drop_last() == old(self)@
                    &&& final(self)@.last().target == old(self).target_of()
                    &&& final(self)@.last().load == LoadOp::Load
                    &&& final(self)@.last().ops@ == resolved_groups(ctx@, render_groups@)
                    &&& ops_live(ctx@, final(self)@.last().ops@)
                },
                Err(e) => {
                    &&& !all_resolvable(ctx@, render_groups@)
                    &&& e == RenderError::CommandResourceMismatch
                    &&& *final(self) == *old(self)
                },
            },
    {
        match resolve_groups(ctx, render_groups) {
            Ok(ops) => {
                self.passes.push(RenderPass { target: self.target, load: LoadOp::Load, ops });
                assert(self.passes@.drop_last() =~= old(self)@);
                Ok(())
            },
            Err(e) => Err(e),
        }
    }
}

/// The offscreen colour target of an application, with all that composites
/// it onto a surface: its sampler, the group that binds both, a uniform
/// buffer of its dimensions with a group of its own, and the pipeline of the
/// compositing pass.
#[derive(Debug, PartialEq)]
pub struct FrameBuffer {
    texture: RenderableTexture,
    view: TextureView2D,
    sampler: Sampler2D,
    texture_bind_group_layout: GroupLayout,
    global_bind_group_layout: GroupLayout,
    global_buffer: Handle,
    texture_bind_group: Group,
    global_bind_group: Group,
    pipeline: Pipeline,
}

impl FrameBuffer {
    #[verifier::type_invariant]
    spec fn inv(self) -> bool {
        self.wf()
    }

    /// The offscreen texture.
    pub closed spec fn offscreen(&self) -> RenderableTexture {
        self.texture
    }

    /// The view through which the offscreen texture is bound.
    pub closed spec fn offscreen_view(&self) -> TextureView2D {
        self.view
    }

    /// The sampler of the offscreen texture.
    pub closed spec fn offscreen_sampler(&self) -> Sampler2D {
        self.sampler
    }

    /// The layout of the group of the texture.
    pub closed spec fn texture_layout(&self) -> GroupLayout {
        self.texture_bind_group_layout
    }

    /// The layout of the group of the dimensions.
    pub closed spec fn globals_layout(&self) -> GroupLayout {
        self.global_bind_group_layout
    }

    /// The name of the uniform buffer of the dimensions.
    pub closed spec fn globals_buffer(&self) -> Handle {
        self.global_buffer
    }

    /// The width and height that the uniform buffer holds, as two numbers
    /// of single precision in the backend's memory.
    pub closed spec fn dimensions(&self) -> (u32, u32) {
        self.texture.size()
    }

    /// The group that binds the offscreen texture and its sampler.
    pub closed spec fn texture_group(&self) -> Group {
        self.texture_bind_group
    }

    /// The group that binds the dimensions.
    pub closed spec fn globals_group(&self) -> Group {
        self.global_bind_group
    }

    /// The pipeline of the compositing pass.
    pub closed spec fn compositor(&self) -> Pipeline {
        self.pipeline
    }

    /// How the parts of a framebuffer hang together, at every moment.
    pub open spec fn wf(&self) -> bool {
        &&& self.offscreen_view().texture_id() == self.offscreen().id()
        &&& self.dimensions() == self.offscreen().size()
        &&& self.offscreen_sampler().desc() == repeat_nearest()
        &&& self.texture_layout()@ == texture_layout_entries()
        &&& self.globals_layout()@ == globals_layout_entries()
        &&& self.texture_group().layout_id() == self.texture_layout().id()
        &&& self.texture_group()@ == seq![
            GroupEntry {
                binding: 0,
                resource: BindingResource::TextureView(self.offscreen_view().id()),
            },
            GroupEntry {
                binding: 1,
                resource: BindingResource::Sampler(self.offscreen_sampler().id()),
            },
        ]
        &&& self.globals_group().layout_id() == self.globals_layout().id()
        &&& self.globals_group()@ == seq![
            GroupEntry { binding: 0, resource: BindingResource::Buffer(self.globals_buffer()) },
        ]
        &&& self.compositor().desc().shader_source@ == PRESENT_SHADER@
        &&& self.compositor().desc().vertex_buffer_layouts@.len() == 0
        &&& self.compositor().desc().bind_group_layouts@ == seq![
            self.texture_layout().id(),
            self.globals_layout().id(),
        ]
        &&& self.compositor().desc().blend == BlendState::Replace
        &&& self.compositor().desc().primitive == triangle_list(None)
        &&& self.compositor().desc().multisample == single_sample()
        &&& self.compositor().desc().depth_stencil is None
        &&& self.compositor().desc().multiview is None
    }

    /// Whether the framebuffer has the size and format of a surface, so that
    /// the compositing pass samples a texture of the size it draws to.
    pub open spec fn fits(&self, surface: &WindowSurface) -> bool {
        &&& self.offscreen().size() == (surface.config().width, surface.config().height)
        &&& self.offscreen().pixel_format() == surface.config().format
        &&& self.dimensions() == (surface.config().width, surface.config().height)
    }

    /// The operations of the compositing pass: the pipeline, the texture
    /// group at index 0, the dimensions at index 1, and one triangle.
    pub open spec fn composite_ops(&self) -> Seq<PassOp> {
        seq![
            PassOp::SetPipeline { pipeline: self.compositor().id() },
            PassOp::SetBindGroup { index: 0, group: self.texture_group().id() },
            PassOp::SetBindGroup { index: 1, group: self.globals_group().id() },
            PassOp::Draw {
                vertices: Range { start: 0u32, end: 3u32 },
                instances: Range { start: 0u32, end: 1u32 },
            },
        ]
    }

    /// Whether `resized` is `self` after it took the size and format of
    /// `surface`: the offscreen texture and the dimensions are new, under
    /// their old names, and every other part is the same.
    pub closed spec fn resized_to(&self, surface: &WindowSurface, resized: FrameBuffer) -> bool {
        &&& fill_length(
            surface.config().width,
            surface.config().height,
            format_pixel_byte_cost(surface.config().format),
        ) == Some(resized.texture.fill())
        &&& resized.texture.size() == (surface.config().width, surface.config().height)
        &&& resized.texture.pixel_format() == surface.config().format
        &&& resized.texture.id() == self.texture.id()
        &&& resized.view == self.view
        &&& resized.sampler == self.sampler
        &&& resized.texture_bind_group_layout == self.texture_bind_group_layout
        &&& resized.global_bind_group_layout == self.global_bind_group_layout
        &&& resized.global_buffer == self.global_buffer
        &&& resized.texture_bind_group == self.texture_bind_group
        &&& resized.global_bind_group == self.global_bind_group
        &&& resized.pipeline == self.pipeline
    }

    /// Creates the framebuffer of a surface: nine resources, in the order of
    /// [`framebuffer_resources`]. A surface whose format cannot be a colour
    /// target is rejected, and then nothing is created.
    pub fn new(ctx: &mut Context, surface: &WindowSurface) -> (r: Result<FrameBuffer, RenderError>)
        ensures
            match r {
                Ok(framebuffer) => {
                    &&& framebuffer.wf()
                    &&& framebuffer.fits(surface)
                    &&& fill_length(
                        surface.config().width,
                        surface.config().height,
                        format_pixel_byte_cost(surface.config().format),
                    ) == Some(framebuffer.offscreen().fill())
                    &&& framebuffer.compositor().desc().target_format == surface.config().format
                    &&& final(ctx)@ == old(ctx)@ + framebuffer_resources()
                    &&& framebuffer.offscreen().id().index == old(ctx)@.len()
                    &&& framebuffer.offscreen_view().id().index == old(ctx)@.len() + 1
                    &&& framebuffer.offscreen_sampler().id().index == old(ctx)@.len() + 2
                    &&& framebuffer.texture_layout().id().index == old(ctx)@.len() + 3
                    &&& framebuffer.globals_layout().id().index == old(ctx)@.len() + 4
                    &&& framebuffer.globals_buffer().index == old(ctx)@.len() + 5
                    &&& framebuffer.texture_group().id().index == old(ctx)@.len() + 6
                    &&& framebuffer.globals_group().id().index == old(ctx)@.len() + 7
                    &&& framebuffer.compositor().id().index == old(ctx)@.len() + 8
                },
                Err(e) => {
                    &&& fill_length(
                        surface.config().width,
                        surface.config().height,
                        format_pixel_byte_cost(surface.config().format),
                    ) is None
                    &&& e == RenderError::SurfaceConfigurationInvalid
                    &&& *final(ctx) == *old(ctx)
                },
            },
    {
        let texture = match RenderableTexture::from_surface(ctx, surface) {
            Ok(texture) => texture,
            Err(e) => {
                return Err(e);
            },
        };
        let view = texture.create_view(ctx);
        let sampler = TextureSampler::new(ctx);

        let mut texture_entries: Vec<LayoutEntry> = Vec::new();
        texture_entries.push(
            LayoutEntry {
                binding: 0,
                visibility: ShaderStages::fragment(),
                ty: TextureView2D::binding_type(),
            },
        );
        texture_entries.push(
            LayoutEntry {
                binding: 1,
                visibility: ShaderStages::fragment(),
                ty: Sampler2D::binding_type(),
            },
        );
        assert(texture_entries@ =~= texture_layout_entries());
        let texture_bind_group_layout = GroupLayout::new(ctx, texture_entries.as_slice());

        let mut global_entries: Vec<LayoutEntry> = Vec::new();
        global_entries.push(
            LayoutEntry {
                binding: 0,
                visibility: ShaderStages::fragment(),
                ty: BindingType::Buffer {
                    ty: BufferBindingType::Uniform,
                    has_dynamic_offset: false,
                    min_binding_size: None,
                },
            },
        );
        assert(global_entries@ =~= globals_layout_entries());
        let global_bind_group_layout = GroupLayout::new(ctx, global_entries.as_slice());

        let global_buffer = ctx.register(ResourceKind::Buffer);

        let mut texture_resources: Vec<BindingResource> = Vec::new();
        texture_resources.push(view.as_binding_resource());
        texture_resources.push(sampler.as_binding_resource());
        proof {
            reveal_with_fuel(slot_kind_from, 3);
            assert(matches_layout(ctx@, texture_bind_group_layout@, texture_resources@));
        }
        let texture_bind_group = match Group::new(ctx, &texture_bind_group_layout, texture_resources) {
            Ok(group) => group,
            Err(e) => {
                return Err(e);
            },
        };

        let mut global_resources: Vec<BindingResource> = Vec::new();
        global_resources.push(BindingResource::Buffer(global_buffer));
        proof {
            reveal_with_fuel(slot_kind_from, 2);
            assert(matches_layout(ctx@, global_bind_group_layout@, global_resources@));
        }
        let global_bind_group = match Group::new(ctx, &global_bind_group_layout, global_resources) {
            Ok(group) => group,
            Err(e) => {
                return Err(e);
            },
        };

        let mut layouts: Vec<&GroupLayout> = Vec::new();
        layouts.push(&texture_bind_group_layout);
        layouts.push(&global_bind_group_layout);
        let pipeline = Pipeline::new_extra(
            PRESENT_SHADER,
            ctx,
            surface,
            Vec::new(),
            layouts.as_slice(),
            PrimitiveState {
                topology: PrimitiveTopology::TriangleList,
                strip_index_format: None,
                front_face: FrontFace::Ccw,
                cull_mode: None,
                polygon_mode: PolygonMode::Fill,
                unclipped_depth: false,
                conservative: false,
            },
            MultisampleState { count: 1, mask: 0xffff_ffff_ffff_ffff, alpha_to_coverage_enabled: false },
            None,
            None,
        );
        proof {
            assert(texture_bind_group@ =~= seq![
                GroupEntry { binding: 0, resource: BindingResource::TextureView(view.id()) },
                GroupEntry { binding: 1, resource: BindingResource::Sampler(sampler.id()) },
            ]);
            assert(global_bind_group@ =~= seq![
                GroupEntry { binding: 0, resource: BindingResource::Buffer(global_buffer) },
            ]);
            assert(pipeline.desc().bind_group_layouts@ =~= seq![
                texture_bind_group_layout.id(),
                global_bind_group_layout.id(),
            ]);
            assert(ctx@ =~= old(ctx)@ + framebuffer_resources());
        }
        Ok(
            FrameBuffer {
                texture,
                view,
                sampler,
                texture_bind_group_layout,
                global_bind_group_layout,
                global_buffer,
                texture_bind_group,
                global_bind_group,
                pipeline,
            },
        )
    }

    /// Follows a resize of the surface: the offscreen texture is made anew
    /// in the surface's size and format, under its old name, and the uniform
    /// buffer takes the new dimensions. The backend then makes the texture,
    /// its view and the group that binds it anew, and writes the buffer;
    /// the pipeline and the other parts are kept. A surface that
    /// [`FrameBuffer::new`] would reject is rejected, and the framebuffer
    /// stays as it was.
    ///
    /// This has to follow every resize of the surface before the next
    /// frame is presented: until then the compositing pass samples a texture
    /// of the old size.
    pub fn rebuild(&mut self, surface: &WindowSurface) -> (r: Result<(), RenderError>)
        ensures
            final(self).wf(),
            match r {
                Ok(()) => {
                    &&& old(self).resized_to(surface, *final(self))
                    &&& final(self).fits(surface)
                    &&& fill_length(
                        surface.config().width,
                        surface.config().height,
                        format_pixel_byte_cost(surface.config().format),
                    ) == Some(final(self).offscreen().fill())
                    &&& final(self).offscreen().id() == old(self).offscreen().id()
                    &&& final(self).offscreen_view() == old(self).offscreen_view()
                    &&& final(self).offscreen_sampler() == old(self).offscreen_sampler()
                    &&& final(self).texture_layout() == old(self).texture_layout()
                    &&& final(self).globals_layout() == old(self).globals_layout()
                    &&& final(self).globals_buffer() == old(self).globals_buffer()
                    &&& final(self).texture_group() == old(self).texture_group()
                    &&& final(self).globals_group() == old(self).globals_group()
                    &&& final(self).compositor() == old(self).compositor()
                },
                Err(e) => {
                    &&& fill_length(
                        surface.config().width,
                        surface.config().height,
                        format_pixel_byte_cost(surface.config().format),
                    ) is None
                    &&& e == RenderError::SurfaceConfigurationInvalid
                    &&& *final(self) == *old(self)
                },
            },
    {
        proof {
            use_type_invariant(&*self);
        }
        match self.texture.resized(surface) {
            Ok(texture) => {
                self.texture = texture;
                Ok(())
            },
            Err(e) => Err(e),
        }
    }

    /// [`FrameBuffer::rebuild`], under the name of what it follows.
    pub fn resize(&mut self, surface: &WindowSurface) -> (r: Result<(), RenderError>)
        ensures
            final(self).wf(),
            match r {
                Ok(()) => old(self).resized_to(surface, *final(self)) && final(self).fits(surface),
                Err(e) => {
                    &&& fill_length(
                        surface.config().width,
                        surface.config().height,
                        format_pixel_byte_cost(surface.config().format),
                    ) is None
                    &&& e == RenderError::SurfaceConfigurationInvalid
                    &&& *final(self) == *old(self)
                },
            },
    {
        self.rebuild(surface)
    }

    /// Begins a frame: a recording into the offscreen texture, with no pass
    /// in it yet.
    pub fn frame(&self) -> (frame: Frame)
        ensures
            frame.target_of() == self.offscreen().as_target(),
            frame@ == Seq::<RenderPass>::empty(),
    {
        let target = PassTarget::Texture {
            texture: self.texture.handle(),
            width: self.texture.width(),
            height: self.texture.height(),
        };
        Frame { target, passes: Vec::new() }
    }

    /// The compositing pass: it keeps what the surface image holds and draws
    /// one triangle over all of it with the offscreen texture bound.
    pub fn composite(&self, surface: &WindowSurface) -> (pass: RenderPass)
        ensures
            pass.target == surface_target(surface),
            pass.load == LoadOp::Load,
            pass.ops@ == self.composite_ops(),
    {
        let configuration = surface.configuration();
        let mut ops: Vec<PassOp> = Vec::new();
        ops.push(PassOp::SetPipeline { pipeline: self.pipeline.handle() });
        ops.push(PassOp::SetBindGroup { index: 0, group: self.texture_bind_group.handle() });
        ops.push(PassOp::SetBindGroup { index: 1, group: self.global_bind_group.handle() });
        ops.push(
            PassOp::Draw {
                vertices: Range { start: 0, end: 3 },
                instances: Range { start: 0, end: 1 },
            },
        );
        assert(ops@ =~= self.composite_ops());
        RenderPass {
            target: PassTarget::Surface { width: configuration.width, height: configuration.height },
            load: LoadOp::Load,
            ops,
        }
    }

    /// Ends a frame: the passes recorded into it, then the compositing pass,
    /// as one command buffer, and the surface image presented after it.
    pub fn present_with_encoder(&self, surface: &WindowSurface, encoder: Frame) -> (submission:
        Submission)
        ensures
            submission.present,
            submission.passes@.len() == encoder@.len() + 1,
            submission.passes@.drop_last() == encoder@,
            submission.passes@.last().target == surface_target(surface),
            submission.passes@.last().load == LoadOp::Load,
            submission.passes@.last().ops@ == self.composite_ops(),
    {
        let mut passes = encoder.passes;
        passes.push(self.composite(surface));
        assert(passes@.drop_last() =~= encoder@);
        Submission { passes, present: true }
    }

    /// Composites the offscreen texture as it stands: a command buffer of
    /// the compositing pass alone, and the surface image presented after it.
    pub fn present(&self, surface: &WindowSurface) -> (submission: Submission)
        ensures
            submission.present,
            submission.passes@.len() == 1,
            submission.passes@[0].target == surface_target(surface),
            submission.passes@[0].load == LoadOp::Load,
            submission.passes@[0].ops@ == self.composite_ops(),
    {
        let mut passes: Vec<RenderPass> = Vec::new();
        passes.push(self.composite(surface));
        Submission { passes, present: true }
    }

    /// Whether the framebuffer has the size of a surface, as it has after
    /// [`FrameBuffer::rebuild`] and until the surface is resized again.
    pub fn is_current(&self, surface: &WindowSurface) -> (current: bool)
        ensures
            current == (self.offscreen().size() == (surface.config().width, surface.config().height)
                && self.dimensions() == (surface.config().width, surface.config().height)),
    {
        let configuration = surface.configuration();
        self.texture.width() == configuration.width && self.texture.height()
            == configuration.height
    }

    /// The offscreen texture.
    pub fn renderable_texture(&self) -> (texture: &RenderableTexture)
        ensures
            *texture == self.offscreen(),
    {
        &self.texture
    }

    /// The view through which the offscreen texture is bound.
    pub fn texture_view(&self) -> (view: &TextureView2D)
        ensures
            *view == self.offscreen_view(),
    {
        &self.view
    }

    /// The sampler of the offscreen texture.
    pub fn sampler(&self) -> (sampler: &Sampler2D)
        ensures
            *sampler == self.offscreen_sampler(),
    {
        &self.sampler
    }

    /// The layout of the group that binds the offscreen texture.
    pub fn texture_bind_group_layout(&self) -> (layout: &GroupLayout)
        ensures
            *layout == self.texture_layout(),
    {
        &self.texture_bind_group_layout
    }

    /// The layout of the group that binds the dimensions.
    pub fn global_bind_group_layout(&self) -> (layout: &GroupLayout)
        ensures
            *layout == self.globals_layout(),
    {
        &self.global_bind_group_layout
    }

    /// The handle of the uniform buffer of the dimensions.
    pub fn global_buffer(&self) -> (buffer: Handle)
        ensures
            buffer == self.globals_buffer(),
    {
        self.global_buffer
    }

    /// The width and height that the uniform buffer of the dimensions holds.
    pub fn framebuffer_size(&self) -> (size: (u32, u32))
        ensures
            size == self.dimensions(),
            size == self.offscreen().size(),
    {
        (self.texture.width(), self.texture.height())
    }

    /// The group that binds the offscreen texture and its sampler.
    pub fn texture_bind_group(&self) -> (group: &Group)
        ensures
            *group == self.texture_group(),
    {
        &self.texture_bind_group
    }

    /// The group that binds the dimensions.
    pub fn global_bind_group(&self) -> (group: &Group)
        ensures
            *group == self.globals_group(),
    {
        &self.global_bind_group
    }

    /// The pipeline of the compositing pass.
    pub fn pipeline(&self) -> (pipeline: &Pipeline)
        ensures
            *pipeline == self.compositor(),
    {
        &self.pipeline
    }
}

/// Resizing twice in succession to surfaces of the same size and format
/// leaves the framebuffer that resizing once leaves: the same offscreen
/// texture, the same dimensions, the same bindings.
pub proof fn lemma_resize_idempotent(
    before: FrameBuffer,
    once: FrameBuffer,
    twice: FrameBuffer,
    first: &WindowSurface,
    second: &WindowSurface,
)
    requires
        first.config().width == second.config().width,
        first.config().height == second.config().height,
        first.config().format == second.config().format,
        before.resized_to(first, once),
        once.resized_to(second, twice),
    ensures
        twice == once,
{
    twice.texture.lemma_determined(&once.texture);
}

} // verus!
