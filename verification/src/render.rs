//! The render command engine: command lists over a flat array of resources,
//! resolved into the operations of one drawing pass, and the pipelines that
//! those operations bind.

use vstd::prelude::*;
use std::ops::Range;
use crate::context::{live, Context, Handle, ResourceKind, WindowSurface};
use crate::error::RenderError;
use crate::group::GroupLayout;

verus! {

/// How the vertices of a draw are assembled.
#[derive(Clone, Copy, Debug, PartialEq, Eq, Hash, Structural)]
pub enum PrimitiveTopology {
    PointList,
    LineList,
    LineStrip,
    TriangleList,
    TriangleStrip,
}

/// The winding of a front-facing triangle.
#[derive(Clone, Copy, Debug, PartialEq, Eq, Hash, Structural)]
pub enum FrontFace {
    Ccw,
    Cw,
}

/// A side of a triangle.
#[derive(Clone, Copy, Debug, PartialEq, Eq, Hash, Structural)]
pub enum Face {
    Front,
    Back,
}

/// How a triangle is filled.
#[derive(Clone, Copy, Debug, PartialEq, Eq, Hash, Structural)]
pub enum PolygonMode {
    Fill,
    Line,
    Point,
}

/// How a fragment is combined with what the target holds.
#[derive(Clone, Copy, Debug, PartialEq, Eq, Hash, Structural)]
pub enum BlendState {
    Replace,
    AlphaBlending,
    PremultipliedAlphaBlending,
}

/// The rasterization state of a pipeline.
#[derive(Clone, Copy, Debug, PartialEq, Eq, Hash)]
pub struct PrimitiveState {
    pub topology: PrimitiveTopology,
    pub strip_index_format: Option<wgpu::IndexFormat>,
    pub front_face: FrontFace,
    pub cull_mode: Option<Face>,
    pub polygon_mode: PolygonMode,
    pub unclipped_depth: bool,
    pub conservative: bool,
}

/// The multisampling state of a pipeline.
#[derive(Clone, Copy, Debug, PartialEq, Eq, Hash)]
pub struct MultisampleState {
    pub count: u32,
    pub mask: u64,
    pub alpha_to_coverage_enabled: bool,
}

/// The rasterization that a pipeline has unless it is told otherwise: lists
/// of filled triangles, front faces counter-clockwise, back faces culled
/// or not as `cull_mode` says.
pub open spec fn triangle_list(cull_mode: Option<Face>) -> PrimitiveState {
    PrimitiveState {
        topology: PrimitiveTopology::TriangleList,
        strip_index_format: None,
        front_face: FrontFace::Ccw,
        cull_mode,
        polygon_mode: PolygonMode::Fill,
        unclipped_depth: false,
        conservative: false,
    }
}

/// One sample per pixel, all of them written.
pub open spec fn single_sample() -> MultisampleState {
    MultisampleState { count: 1, mask: 0xffff_ffff_ffff_ffff, alpha_to_coverage_enabled: false }
}

/// Everything that a pipeline is compiled from. The shader source holds a
/// vertex stage and a fragment stage under the two entry points.
#[derive(Debug, PartialEq)]
pub struct PipelineDescriptor {
    pub shader_source: String,
    pub vertex_entry_point: &'static str,
    pub fragment_entry_point: &'static str,
    pub vertex_buffer_layouts: Vec<wgpu::VertexBufferLayout<'static>>,
    pub bind_group_layouts: Vec<Handle>,
    pub target_format: wgpu::TextureFormat,
    pub blend: BlendState,
    pub primitive: PrimitiveState,
    pub multisample: MultisampleState,
    pub depth_stencil: Option<wgpu::DepthStencilState>,
    pub multiview: Option<u32>,
}

/// The names of the layouts of a list, in its order.
pub open spec fn layout_ids(layouts: Seq<&GroupLayout>) -> Seq<Handle> {
    Seq::new(layouts.len(), |i: int| layouts[i].id())
}

/// A number of views for multiview rendering; none at all for zero.
pub open spec fn view_count(multiview: Option<u32>) -> Option<u32> {
    match multiview {
        Some(n) => if n == 0 {
            None
        } else {
            Some(n)
        },
        None => None,
    }
}

/// A compiled draw configuration: immutable, and usable over many frames
/// and with every resource group of a matching layout.
#[derive(Debug, PartialEq)]
pub struct Pipeline {
    handle: Handle,
    descriptor: PipelineDescriptor,
}

impl Pipeline {
    /// The name of the pipeline.
    pub closed spec fn id(&self) -> Handle {
        self.handle
    }

    /// What the pipeline was compiled from.
    pub closed spec fn desc(&self) -> PipelineDescriptor {
        self.descriptor
    }

    /// A pipeline for the common case: lists of triangles with their back
    /// faces culled, one sample per pixel, no depth buffer. It draws to
    /// targets of the surface's format and replaces what they hold.
    pub fn new(
        shader_source: &str,
        ctx: &mut Context,
        surface: &WindowSurface,
        vertex_buffer_layouts: Vec<wgpu::VertexBufferLayout<'static>>,
        bind_group_layouts: &[&GroupLayout],
    ) -> (pipeline: Pipeline)
        ensures
            pipeline.id().index == old(ctx)@.len(),
            final(ctx)@ == old(ctx)@.push(Some(ResourceKind::Pipeline)),
            pipeline.desc().shader_source@ == shader_source@,
            pipeline.desc().vertex_entry_point == "vs_main",
            pipeline.desc().fragment_entry_point == "fs_main",
            pipeline.desc().vertex_buffer_layouts == vertex_buffer_layouts,
            pipeline.desc().bind_group_layouts@ == layout_ids(bind_group_layouts@),
            pipeline.desc().target_format == surface.config().format,
            pipeline.desc().blend == BlendState::Replace,
            pipeline.desc().primitive == triangle_list(Some(Face::Back)),
            pipeline.desc().multisample == single_sample(),
            pipeline.desc().depth_stencil is None,
            pipeline.desc().multiview is None,
    {
        let primitive = PrimitiveState {
            topology: PrimitiveTopology::TriangleList,
            strip_index_format: None,
            front_face: FrontFace::Ccw,
            cull_mode: Some(Face::Back),
            polygon_mode: PolygonMode::Fill,
            unclipped_depth: false,
            conservative: false,
        };
        let multisample = MultisampleState {
            count: 1,
            mask: 0xffff_ffff_ffff_ffff,
            alpha_to_coverage_enabled: false,
        };
        Pipeline::new_extra(
            shader_source,
            ctx,
            surface,
            vertex_buffer_layouts,
            bind_group_layouts,
            primitive,
            multisample,
            None,
            None,
        )
    }

    /// A pipeline with its rasterization, multisampling, depth and stencil
    /// tests and multiview count given in full.
    pub fn new_extra(
        shader_source: &str,
        ctx: &mut Context,
        surface: &WindowSurface,
        vertex_buffer_layouts: Vec<wgpu::VertexBufferLayout<'static>>,
        bind_group_layouts: &[&GroupLayout],
        primitive: PrimitiveState,
        multisample: MultisampleState,
        depth_stencil: Option<wgpu::DepthStencilState>,
        multiview: Option<u32>,
    ) -> (pipeline: Pipeline)
        ensures
            pipeline.id().index == old(ctx)@.len(),
            final(ctx)@ == old(ctx)@.push(Some(ResourceKind::Pipeline)),
            pipeline.desc().shader_source@ == shader_source@,
            pipeline.desc().vertex_entry_point == "vs_main",
            pipeline.desc().fragment_entry_point == "fs_main",
            pipeline.desc().vertex_buffer_layouts == vertex_buffer_layouts,
            pipeline.desc().bind_group_layouts@ == layout_ids(bind_group_layouts@),
            pipeline.desc().target_format == surface.config().format,
            pipeline.desc().blend == BlendState::Replace,
            pipeline.desc().primitive == primitive,
            pipeline.desc().multisample == multisample,
            pipeline.desc().depth_stencil == depth_stencil,
            pipeline.desc().multiview == view_count(multiview),
    {
        let mut layouts: Vec<Handle> = Vec::new();
        let mut i: usize = 0;
        while i < bind_group_layouts.len()
            invariant
                i <= bind_group_layouts@.len(),
                layouts@ == layout_ids(bind_group_layouts@.take(i as int)),
            decreases bind_group_layouts@.len() - i,
        {
            layouts.push(bind_group_layouts[i].handle());
            i += 1;
            assert(layouts@ =~= layout_ids(bind_group_layouts@.take(i as int)));
        }
        assert(bind_group_layouts@.take(i as int) =~= bind_group_layouts@);
        let multiview = match multiview {
            Some(n) => if n == 0 {
                None
            } else {
                Some(n)
            },
            None => None,
        };
        let handle = ctx.register(ResourceKind::Pipeline);
        let descriptor = PipelineDescriptor {
            shader_source: shader_source.to_owned(),
            vertex_entry_point: "vs_main",
            fragment_entry_point: "fs_main",
            vertex_buffer_layouts,
            bind_group_layouts: layouts,
            target_format: *surface.format(),
            blend: BlendState::Replace,
            primitive,
            multisample,
            depth_stencil,
            multiview,
        };
        Pipeline { handle, descriptor }
    }

    /// The handle that names the pipeline.
    pub fn handle(&self) -> (handle: Handle)
        ensures
            handle == self.id(),
    {
        self.handle
    }

    /// What the pipeline was compiled from.
    pub fn descriptor(&self) -> (descriptor: &PipelineDescriptor)
        ensures
            *descriptor == self.desc(),
    {
        &self.descriptor
    }

    /// The pipeline as a resource of a command list.
    pub fn as_resource(&self) -> (resource: RenderResource)
        ensures
            resource == (RenderResource::Pipeline { pipeline: self.id() }),
    {
        RenderResource::Pipeline { pipeline: self.handle }
    }
}

/// A whole buffer, as a command binds it.
#[derive(Clone, Copy, Debug, PartialEq, Eq, Hash, Structural)]
pub struct BufferSlice {
    pub buffer: Handle,
    pub size: u64,
}

/// One entry of the flat resource array of a command list.
#[derive(Clone, Copy, Debug, PartialEq, Eq, Hash)]
pub enum RenderResource {
    Pipeline { pipeline: Handle },
    VertexBuffer { slice: BufferSlice },
    IndexBuffer { slice: BufferSlice },
    BindGroup { group: Handle },
}

/// One operation of a command list. The `resource_index` of a command is a
/// position in the resource array of its own list.
#[derive(Debug, PartialEq)]
pub enum RenderCommand {
    SetPipeline { resource_index: usize },
    SetBindGroup { index: u32, resource_index: usize },
    SetVertexBuffer { slot: u32, resource_index: usize },
    SetIndexBuffer { resource_index: usize, index_format: wgpu::IndexFormat },
    DrawIndexed { indices: Range<u32>, base_vertex: i32, instances: Range<u32> },
    Draw { vertices: Range<u32>, instances: Range<u32> },
}

/// A command list with the resources that its commands refer to.
#[derive(Debug, PartialEq)]
pub struct RenderGroup {
    pub commands: Vec<RenderCommand>,
    pub resources: Vec<RenderResource>,
}

/// One operation of a drawing pass, with its resource resolved.
#[derive(Debug, PartialEq)]
pub enum PassOp {
    SetPipeline { pipeline: Handle },
    SetBindGroup { index: u32, group: Handle },
    SetVertexBuffer { slot: u32, slice: BufferSlice },
    SetIndexBuffer { slice: BufferSlice, index_format: wgpu::IndexFormat },
    DrawIndexed { indices: Range<u32>, base_vertex: i32, instances: Range<u32> },
    Draw { vertices: Range<u32>, instances: Range<u32> },
}

/// The registry of a context, as the contracts of this module read it.
pub type Registry = Seq<Option<ResourceKind>>;

/// The position that a command names in its resource array, if it names one.
pub open spec fn named_resource(command: RenderCommand) -> Option<usize> {
    match command {
        RenderCommand::SetPipeline { resource_index } => Some(resource_index),
        RenderCommand::SetBindGroup { resource_index, .. } => Some(resource_index),
        RenderCommand::SetVertexBuffer { resource_index, .. } => Some(resource_index),
        RenderCommand::SetIndexBuffer { resource_index, .. } => Some(resource_index),
        RenderCommand::DrawIndexed { .. } => None,
        RenderCommand::Draw { .. } => None,
    }
}

/// The handle that an entry of a resource array holds, and the kind of
/// resource that it holds it for.
pub open spec fn held(resource: RenderResource) -> (Handle, ResourceKind) {
    match resource {
        RenderResource::Pipeline { pipeline } => (pipeline, ResourceKind::Pipeline),
        RenderResource::VertexBuffer { slice } => (slice.buffer, ResourceKind::Buffer),
        RenderResource::IndexBuffer { slice } => (slice.buffer, ResourceKind::Buffer),
        RenderResource::BindGroup { group } => (group, ResourceKind::Group),
    }
}

/// Whether the handle of an entry names a live resource of the entry's kind.
pub open spec fn resource_live(registry: Registry, resource: RenderResource) -> bool {
    live(registry, held(resource).0, held(resource).1)
}

/// The operation that a command makes of the resource that it names: `None`
/// where the resource is of another kind than the command binds. A draw
/// names nothing and takes none.
pub open spec fn bind(command: RenderCommand, resource: RenderResource) -> Option<PassOp> {
    match (command, resource) {
        (RenderCommand::SetPipeline { .. }, RenderResource::Pipeline { pipeline }) => Some(
            PassOp::SetPipeline { pipeline },
        ),
        (RenderCommand::SetBindGroup { index, .. }, RenderResource::BindGroup { group }) => Some(
            PassOp::SetBindGroup { index, group },
        ),
        (RenderCommand::SetVertexBuffer { slot, .. }, RenderResource::VertexBuffer { slice }) => Some(
            PassOp::SetVertexBuffer { slot, slice },
        ),
        (
            RenderCommand::SetIndexBuffer { index_format, .. },
            RenderResource::IndexBuffer { slice },
        ) => Some(PassOp::SetIndexBuffer { slice, index_format }),
        _ => None,
    }
}

/// The operation of a draw, which is the draw itself.
pub open spec fn drawn(command: RenderCommand) -> Option<PassOp> {
    match command {
        RenderCommand::DrawIndexed { indices, base_vertex, instances } => Some(
            PassOp::DrawIndexed { indices, base_vertex, instances },
        ),
        RenderCommand::Draw { vertices, instances } => Some(PassOp::Draw { vertices, instances }),
        _ => None,
    }
}

/// The operation that a command stands for over `resources`, in a context
/// of the given registry: `None` where the command names a position past
/// the array, a resource of another kind than it binds, or a resource that
/// is not live in the context.
pub open spec fn resolve(
    registry: Registry,
    command: RenderCommand,
    resources: Seq<RenderResource>,
) -> Option<PassOp> {
    match named_resource(command) {
        Some(index) => if index < resources.len() && resource_live(
            registry,
            resources[index as int],
        ) {
            bind(command, resources[index as int])
        } else {
            None
        },
        None => drawn(command),
    }
}

/// Whether every command of a list resolves.
pub open spec fn resolvable(
    registry: Registry,
    commands: Seq<RenderCommand>,
    resources: Seq<RenderResource>,
) -> bool {
    forall|i: int|
        0 <= i < commands.len() ==> (#[trigger] resolve(registry, commands[i], resources)) is Some
}

/// The operations of a list whose commands all resolve, in list order.
pub open spec fn resolved(
    registry: Registry,
    commands: Seq<RenderCommand>,
    resources: Seq<RenderResource>,
) -> Seq<PassOp> {
    Seq::new(commands.len(), |i: int| resolve(registry, commands[i], resources)->0)
}

/// Whether every list resolves.
pub open spec fn all_resolvable(registry: Registry, groups: Seq<&RenderGroup>) -> bool {
    forall|g: int|
        0 <= g < groups.len() ==> resolvable(
            registry,
            (#[trigger] groups[g]).commands@,
            groups[g].resources@,
        )
}

/// The operations of the first `n` lists, each list as a unit and in the
/// order supplied.
pub open spec fn resolved_prefix(registry: Registry, groups: Seq<&RenderGroup>, n: int) -> Seq<
    PassOp,
>
    decreases n,
{
    if n <= 0 {
        Seq::empty()
    } else {
        resolved_prefix(registry, groups, n - 1) + resolved(
            registry,
            groups[n - 1].commands@,
            groups[n - 1].resources@,
        )
    }
}

/// The operations of all the lists: one list after the other, with nothing
/// in between.
pub open spec fn resolved_groups(registry: Registry, groups: Seq<&RenderGroup>) -> Seq<PassOp> {
    resolved_prefix(registry, groups, groups.len() as int)
}

/// Whether some command names a position past the resource array of its list.
pub open spec fn names_past_array(groups: Seq<&RenderGroup>) -> bool {
    exists|g: int, i: int|
        0 <= g < groups.len() && 0 <= i < groups[g].commands@.len() && (#[trigger] named_resource(
            (#[trigger] groups[g]).commands@[i],
        ) matches Some(index) && index >= groups[g].resources@.len())
}

/// A command that names a position past its resource array does not
/// resolve, whatever the context holds.
pub proof fn lemma_past_array_unresolvable(registry: Registry, groups: Seq<&RenderGroup>)
    requires
        names_past_array(groups),
    ensures
        !all_resolvable(registry, groups),
{
    let (g, i) = choose|g: int, i: int|
        0 <= g < groups.len() && 0 <= i < groups[g].commands@.len() && (#[trigger] named_resource(
            (#[trigger] groups[g]).commands@[i],
        ) matches Some(index) && index >= groups[g].resources@.len());
    assert(resolve(registry, groups[g].commands@[i], groups[g].resources@) is None);
    assert(!resolvable(registry, groups[g].commands@, groups[g].resources@));
}

/// Whether every resource that an operation binds is live in a context,
/// under the kind that the operation binds it as.
pub open spec fn op_live(registry: Registry, op: PassOp) -> bool {
    match op {
        PassOp::SetPipeline { pipeline } => live(registry, pipeline, ResourceKind::Pipeline),
        PassOp::SetBindGroup { group, .. } => live(registry, group, ResourceKind::Group),
        PassOp::SetVertexBuffer { slice, .. } => live(registry, slice.buffer, ResourceKind::Buffer),
        PassOp::SetIndexBuffer { slice, .. } => live(registry, slice.buffer, ResourceKind::Buffer),
        PassOp::DrawIndexed { .. } => true,
        PassOp::Draw { .. } => true,
    }
}

/// Whether every operation of a sequence binds live resources only.
pub open spec fn ops_live(registry: Registry, ops: Seq<PassOp>) -> bool {
    forall|i: int| 0 <= i < ops.len() ==> op_live(registry, #[trigger] ops[i])
}

/// An operation that a command resolves to binds a live resource.
pub proof fn lemma_resolved_op_live(
    registry: Registry,
    command: RenderCommand,
    resources: Seq<RenderResource>,
)
    requires
        resolve(registry, command, resources) is Some,
    ensures
        op_live(registry, resolve(registry, command, resources)->0),
{
}

/// Resolves one command over the resources of its list.
pub fn resolve_command(ctx: &Context, command: &RenderCommand, resources: &Vec<RenderResource>) -> (op:
    Option<PassOp>)
    ensures
        op == resolve(ctx@, *command, resources@),
{
    match command {
        RenderCommand::SetPipeline { resource_index } => {
            if *resource_index < resources.len() {
                match resources[*resource_index] {
                    RenderResource::Pipeline { pipeline } => {
                        if ctx.holds(pipeline, ResourceKind::Pipeline) {
                            Some(PassOp::SetPipeline { pipeline })
                        } else {
                            None
                        }
                    },
                    _ => None,
                }
            } else {
                None
            }
        },
        RenderCommand::SetBindGroup { index, resource_index } => {
            if *resource_index < resources.len() {
                match resources[*resource_index] {
                    RenderResource::BindGroup { group } => {
                        if ctx.holds(group, ResourceKind::Group) {
                            Some(PassOp::SetBindGroup { index: *index, group })
                        } else {
                            None
                        }
                    },
                    _ => None,
                }
            } else {
                None
            }
        },
        RenderCommand::SetVertexBuffer { slot, resource_index } => {
            if *resource_index < resources.len() {
                match resources[*resource_index] {
                    RenderResource::VertexBuffer { slice } => {
                        if ctx.holds(slice.buffer, ResourceKind::Buffer) {
                            Some(PassOp::SetVertexBuffer { slot: *slot, slice })
                        } else {
                            None
                        }
                    },
                    _ => None,
                }
            } else {
                None
            }
        },
        RenderCommand::SetIndexBuffer { resource_index, index_format } => {
            if *resource_index < resources.len() {
                match resources[*resource_index] {
                    RenderResource::IndexBuffer { slice } => {
                        if ctx.holds(slice.buffer, ResourceKind::Buffer) {
                            Some(PassOp::SetIndexBuffer { slice, index_format: *index_format })
                        } else {
                            None
                        }
                    },
                    _ => None,
                }
            } else {
                None
            }
        },
        RenderCommand::DrawIndexed { indices, base_vertex, instances } => Some(
            PassOp::DrawIndexed {
                indices: Range { start: indices.start, end: indices.end },
                base_vertex: *base_vertex,
                instances: Range { start: instances.start, end: instances.end },
            },
        ),
        RenderCommand::Draw { vertices, instances } => Some(
            PassOp::Draw {
                vertices: Range { start: vertices.start, end: vertices.end },
                instances: Range { start: instances.start, end: instances.end },
            },
        ),
    }
}

impl RenderGroup {
    /// Makes a command list, checked as it is made: a list with a command
    /// that does not resolve over `resources` in the context is rejected
    /// here, before any frame is drawn with it.
    pub fn new(ctx: &Context, commands: Vec<RenderCommand>, resources: Vec<RenderResource>) -> (r:
        Result<RenderGroup, RenderError>)
        ensures
            match r {
                Ok(group) => {
                    &&& resolvable(ctx@, commands@, resources@)
                    &&& group.commands == commands
                    &&& group.resources == resources
                },
                Err(e) => !resolvable(ctx@, commands@, resources@) && e
                    == RenderError::CommandResourceMismatch,
            },
    {
        let group = RenderGroup { commands, resources };
        match group.resolve(ctx) {
            Ok(_) => Ok(group),
            Err(e) => Err(e),
        }
    }

    /// Resolves the list as a unit: all of its commands, or none.
    pub fn resolve(&self, ctx: &Context) -> (r: Result<Vec<PassOp>, RenderError>)
        ensures
            match r {
                Ok(ops) => {
                    &&& resolvable(ctx@, self.commands@, self.resources@)
                    &&& ops@ == resolved(ctx@, self.commands@, self.resources@)
                    &&& ops_live(ctx@, ops@)
                },
                Err(e) => !resolvable(ctx@, self.commands@, self.resources@) && e
                    == RenderError::CommandResourceMismatch,
            },
    {
        let mut ops: Vec<PassOp> = Vec::new();
        let mut i: usize = 0;
        while i < self.commands.len()
            invariant
                i <= self.commands@.len(),
                ops@.len() == i,
                forall|j: int|
                    0 <= j < i ==> (#[trigger] resolve(ctx@, self.commands@[j], self.resources@))
                        == Some(ops@[j]),
            decreases self.commands@.len() - i,
        {
            match resolve_command(ctx, &self.commands[i], &self.resources) {
                Some(op) => {
                    ops.push(op);
                },
                None => {
                    return Err(RenderError::CommandResourceMismatch);
                },
            }
            i += 1;
        }
        proof {
            assert(ops@ =~= resolved(ctx@, self.commands@, self.resources@));
            assert forall|j: int| 0 <= j < ops@.len() implies op_live(ctx@, #[trigger] ops@[j]) by {
                lemma_resolved_op_live(ctx@, self.commands@[j], self.resources@);
            }
        }
        Ok(ops)
    }
}

/// Resolves the lists in the order supplied, each as a unit. One command
/// that does not resolve rejects them all. The operations that come out
/// bind live resources of the context only.
pub fn resolve_groups(ctx: &Context, groups: &[&RenderGroup]) -> (r: Result<Vec<PassOp>, RenderError>)
    ensures
        match r {
            Ok(ops) => {
                &&& all_resolvable(ctx@, groups@)
                &&& ops@ == resolved_groups(ctx@, groups@)
                &&& ops_live(ctx@, ops@)
            },
            Err(e) => !all_resolvable(ctx@, groups@) && e == RenderError::CommandResourceMismatch,
        },
        names_past_array(groups@) ==> r == Err::<Vec<PassOp>, RenderError>(
            RenderError::CommandResourceMismatch,
        ),
{
    let mut ops: Vec<PassOp> = Vec::new();
    let mut g: usize = 0;
    while g < groups.len()
        invariant
            g <= groups@.len(),
            ops@ == resolved_prefix(ctx@, groups@, g as int),
            ops_live(ctx@, ops@),
            forall|k: int|
                0 <= k < g ==> resolvable(
                    ctx@,
                    (#[trigger] groups@[k]).commands@,
                    groups@[k].resources@,
                ),
        decreases groups@.len() - g,
    {
        match groups[g].resolve(ctx) {
            Ok(mut list) => {
                ops.append(&mut list);
            },
            Err(e) => {
                return Err(e);
            },
        }
        g += 1;
    }
    proof {
        if names_past_array(groups@) {
            lemma_past_array_unresolvable(ctx@, groups@);
        }
    }
    Ok(ops)
}

/// A place of a drawing pass at which something can be bound.
pub enum Place {
    Pipeline,
    BindGroup { index: u32 },
    VertexBuffer { slot: u32 },
    IndexBuffer,
}

/// What an operation binds, at the place where it binds it.
pub enum Binding {
    Pipeline { pipeline: Handle },
    BindGroup { group: Handle },
    VertexBuffer { slice: BufferSlice },
    IndexBuffer { slice: BufferSlice, index_format: wgpu::IndexFormat },
}

/// What is bound in a drawing pass at one moment, place by place: the state
/// that the draws read.
pub type PassState = Map<Place, Binding>;

/// The place that an operation binds at, and what it binds there; `None`
/// for a draw, which binds nothing.
pub open spec fn binding(op: PassOp) -> Option<(Place, Binding)> {
    match op {
        PassOp::SetPipeline { pipeline } => Some((Place::Pipeline, Binding::Pipeline { pipeline })),
        PassOp::SetBindGroup { index, group } => Some(
            (Place::BindGroup { index }, Binding::BindGroup { group }),
        ),
        PassOp::SetVertexBuffer { slot, slice } => Some(
            (Place::VertexBuffer { slot }, Binding::VertexBuffer { slice }),
        ),
        PassOp::SetIndexBuffer { slice, index_format } => Some(
            (Place::IndexBuffer, Binding::IndexBuffer { slice, index_format }),
        ),
        PassOp::DrawIndexed { .. } => None,
        PassOp::Draw { .. } => None,
    }
}

/// Whether an operation binds at a place.
pub open spec fn binds_at(op: PassOp, place: Place) -> bool {
    binding(op) matches Some(bound) && bound.0 == place
}

/// The state of a pass that has just begun: nothing is bound.
pub open spec fn initial_state() -> PassState {
    Map::empty()
}

/// The state after one operation: a binding replaces what was bound at the
/// same place and leaves the rest; a draw changes nothing.
pub open spec fn apply(state: PassState, op: PassOp) -> PassState {
    match binding(op) {
        Some(bound) => state.insert(bound.0, bound.1),
        None => state,
    }
}

/// The state after a sequence of operations, begun in `state`.
pub open spec fn state_after(state: PassState, ops: Seq<PassOp>) -> PassState
    decreases ops.len(),
{
    if ops.len() == 0 {
        state
    } else {
        apply(state_after(state, ops.drop_last()), ops.last())
    }
}

/// What is set stays set until it is set anew: after a sequence of
/// operations, a place holds what the last operation that binds at it has
/// bound there.
pub proof fn lemma_binding_persists(state: PassState, ops: Seq<PassOp>, last: int, place: Place)
    requires
        0 <= last < ops.len(),
        binds_at(ops[last], place),
        forall|later: int| last < later < ops.len() ==> !binds_at(#[trigger] ops[later], place),
    ensures
        state_after(state, ops).dom().contains(place),
        state_after(state, ops)[place] == (binding(ops[last])->0).1,
    decreases ops.len(),
{
    if last < ops.len() - 1 {
        assert(!binds_at(ops[ops.len() - 1], place));
        lemma_binding_persists(state, ops.drop_last(), last, place);
    }
}

/// In a pass that began with nothing bound, a place is bound exactly when
/// an operation of the pass has bound at it.
pub proof fn lemma_bound_in_pass(ops: Seq<PassOp>, place: Place)
    ensures
        state_after(initial_state(), ops).dom().contains(place) <==> exists|i: int|
            0 <= i < ops.len() && binds_at(#[trigger] ops[i], place),
    decreases ops.len(),
{
    if ops.len() > 0 {
        let before = ops.drop_last();
        lemma_bound_in_pass(before, place);
        if state_after(initial_state(), ops).dom().contains(place) {
            if binds_at(ops.last(), place) {
                assert(binds_at(ops[ops.len() - 1], place));
            } else {
                let i = choose|i: int| 0 <= i < before.len() && binds_at(#[trigger] before[i], place);
                assert(binds_at(ops[i], place));
            }
        }
        if exists|i: int| 0 <= i < ops.len() && binds_at(#[trigger] ops[i], place) {
            let i = choose|i: int| 0 <= i < ops.len() && binds_at(#[trigger] ops[i], place);
            if i < before.len() {
                assert(binds_at(before[i], place));
            }
        }
    }
}

/// A place that no operation of a sequence binds at holds after the
/// sequence what it held before.
pub proof fn lemma_unbound_place_unchanged(state: PassState, ops: Seq<PassOp>, place: Place)
    requires
        forall|i: int| 0 <= i < ops.len() ==> !binds_at(#[trigger] ops[i], place),
    ensures
        state_after(state, ops).dom().contains(place) == state.dom().contains(place),
        state.dom().contains(place) ==> state_after(state, ops)[place] == state[place],
    decreases ops.len(),
{
    if ops.len() > 0 {
        assert(!binds_at(ops[ops.len() - 1], place));
        lemma_unbound_place_unchanged(state, ops.drop_last(), place);
    }
}

/// Running two sequences one after the other is running the second in the
/// state that the first has left.
pub proof fn lemma_state_carries_over(state: PassState, first: Seq<PassOp>, second: Seq<PassOp>)
    ensures
        state_after(state, first + second) == state_after(state_after(state, first), second),
    decreases second.len(),
{
    if second.len() == 0 {
        assert(first + second =~= first);
    } else {
        lemma_state_carries_over(state, first, second.drop_last());
        assert((first + second).drop_last() =~= first + second.drop_last());
        assert((first + second).last() == second.last());
    }
}

/// The operations of two runs of lists, one after the other, are those of
/// the first run followed by those of the second.
pub proof fn lemma_resolved_concat(
    registry: Registry,
    first: Seq<&RenderGroup>,
    second: Seq<&RenderGroup>,
)
    ensures
        resolved_groups(registry, first + second) == resolved_groups(registry, first)
            + resolved_groups(registry, second),
{
    lemma_resolved_prefix_concat(registry, first, second, second.len() as int);
    assert((first + second).len() == first.len() + second.len());
}

proof fn lemma_resolved_prefix_concat(
    registry: Registry,
    first: Seq<&RenderGroup>,
    second: Seq<&RenderGroup>,
    n: int,
)
    requires
        0 <= n <= second.len(),
    ensures
        resolved_prefix(registry, first + second, first.len() + n) == resolved_prefix(
            registry,
            first,
            first.len() as int,
        ) + resolved_prefix(registry, second, n),
    decreases first.len() + n,
{
    if n == 0 {
        lemma_resolved_prefix_shorter(registry, first + second, first, first.len() as int);
        assert(resolved_prefix(registry, first, first.len() as int) + Seq::<PassOp>::empty()
            =~= resolved_prefix(registry, first, first.len() as int));
    } else {
        lemma_resolved_prefix_concat(registry, first, second, n - 1);
        assert((first + second)[first.len() + n - 1] == second[n - 1]);
        assert((resolved_prefix(registry, first, first.len() as int) + resolved_prefix(
            registry,
            second,
            n - 1,
        )) + resolved(registry, second[n - 1].commands@, second[n - 1].resources@)
            =~= resolved_prefix(registry, first, first.len() as int) + resolved_prefix(
            registry,
            second,
            n,
        ));
    }
}

/// The operations of the first `n` lists depend on those lists alone.
proof fn lemma_resolved_prefix_shorter(
    registry: Registry,
    longer: Seq<&RenderGroup>,
    shorter: Seq<&RenderGroup>,
    n: int,
)
    requires
        0 <= n <= shorter.len() <= longer.len(),
        forall|i: int| 0 <= i < n ==> longer[i] == shorter[i],
    ensures
        resolved_prefix(registry, longer, n) == resolved_prefix(registry, shorter, n),
    decreases n,
{
    if n > 0 {
        lemma_resolved_prefix_shorter(registry, longer, shorter, n - 1);
    }
}

/// Nothing is reset between two lists: the commands of a later run of lists
/// run in the state that the earlier run has left.
pub proof fn lemma_state_persists_across_lists(
    registry: Registry,
    state: PassState,
    earlier: Seq<&RenderGroup>,
    later: Seq<&RenderGroup>,
)
    ensures
        state_after(state, resolved_groups(registry, earlier + later)) == state_after(
            state_after(state, resolved_groups(registry, earlier)),
            resolved_groups(registry, later),
        ),
{
    lemma_resolved_concat(registry, earlier, later);
    lemma_state_carries_over(
        state,
        resolved_groups(registry, earlier),
        resolved_groups(registry, later),
    );
}

/// Where a drawing pass draws to.
#[derive(Clone, Copy, Debug, PartialEq, Eq, Hash)]
pub enum PassTarget {
    /// The current image of the surface, of the surface's size.
    Surface { width: u32, height: u32 },
    /// A texture, through a view of the whole of it.
    Texture { texture: Handle, width: u32, height: u32 },
}

/// The current image of a surface as the target of a pass.
pub open spec fn surface_target(surface: &WindowSurface) -> PassTarget {
    PassTarget::Surface { width: surface.config().width, height: surface.config().height }
}

/// What a drawing pass does to its target before it draws.
#[derive(Clone, Copy, Debug, PartialEq)]
pub enum LoadOp {
    Clear(wgpu::Color),
    Load,
}

/// One drawing pass of a command buffer.
#[derive(Debug, PartialEq)]
pub struct RenderPass {
    pub target: PassTarget,
    pub load: LoadOp,
    pub ops: Vec<PassOp>,
}

/// One command buffer for the backend to record and submit: its passes in
/// order, and whether the surface image is presented after it.
#[derive(Debug, PartialEq)]
pub struct Submission {
    pub passes: Vec<RenderPass>,
    pub present: bool,
}

impl Context {
    /// Plans one frame on a surface: one command buffer with exactly one
    /// drawing pass, which clears the surface image to `color` and runs the
    /// operations of the lists, in list order and each list as a unit, and
    /// then presents.
    ///
    /// What a command sets stays set for the commands after it, across the
    /// lists too: nothing is reset between two lists. A later list may draw
    /// with the pipeline that an earlier one set, so the order of the lists
    /// matters. One command that does not resolve rejects this call, and
    /// nothing of it is drawn; the plan of a call that is accepted binds
    /// live resources of this context only.
    pub fn render(&self, surface: &WindowSurface, render_groups: &[&RenderGroup], color: wgpu::Color) -> (r:
        Result<Submission, RenderError>)
        ensures
            match r {
                Ok(frame) => {
                    &&& all_resolvable(self@, render_groups@)
                    &&& frame.present
                    &&& frame.passes@.len() == 1
                    &&& frame.passes@[0].target == surface_target(surface)
                    &&& frame.passes@[0].load == LoadOp::Clear(color)
                    &&& frame.passes@[0].ops@ == resolved_groups(self@, render_groups@)
                    &&& ops_live(self@, frame.passes@[0].ops@)
                },
                Err(e) => !all_resolvable(self@, render_groups@) && e
                    == RenderError::CommandResourceMismatch,
            },
            names_past_array(render_groups@) ==> r == Err::<Submission, RenderError>(
                RenderError::CommandResourceMismatch,
            ),
    {
        match resolve_groups(self, render_groups) {
            Ok(ops) => {
                let mut passes: Vec<RenderPass> = Vec::new();
                let configuration = surface.configuration();
                let target = PassTarget::Surface {
                    width: configuration.width,
                    height: configuration.height,
                };
                passes.push(RenderPass { target, load: LoadOp::Clear(color), ops });
                Ok(Submission { passes, present: true })
            },
            Err(e) => Err(e),
        }
    }
}

} // verus!
