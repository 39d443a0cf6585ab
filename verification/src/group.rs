//! Resource groups: the bindings that a pipeline expects, declared as a
//! layout, and bound as a group.

use vstd::prelude::*;
use vstd::slice::slice_to_vec;
use crate::context::{live, Context, Handle, ResourceKind};
use crate::error::RenderError;
use crate::render::RenderResource;

verus! {

/// The kind of thing that a binding slot takes.
#[derive(Clone, Copy, Debug, PartialEq, Eq, Hash, Structural)]
pub enum BindingKind {
    Buffer,
    Texture,
    Sampler,
}

/// The shader stages that can see a binding.
#[derive(Clone, Copy, Debug, PartialEq, Eq, Hash, Structural)]
pub struct ShaderStages {
    pub vertex: bool,
    pub fragment: bool,
    pub compute: bool,
}

impl ShaderStages {
    /// Visible to the vertex stage alone.
    pub fn vertex() -> (r: ShaderStages)
        ensures
            r == (ShaderStages { vertex: true, fragment: false, compute: false }),
    {
        ShaderStages { vertex: true, fragment: false, compute: false }
    }

    /// Visible to the fragment stage alone.
    pub fn fragment() -> (r: ShaderStages)
        ensures
            r == (ShaderStages { vertex: false, fragment: true, compute: false }),
    {
        ShaderStages { vertex: false, fragment: true, compute: false }
    }

    /// Visible to both stages of a render pipeline.
    pub fn vertex_fragment() -> (r: ShaderStages)
        ensures
            r == (ShaderStages { vertex: true, fragment: true, compute: false }),
    {
        ShaderStages { vertex: true, fragment: true, compute: false }
    }
}

/// How a shader reads a buffer binding.
#[derive(Clone, Copy, Debug, PartialEq, Eq, Hash, Structural)]
pub enum BufferBindingType {
    Uniform,
    Storage { read_only: bool },
}

/// The sampling that a sampler binding allows.
#[derive(Clone, Copy, Debug, PartialEq, Eq, Hash, Structural)]
pub enum SamplerBindingType {
    Filtering,
    NonFiltering,
    Comparison,
}

/// The type of the texels that a texture binding yields.
#[derive(Clone, Copy, Debug, PartialEq, Eq, Hash, Structural)]
pub enum TextureSampleType {
    Float { filterable: bool },
    Depth,
    Sint,
    Uint,
}

/// The shape of the view that a texture binding takes.
#[derive(Clone, Copy, Debug, PartialEq, Eq, Hash, Structural)]
pub enum TextureViewDimension {
    D1,
    D2,
    D2Array,
    Cube,
    CubeArray,
    D3,
}

/// What a binding slot is declared to hold.
#[derive(Clone, Copy, Debug, PartialEq, Eq, Hash)]
pub enum BindingType {
    Buffer { ty: BufferBindingType, has_dynamic_offset: bool, min_binding_size: Option<u64> },
    Sampler(SamplerBindingType),
    Texture { sample_type: TextureSampleType, view_dimension: TextureViewDimension, multisampled: bool },
}

impl BindingType {
    /// The kind of resource that a slot of this type takes.
    pub open spec fn kind(self) -> BindingKind {
        match self {
            BindingType::Buffer { .. } => BindingKind::Buffer,
            BindingType::Sampler(_) => BindingKind::Sampler,
            BindingType::Texture { .. } => BindingKind::Texture,
        }
    }

    /// Computes the kind.
    pub fn binding_kind(&self) -> (kind: BindingKind)
        ensures
            kind == self.kind(),
    {
        match self {
            BindingType::Buffer { .. } => BindingKind::Buffer,
            BindingType::Sampler(_) => BindingKind::Sampler,
            BindingType::Texture { .. } => BindingKind::Texture,
        }
    }
}

/// One binding slot of a layout.
#[derive(Clone, Copy, Debug, PartialEq, Eq, Hash)]
pub struct LayoutEntry {
    pub binding: u32,
    pub visibility: ShaderStages,
    pub ty: BindingType,
}

/// The kind of the first slot among `entries[start..]` whose index is
/// `binding`, if there is one.
pub open spec fn slot_kind_from(entries: Seq<LayoutEntry>, binding: int, start: int) -> Option<
    BindingKind,
>
    decreases entries.len() - start,
{
    if start < 0 || start >= entries.len() {
        None
    } else if entries[start].binding == binding {
        Some(entries[start].ty.kind())
    } else {
        slot_kind_from(entries, binding, start + 1)
    }
}

/// The kind that a layout declares at the index `binding`, if it declares
/// that index.
pub open spec fn slot_kind(entries: Seq<LayoutEntry>, binding: int) -> Option<BindingKind> {
    slot_kind_from(entries, binding, 0)
}

/// Whether `place` is the first place of a layout whose slot has the index
/// `binding`.
pub open spec fn is_first_slot(entries: Seq<LayoutEntry>, binding: int, place: int) -> bool {
    &&& 0 <= place < entries.len()
    &&& entries[place].binding == binding
    &&& forall|q: int| 0 <= q < place ==> (#[trigger] entries[q]).binding != binding
}

/// What [`slot_kind`] finds: the kind of the first slot that has the index,
/// and nothing where no slot has it.
pub proof fn lemma_slot_kind(entries: Seq<LayoutEntry>, binding: int)
    ensures
        match slot_kind(entries, binding) {
            Some(kind) => exists|place: int|
                is_first_slot(entries, binding, place) && (#[trigger] entries[place]).ty.kind()
                    == kind,
            None => forall|place: int|
                0 <= place < entries.len() ==> (#[trigger] entries[place]).binding != binding,
        },
{
    lemma_slot_kind_from(entries, binding, 0);
}

proof fn lemma_slot_kind_from(entries: Seq<LayoutEntry>, binding: int, start: int)
    requires
        0 <= start,
        forall|q: int| 0 <= q < start && q < entries.len() ==> (#[trigger] entries[q]).binding != binding,
    ensures
        match slot_kind_from(entries, binding, start) {
            Some(kind) => exists|place: int|
                is_first_slot(entries, binding, place) && (#[trigger] entries[place]).ty.kind()
                    == kind,
            None => forall|place: int|
                0 <= place < entries.len() ==> (#[trigger] entries[place]).binding != binding,
        },
    decreases entries.len() - start,
{
    if start < entries.len() {
        if entries[start].binding == binding {
            assert(is_first_slot(entries, binding, start));
        } else {
            lemma_slot_kind_from(entries, binding, start + 1);
        }
    }
}

/// An ordered list of binding slots, as a pipeline expects them.
#[derive(Debug, PartialEq)]
pub struct GroupLayout {
    handle: Handle,
    entries: Vec<LayoutEntry>,
}

impl View for GroupLayout {
    type V = Seq<LayoutEntry>;

    closed spec fn view(&self) -> Seq<LayoutEntry> {
        self.entries@
    }
}

impl GroupLayout {
    /// The name of the layout.
    pub closed spec fn id(&self) -> Handle {
        self.handle
    }

    /// Declares a layout of the given slots, in their order.
    pub fn new(ctx: &mut Context, entries: &[LayoutEntry]) -> (layout: GroupLayout)
        ensures
            layout@ == entries@,
            layout.id().index == old(ctx)@.len(),
            final(ctx)@ == old(ctx)@.push(Some(ResourceKind::GroupLayout)),
    {
        let handle = ctx.register(ResourceKind::GroupLayout);
        GroupLayout { handle, entries: slice_to_vec(entries) }
    }

    /// The handle that names this resource.
    pub fn handle(&self) -> (handle: Handle)
        ensures
            handle == self.id(),
    {
        self.handle
    }

    /// The slots, in order.
    pub fn entries(&self) -> (entries: &Vec<LayoutEntry>)
        ensures
            entries@ == self@,
    {
        &self.entries
    }

    /// Looks up the kind declared at a binding index.
    pub fn kind_at(&self, binding: u32) -> (kind: Option<BindingKind>)
        ensures
            kind == slot_kind(self@, binding as int),
    {
        let mut k: usize = 0;
        while k < self.entries.len()
            invariant
                k <= self.entries@.len(),
                slot_kind(self@, binding as int) == slot_kind_from(self@, binding as int, k as int),
            decreases self.entries@.len() - k,
        {
            if self.entries[k].binding == binding {
                return Some(self.entries[k].ty.binding_kind());
            }
            k += 1;
        }
        None
    }
}

/// A concrete resource offered to a binding slot.
#[derive(Clone, Copy, Debug, PartialEq, Eq, Hash)]
pub enum BindingResource {
    Buffer(Handle),
    TextureView(Handle),
    Sampler(Handle),
}

impl BindingResource {
    /// The kind of slot that takes this resource.
    pub open spec fn kind(self) -> BindingKind {
        match self {
            BindingResource::Buffer(_) => BindingKind::Buffer,
            BindingResource::TextureView(_) => BindingKind::Texture,
            BindingResource::Sampler(_) => BindingKind::Sampler,
        }
    }

    /// Computes the kind.
    pub fn binding_kind(&self) -> (kind: BindingKind)
        ensures
            kind == self.kind(),
    {
        match self {
            BindingResource::Buffer(_) => BindingKind::Buffer,
            BindingResource::TextureView(_) => BindingKind::Texture,
            BindingResource::Sampler(_) => BindingKind::Sampler,
        }
    }

    /// Whether the resource is live in a context.
    pub fn is_live(&self, ctx: &Context) -> (held: bool)
        ensures
            held == binding_live(ctx@, *self),
    {
        match self {
            BindingResource::Buffer(buffer) => ctx.holds(*buffer, ResourceKind::Buffer),
            BindingResource::TextureView(view) => ctx.holds(*view, ResourceKind::TextureView),
            BindingResource::Sampler(sampler) => ctx.holds(*sampler, ResourceKind::Sampler),
        }
    }
}

/// One bound slot of a group.
#[derive(Clone, Copy, Debug, PartialEq, Eq, Hash)]
pub struct GroupEntry {
    pub binding: u32,
    pub resource: BindingResource,
}

/// Whether the handle of a resource names a live resource of its kind.
pub open spec fn binding_live(registry: Seq<Option<ResourceKind>>, resource: BindingResource) -> bool {
    match resource {
        BindingResource::Buffer(buffer) => live(registry, buffer, ResourceKind::Buffer),
        BindingResource::TextureView(view) => live(registry, view, ResourceKind::TextureView),
        BindingResource::Sampler(sampler) => live(registry, sampler, ResourceKind::Sampler),
    }
}

/// Whether a list of resources fits a layout in a context: as many
/// resources as slots, and at each position a live resource of the kind
/// that the layout declares at that index.
pub open spec fn matches_layout(
    registry: Seq<Option<ResourceKind>>,
    entries: Seq<LayoutEntry>,
    resources: Seq<BindingResource>,
) -> bool {
    &&& resources.len() == entries.len()
    &&& forall|i: int|
        0 <= i < resources.len() ==> slot_kind(entries, i) == Some(#[trigger] resources[i].kind())
            && binding_live(registry, resources[i])
}

/// The bound slots that a list of resources makes: each resource at the
/// index of its position.
pub open spec fn bound_entries(resources: Seq<BindingResource>) -> Seq<GroupEntry> {
    Seq::new(
        resources.len(),
        |i: int| GroupEntry { binding: i as u32, resource: resources[i] },
    )
}

/// A set of resources bound against one layout.
#[derive(Debug, PartialEq)]
pub struct Group {
    handle: Handle,
    layout: Handle,
    entries: Vec<GroupEntry>,
}

impl View for Group {
    type V = Seq<GroupEntry>;

    closed spec fn view(&self) -> Seq<GroupEntry> {
        self.entries@
    }
}

impl Group {
    /// The name of the group.
    pub closed spec fn id(&self) -> Handle {
        self.handle
    }

    /// The name of the layout that the group was bound against.
    pub closed spec fn layout_id(&self) -> Handle {
        self.layout
    }

    /// Binds `resources` against `layout`, the resource at position `i` at
    /// the binding index `i`. A list that does not fit the layout, or a
    /// layout that is not live in the context, is rejected, and then nothing
    /// is created.
    pub fn new(ctx: &mut Context, layout: &GroupLayout, resources: Vec<BindingResource>) -> (r:
        Result<Group, RenderError>)
        ensures
            match r {
                Ok(group) => {
                    &&& live(old(ctx)@, layout.id(), ResourceKind::GroupLayout)
                    &&& matches_layout(old(ctx)@, layout@, resources@)
                    &&& group@ == bound_entries(resources@)
                    &&& group.layout_id() == layout.id()
                    &&& group.id().index == old(ctx)@.len()
                    &&& final(ctx)@ == old(ctx)@.push(Some(ResourceKind::Group))
                },
                Err(e) => {
                    &&& !(live(old(ctx)@, layout.id(), ResourceKind::GroupLayout) && matches_layout(
                        old(ctx)@,
                        layout@,
                        resources@,
                    ))
                    &&& e == RenderError::ResourceBindingMismatch
                    &&& *final(ctx) == *old(ctx)
                },
            },
            resources@.len() != layout@.len() ==> r is Err,
    {
        if resources.len() != layout.entries.len() || !ctx.holds(
            layout.handle,
            ResourceKind::GroupLayout,
        ) {
            return Err(RenderError::ResourceBindingMismatch);
        }
        let mut entries: Vec<GroupEntry> = Vec::new();
        let mut i: usize = 0;
        while i < resources.len()
            invariant
                i <= resources@.len(),
                resources@.len() == layout@.len(),
                entries@ == bound_entries(resources@.take(i as int)),
                forall|j: int|
                    0 <= j < i ==> slot_kind(layout@, j) == Some(#[trigger] resources@[j].kind())
                        && binding_live(ctx@, resources@[j]),
                *ctx == *old(ctx),
            decreases resources@.len() - i,
        {
            if i > u32::MAX as usize {
                assert(slot_kind(layout@, i as int) is None) by {
                    lemma_no_slot_beyond_u32(layout@, i as int, 0);
                }
                return Err(RenderError::ResourceBindingMismatch);
            }
            let binding = i as u32;
            let resource = resources[i];
            if layout.kind_at(binding) != Some(resource.binding_kind()) || !resource.is_live(ctx) {
                return Err(RenderError::ResourceBindingMismatch);
            }
            entries.push(GroupEntry { binding, resource });
            i += 1;
            assert(entries@ =~= bound_entries(resources@.take(i as int)));
        }
        assert(resources@.take(i as int) =~= resources@);
        let handle = ctx.register(ResourceKind::Group);
        Ok(Group { handle, layout: layout.handle(), entries })
    }

    /// The handle that names this resource.
    pub fn handle(&self) -> (handle: Handle)
        ensures
            handle == self.id(),
    {
        self.handle
    }

    /// The handle of the layout that the group was bound against.
    pub fn layout(&self) -> (layout: Handle)
        ensures
            layout == self.layout_id(),
    {
        self.layout
    }

    /// The slots, in order.
    pub fn entries(&self) -> (entries: &Vec<GroupEntry>)
        ensures
            entries@ == self@,
    {
        &self.entries
    }

    /// The group as a resource of a command list.
    pub fn as_resource(&self) -> (resource: RenderResource)
        ensures
            resource == (RenderResource::BindGroup { group: self.id() }),
    {
        RenderResource::BindGroup { group: self.handle }
    }
}

/// No slot has an index that a 32-bit number cannot hold.
proof fn lemma_no_slot_beyond_u32(entries: Seq<LayoutEntry>, binding: int, start: int)
    requires
        binding > u32::MAX,
        0 <= start,
    ensures
        slot_kind_from(entries, binding, start) is None,
    decreases entries.len() - start,
{
    if start < entries.len() {
        lemma_no_slot_beyond_u32(entries, binding, start + 1);
    }
}

} // verus!
