//! Textures, the views through which they are bound, and samplers.

use vstd::prelude::*;
use vstd::slice::slice_to_vec;
use crate::context::{Context, Handle, ResourceKind, WindowSurface};
use crate::error::RenderError;
use crate::format::{format_pixel_byte_cost, target_pixel_byte_cost};
use crate::frame::Frame;
use crate::group::{
    BindingResource, BindingType, SamplerBindingType, TextureSampleType, TextureViewDimension,
};
use crate::render::{LoadOp, PassOp, PassTarget, RenderPass, Submission};

verus! {

/// What a sampler does with coordinates outside a texture.
#[derive(Clone, Copy, Debug, PartialEq, Eq, Hash, Structural)]
pub enum AddressMode {
    ClampToEdge,
    Repeat,
    MirrorRepeat,
    ClampToBorder,
}

/// How a sampler picks a value between texels.
#[derive(Clone, Copy, Debug, PartialEq, Eq, Hash, Structural)]
pub enum FilterMode {
    Nearest,
    Linear,
}

/// The configuration of a sampler, fixed when the sampler is created.
#[derive(Clone, Copy, Debug, PartialEq, Eq, Hash, Structural)]
pub struct SamplerDescriptor {
    pub address_mode_u: AddressMode,
    pub address_mode_v: AddressMode,
    pub address_mode_w: AddressMode,
    pub mag_filter: FilterMode,
    pub min_filter: FilterMode,
    pub mipmap_filter: FilterMode,
}

/// The sampler that serves where nothing else is asked for: it repeats the
/// texture in every direction and filters linearly.
pub open spec fn repeat_linear() -> SamplerDescriptor {
    SamplerDescriptor {
        address_mode_u: AddressMode::Repeat,
        address_mode_v: AddressMode::Repeat,
        address_mode_w: AddressMode::Repeat,
        mag_filter: FilterMode::Linear,
        min_filter: FilterMode::Linear,
        mipmap_filter: FilterMode::Linear,
    }
}

/// The sampler of a texture that is shown at its own size or smaller: it
/// repeats the texture in every direction, filters linearly where the
/// texture is magnified, and takes the nearest texel elsewhere.
pub open spec fn repeat_nearest() -> SamplerDescriptor {
    SamplerDescriptor {
        address_mode_u: AddressMode::Repeat,
        address_mode_v: AddressMode::Repeat,
        address_mode_w: AddressMode::Repeat,
        mag_filter: FilterMode::Linear,
        min_filter: FilterMode::Nearest,
        mipmap_filter: FilterMode::Nearest,
    }
}

/// The sampler of an offscreen texture, made by [`Sampler2D::new`].
pub type TextureSampler = Sampler2D;

/// A sampler: a way of reading textures, tied to none of them.
#[derive(Debug, PartialEq)]
pub struct Sampler2D {
    handle: Handle,
    descriptor: SamplerDescriptor,
}

impl Sampler2D {
    /// The name of the sampler.
    pub closed spec fn id(&self) -> Handle {
        self.handle
    }

    /// The configuration of the sampler.
    pub closed spec fn desc(&self) -> SamplerDescriptor {
        self.descriptor
    }

    /// Creates a sampler of the given configuration.
    pub fn from_descriptor(ctx: &mut Context, descriptor: &SamplerDescriptor) -> (sampler: Sampler2D)
        ensures
            sampler.desc() == *descriptor,
            sampler.id().index == old(ctx)@.len(),
            final(ctx)@ == old(ctx)@.push(Some(ResourceKind::Sampler)),
    {
        let handle = ctx.register(ResourceKind::Sampler);
        Sampler2D { handle, descriptor: *descriptor }
    }

    /// Creates the sampler of [`repeat_nearest`].
    pub fn new(ctx: &mut Context) -> (sampler: Sampler2D)
        ensures
            sampler.desc() == repeat_nearest(),
            sampler.id().index == old(ctx)@.len(),
            final(ctx)@ == old(ctx)@.push(Some(ResourceKind::Sampler)),
    {
        let descriptor = SamplerDescriptor {
            address_mode_u: AddressMode::Repeat,
            address_mode_v: AddressMode::Repeat,
            address_mode_w: AddressMode::Repeat,
            mag_filter: FilterMode::Linear,
            min_filter: FilterMode::Nearest,
            mipmap_filter: FilterMode::Nearest,
        };
        Sampler2D::from_descriptor(ctx, &descriptor)
    }

    /// Creates the sampler of [`repeat_linear`].
    pub fn default(ctx: &mut Context) -> (sampler: Sampler2D)
        ensures
            sampler.desc() == repeat_linear(),
            sampler.id().index == old(ctx)@.len(),
            final(ctx)@ == old(ctx)@.push(Some(ResourceKind::Sampler)),
    {
        let descriptor = SamplerDescriptor {
            address_mode_u: AddressMode::Repeat,
            address_mode_v: AddressMode::Repeat,
            address_mode_w: AddressMode::Repeat,
            mag_filter: FilterMode::Linear,
            min_filter: FilterMode::Linear,
            mipmap_filter: FilterMode::Linear,
        };
        Sampler2D::from_descriptor(ctx, &descriptor)
    }

    /// The handle that names this resource.
    pub fn handle(&self) -> (handle: Handle)
        ensures
            handle == self.id(),
    {
        self.handle
    }

    /// The configuration of the sampler.
    pub fn descriptor(&self) -> (descriptor: SamplerDescriptor)
        ensures
            descriptor == self.desc(),
    {
        self.descriptor
    }

    /// The type of a binding slot that takes a sampler.
    pub fn binding_type() -> (ty: BindingType)
        ensures
            ty == BindingType::Sampler(SamplerBindingType::Filtering),
    {
        BindingType::Sampler(SamplerBindingType::Filtering)
    }

    /// The sampler as a resource of a group.
    pub fn as_binding_resource(&self) -> (resource: BindingResource)
        ensures
            resource == BindingResource::Sampler(self.id()),
    {
        BindingResource::Sampler(self.handle)
    }
}

/// What a texture may be used for.
#[derive(Clone, Copy, Debug, PartialEq, Eq, Hash, Structural)]
pub struct TextureUsages {
    pub texture_binding: bool,
    pub render_attachment: bool,
}

/// A two-dimensional image in GPU memory. Its format, size and number of
/// mip levels are fixed when it is created, with its first content.
#[derive(Debug, PartialEq)]
pub struct Texture2D {
    handle: Handle,
    format: wgpu::TextureFormat,
    width: u32,
    height: u32,
    mip_level_count: u32,
    data: Vec<u8>,
}

impl View for Texture2D {
    type V = Seq<u8>;

    closed spec fn view(&self) -> Seq<u8> {
        self.data@
    }
}

impl Texture2D {
    /// The name of the texture.
    pub closed spec fn id(&self) -> Handle {
        self.handle
    }

    /// The pixel format.
    pub closed spec fn pixel_format(&self) -> wgpu::TextureFormat {
        self.format
    }

    /// Width, height and number of mip levels.
    pub closed spec fn extent(&self) -> (u32, u32, u32) {
        (self.width, self.height, self.mip_level_count)
    }

    /// Creates a texture and uploads `data` as its content, layer by layer.
    /// The texture can be bound, and nothing else.
    pub fn new(
        ctx: &mut Context,
        data: &[u8],
        format: wgpu::TextureFormat,
        width: u32,
        height: u32,
        mip_level: u32,
    ) -> (texture: Texture2D)
        ensures
            texture@ == data@,
            texture.pixel_format() == format,
            texture.extent() == (width, height, mip_level),
            texture.id().index == old(ctx)@.len(),
            final(ctx)@ == old(ctx)@.push(Some(ResourceKind::Texture)),
    {
        let handle = ctx.register(ResourceKind::Texture);
        Texture2D {
            handle,
            format,
            width,
            height,
            mip_level_count: mip_level,
            data: slice_to_vec(data),
        }
    }

    /// Creates a view of the whole texture.
    pub fn create_view(&self, ctx: &mut Context) -> (view: TextureView2D)
        ensures
            view.texture_id() == self.id(),
            view.id().index == old(ctx)@.len(),
            final(ctx)@ == old(ctx)@.push(Some(ResourceKind::TextureView)),
    {
        let handle = ctx.register(ResourceKind::TextureView);
        TextureView2D { handle, texture: self.handle }
    }

    /// The handle that names this resource.
    pub fn handle(&self) -> (handle: Handle)
        ensures
            handle == self.id(),
    {
        self.handle
    }

    /// The pixel format.
    pub fn format(&self) -> (format: wgpu::TextureFormat)
        ensures
            format == self.pixel_format(),
    {
        self.format
    }

    /// The width in pixels.
    pub fn width(&self) -> (width: u32)
        ensures
            width == self.extent().0,
    {
        self.width
    }

    /// The height in pixels.
    pub fn height(&self) -> (height: u32)
        ensures
            height == self.extent().1,
    {
        self.height
    }

    /// The number of mip levels.
    pub fn mip_level_count(&self) -> (count: u32)
        ensures
            count == self.extent().2,
    {
        self.mip_level_count
    }

    /// The usages of every texture of this kind.
    pub fn usage(&self) -> (usage: TextureUsages)
        ensures
            usage == (TextureUsages { texture_binding: true, render_attachment: false }),
    {
        TextureUsages { texture_binding: true, render_attachment: false }
    }

    /// The content that the texture was created with.
    pub fn data(&self) -> (data: &Vec<u8>)
        ensures
            data@ == self@,
    {
        &self.data
    }
}

/// A read-only view of a whole texture, as a group binds it.
#[derive(Debug, PartialEq)]
pub struct TextureView2D {
    handle: Handle,
    texture: Handle,
}

impl TextureView2D {
    /// The name of the view.
    pub closed spec fn id(&self) -> Handle {
        self.handle
    }

    /// The name of the texture that the view shows.
    pub closed spec fn texture_id(&self) -> Handle {
        self.texture
    }

    /// The handle that names this resource.
    pub fn handle(&self) -> (handle: Handle)
        ensures
            handle == self.id(),
    {
        self.handle
    }

    /// The handle of the texture that the view shows.
    pub fn texture(&self) -> (texture: Handle)
        ensures
            texture == self.texture_id(),
    {
        self.texture
    }

    /// The type of a binding slot that takes a view of a texture.
    pub fn binding_type() -> (ty: BindingType)
        ensures
            ty == (BindingType::Texture {
                sample_type: TextureSampleType::Float { filterable: true },
                view_dimension: TextureViewDimension::D2,
                multisampled: false,
            }),
    {
        BindingType::Texture {
            sample_type: TextureSampleType::Float { filterable: true },
            view_dimension: TextureViewDimension::D2,
            multisampled: false,
        }
    }

    /// The view as a resource of a group.
    pub fn as_binding_resource(&self) -> (resource: BindingResource)
        ensures
            resource == BindingResource::TextureView(self.id()),
    {
        BindingResource::TextureView(self.handle)
    }
}

/// The number of bytes that fill a colour target of `width` by `height`
/// pixels at `cost` bytes a pixel: `None` where the format has no such cost,
/// or where the number does not fit in 32 bits.
pub open spec fn fill_length(width: u32, height: u32, cost: Option<u32>) -> Option<u32> {
    match cost {
        Some(c) => if width * height * c <= u32::MAX {
            Some((width * height * c) as u32)
        } else {
            None
        },
        None => None,
    }
}

/// Computes [`fill_length`].
pub fn initial_fill(width: u32, height: u32, cost: Option<u32>) -> (len: Option<u32>)
    ensures
        len == fill_length(width, height, cost),
{
    match cost {
        None => None,
        Some(c) => {
            if c == 0 {
                assert(width * height * 0 == 0);
                return Some(0);
            }
            match width.checked_mul(height) {
                None => {
                    assert(width * height * c > u32::MAX) by (nonlinear_arith)
                        requires
                            width * height > u32::MAX,
                            c >= 1,
                    ;
                    None
                },
                Some(area) => area.checked_mul(c),
            }
        },
    }
}

/// A texture that can be drawn to and bound: the offscreen target of a
/// frame. It starts filled with the byte 255.
#[derive(Debug, PartialEq)]
pub struct RenderableTexture {
    handle: Handle,
    format: wgpu::TextureFormat,
    width: u32,
    height: u32,
    fill_len: u32,
}

impl RenderableTexture {
    /// The name of the texture.
    pub closed spec fn id(&self) -> Handle {
        self.handle
    }

    /// The pixel format.
    pub closed spec fn pixel_format(&self) -> wgpu::TextureFormat {
        self.format
    }

    /// Width and height.
    pub closed spec fn size(&self) -> (u32, u32) {
        (self.width, self.height)
    }

    /// The number of bytes of the first content.
    pub closed spec fn fill(&self) -> u32 {
        self.fill_len
    }

    /// Two textures of the same name, format, size and content are the same.
    pub proof fn lemma_determined(&self, other: &RenderableTexture)
        requires
            self.id() == other.id(),
            self.pixel_format() == other.pixel_format(),
            self.size() == other.size(),
            self.fill() == other.fill(),
        ensures
            *self == *other,
    {
    }

    /// The texture as the target of a pass.
    pub open spec fn as_target(&self) -> PassTarget {
        PassTarget::Texture { texture: self.id(), width: self.size().0, height: self.size().1 }
    }

    /// Creates a texture of the size and format of a surface. A surface whose
    /// format cannot be a colour target, or whose content would not fit in
    /// 32 bits, is rejected, and then nothing is created.
    pub fn from_surface(ctx: &mut Context, surface: &WindowSurface) -> (r: Result<
        RenderableTexture,
        RenderError,
    >)
        ensures
            match r {
                Ok(texture) => {
                    &&& fill_length(
                        surface.config().width,
                        surface.config().height,
                        format_pixel_byte_cost(surface.config().format),
                    ) == Some(texture.fill())
                    &&& texture.size() == (surface.config().width, surface.config().height)
                    &&& texture.pixel_format() == surface.config().format
                    &&& texture.id().index == old(ctx)@.len()
                    &&& final(ctx)@ == old(ctx)@.push(Some(ResourceKind::Texture))
                },
                Err(e) => {
                    &&& fill_length(
                        surface.config().width,
                        surface.config().height,
                        format_pixel_byte_cost(surface.config().format),
                    ) is None
                    &&& e == RenderError::SurfaceConfigurationInvalid
                    &&& *final(ctx) == *old(ctx)
                },
            },
    {
        let configuration = surface.configuration();
        let cost = target_pixel_byte_cost(&configuration.format);
        match initial_fill(configuration.width, configuration.height, cost) {
            None => Err(RenderError::SurfaceConfigurationInvalid),
            Some(fill_len) => {
                let handle = ctx.register(ResourceKind::Texture);
                Ok(
                    RenderableTexture {
                        handle,
                        format: configuration.format,
                        width: configuration.width,
                        height: configuration.height,
                        fill_len,
                    },
                )
            },
        }
    }

    /// The texture that takes this one's place when a surface changes: of
    /// the surface's size and format, under the same name. A surface that
    /// [`RenderableTexture::from_surface`] would reject is rejected.
    pub fn resized(&self, surface: &WindowSurface) -> (r: Result<RenderableTexture, RenderError>)
        ensures
            match r {
                Ok(texture) => {
                    &&& fill_length(
                        surface.config().width,
                        surface.config().height,
                        format_pixel_byte_cost(surface.config().format),
                    ) == Some(texture.fill())
                    &&& texture.size() == (surface.config().width, surface.config().height)
                    &&& texture.pixel_format() == surface.config().format
                    &&& texture.id() == self.id()
                },
                Err(e) => {
                    &&& fill_length(
                        surface.config().width,
                        surface.config().height,
                        format_pixel_byte_cost(surface.config().format),
                    ) is None
                    &&& e == RenderError::SurfaceConfigurationInvalid
                },
            },
    {
        let configuration = surface.configuration();
        let cost = target_pixel_byte_cost(&configuration.format);
        match initial_fill(configuration.width, configuration.height, cost) {
            None => Err(RenderError::SurfaceConfigurationInvalid),
            Some(fill_len) => Ok(
                RenderableTexture {
                    handle: self.handle,
                    format: configuration.format,
                    width: configuration.width,
                    height: configuration.height,
                    fill_len,
                },
            ),
        }
    }

    /// Creates a view of the whole texture.
    pub fn create_view(&self, ctx: &mut Context) -> (view: TextureView2D)
        ensures
            view.texture_id() == self.id(),
            view.id().index == old(ctx)@.len(),
            final(ctx)@ == old(ctx)@.push(Some(ResourceKind::TextureView)),
    {
        let handle = ctx.register(ResourceKind::TextureView);
        TextureView2D { handle, texture: self.handle }
    }

    /// The handle that names this resource.
    pub fn handle(&self) -> (handle: Handle)
        ensures
            handle == self.id(),
    {
        self.handle
    }

    /// The pixel format.
    pub fn format(&self) -> (format: wgpu::TextureFormat)
        ensures
            format == self.pixel_format(),
    {
        self.format
    }

    /// The width in pixels.
    pub fn width(&self) -> (width: u32)
        ensures
            width == self.size().0,
    {
        self.width
    }

    /// The height in pixels.
    pub fn height(&self) -> (height: u32)
        ensures
            height == self.size().1,
    {
        self.height
    }

    /// The number of bytes, each of them 255, that the texture is created
    /// with.
    pub fn fill_len(&self) -> (len: u32)
        ensures
            len == self.fill(),
    {
        self.fill_len
    }

    /// The usages of every texture of this kind.
    pub fn usage(&self) -> (usage: TextureUsages)
        ensures
            usage == (TextureUsages { texture_binding: true, render_attachment: true }),
    {
        TextureUsages { texture_binding: true, render_attachment: true }
    }

    /// The pass that clears the texture to `color` and draws nothing.
    pub fn clear(&self, color: wgpu::Color) -> (pass: RenderPass)
        ensures
            pass.target == self.as_target(),
            pass.load == LoadOp::Clear(color),
            pass.ops@ == Seq::<PassOp>::empty(),
    {
        RenderPass {
            target: PassTarget::Texture {
                texture: self.handle,
                width: self.width,
                height: self.height,
            },
            load: LoadOp::Clear(color),
            ops: Vec::new(),
        }
    }

    /// Records the pass that clears the texture to `color` into a frame that
    /// is being recorded, after the passes that it holds.
    pub fn clear_pass_with_encoder(&self, encoder: &mut Frame, color: wgpu::Color)
        ensures
            final(encoder).target_of() == old(encoder).target_of(),
            final(encoder)@.len() == old(encoder)@.len() + 1,
            final(encoder)@.drop_last() == old(encoder)@,
            final(encoder)@.last().target == self.as_target(),
            final(encoder)@.last().load == LoadOp::Clear(color),
            final(encoder)@.last().ops@ == Seq::<PassOp>::empty(),
    {
        encoder.record(self.clear(color));
        assert(encoder@.drop_last() =~= old(encoder)@);
    }

    /// A command buffer of its own that clears the texture to `color`. It
    /// presents nothing.
    pub fn clear_pass(&self, color: wgpu::Color) -> (submission: Submission)
        ensures
            !submission.present,
            submission.passes@.len() == 1,
            submission.passes@[0].target == self.as_target(),
            submission.passes@[0].load == LoadOp::Clear(color),
            submission.passes@[0].ops@ == Seq::<PassOp>::empty(),
    {
        let mut passes: Vec<RenderPass> = Vec::new();
        passes.push(self.clear(color));
        Submission { passes, present: false }
    }
}

} // verus!
