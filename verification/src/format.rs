//! The backend's value types that pass through this crate unread, and the
//! two questions that the crate asks of a texture format.

use vstd::prelude::*;

verus! {

/// `wgpu::TextureFormat`: the pixel format of a texture or a surface.
#[verifier::external_type_specification]
#[verifier::external_body]
pub struct ExTextureFormat(wgpu::TextureFormat);

/// `wgpu::PresentMode`: how a surface paces the images it shows.
#[verifier::external_type_specification]
#[verifier::external_body]
pub struct ExPresentMode(wgpu::PresentMode);

/// `wgpu::CompositeAlphaMode`: how a surface blends with what lies behind it.
#[verifier::external_type_specification]
#[verifier::external_body]
pub struct ExCompositeAlphaMode(wgpu::CompositeAlphaMode);

/// `wgpu::Color`: a colour of four channels, carried to the backend as given.
#[verifier::external_type_specification]
#[verifier::external_body]
pub struct ExColor(wgpu::Color);

/// `wgpu::IndexFormat`: the width of the indices in an index buffer.
#[verifier::external_type_specification]
#[verifier::external_body]
pub struct ExIndexFormat(wgpu::IndexFormat);

/// `wgpu::VertexBufferLayout`: how a pipeline reads one vertex buffer.
#[verifier::external_type_specification]
#[verifier::external_body]
pub struct ExVertexBufferLayout<'a>(wgpu::VertexBufferLayout<'a>);

/// `wgpu::DepthStencilState`: the depth and stencil tests of a pipeline.
#[verifier::external_type_specification]
#[verifier::external_body]
pub struct ExDepthStencilState(wgpu::DepthStencilState);

/// Whether `wgpu::TextureFormat::is_srgb` holds of a format.
pub uninterp spec fn format_is_srgb(format: wgpu::TextureFormat) -> bool;

/// What `wgpu::TextureFormat::target_pixel_byte_cost` gives for a format.
pub uninterp spec fn format_pixel_byte_cost(format: wgpu::TextureFormat) -> Option<u32>;

/// Calls `wgpu::TextureFormat::is_srgb`, which compares the format with
/// itself stripped of an sRGB suffix. The answer depends on the format alone,
/// and the contract claims no more than that.
#[verifier::external_body]
pub(crate) fn is_srgb(format: &wgpu::TextureFormat) -> (srgb: bool)
    ensures
        srgb == format_is_srgb(*format),
{
    format.is_srgb()
}

/// Calls `wgpu::TextureFormat::target_pixel_byte_cost`, a table from formats
/// to the bytes that one pixel costs in a colour attachment, `None` for the
/// formats that cannot be one. The answer depends on the format alone, and
/// the contract claims no more than that.
#[verifier::external_body]
pub(crate) fn target_pixel_byte_cost(format: &wgpu::TextureFormat) -> (cost: Option<u32>)
    ensures
        cost == format_pixel_byte_cost(*format),
{
    format.target_pixel_byte_cost()
}

} // verus!
