//! Uniform buffers: small buffers of per-frame data, written to in part or
//! in whole. What the bytes mean is the caller's business.

use vstd::prelude::*;
use crate::buffer::{written, Buffer, BufferUsages};
use crate::context::{Context, ResourceKind};
use crate::error::RenderError;
use crate::group::{BindingResource, BindingType, BufferBindingType};

verus! {

/// What a uniform buffer may be used for.
pub open spec fn uniform_usage() -> BufferUsages {
    BufferUsages { vertex: false, index: false, uniform: true, copy_dst: true }
}

/// A buffer of uniform data. It is written to and never read back by the
/// application. A write reaches the buffer at once, whatever frames are in
/// flight: the caller sees to it that no submitted frame still reads it.
#[derive(Debug, PartialEq)]
pub struct UniformBuffer {
    buffer: Buffer,
}

impl UniformBuffer {
    /// The buffer itself.
    pub closed spec fn inner(&self) -> Buffer {
        self.buffer
    }

    /// Creates a uniform buffer that holds `data`.
    pub fn new(ctx: &mut Context, data: &[u8]) -> (uniform: UniformBuffer)
        ensures
            uniform.inner()@ == data@,
            uniform.inner().usages() == uniform_usage(),
            uniform.inner().id().index == old(ctx)@.len(),
            final(ctx)@ == old(ctx)@.push(Some(ResourceKind::Buffer)),
    {
        let buffer = Buffer::new(
            ctx,
            data,
            BufferUsages { vertex: false, index: false, uniform: true, copy_dst: true },
        );
        UniformBuffer { buffer }
    }

    /// Writes `data` over the bytes from `offset` on and leaves the others.
    /// The write goes to the queue at once, apart from any frame. A write
    /// that would pass the end of the buffer is rejected and changes
    /// nothing.
    pub fn uptade(&mut self, data: &[u8], offset: u64) -> (r: Result<(), RenderError>)
        ensures
            match r {
                Ok(()) => {
                    &&& offset + data@.len() <= old(self).inner()@.len()
                    &&& final(self).inner()@ == written(old(self).inner()@, offset as int, data@)
                    &&& final(self).inner().id() == old(self).inner().id()
                    &&& final(self).inner().usages() == old(self).inner().usages()
                },
                Err(e) => {
                    &&& offset + data@.len() > old(self).inner()@.len()
                    &&& e == RenderError::BufferSizeMismatch
                    &&& *final(self) == *old(self)
                },
            },
    {
        self.buffer.write(offset, data)
    }

    /// The buffer itself.
    pub fn buffer(&self) -> (buffer: &Buffer)
        ensures
            *buffer == self.inner(),
    {
        &self.buffer
    }

    /// The whole buffer as a resource of a group.
    pub fn as_resource(&self) -> (resource: BindingResource)
        ensures
            resource == BindingResource::Buffer(self.inner().id()),
    {
        BindingResource::Buffer(self.buffer.handle())
    }

    /// The type of a binding slot that takes a uniform buffer.
    pub fn binding_type() -> (ty: BindingType)
        ensures
            ty == (BindingType::Buffer {
                ty: BufferBindingType::Uniform,
                has_dynamic_offset: false,
                min_binding_size: None,
            }),
    {
        BindingType::Buffer {
            ty: BufferBindingType::Uniform,
            has_dynamic_offset: false,
            min_binding_size: None,
        }
    }
}

} // verus!
