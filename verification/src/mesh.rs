//! Meshes: a vertex buffer and an index buffer, fixed for good or open to
//! updates of the same length.

use vstd::prelude::*;
use crate::buffer::{written, Buffer, BufferUsages};
use crate::context::{Context, ResourceKind};
use crate::error::RenderError;
use crate::render::{BufferSlice, RenderResource};

verus! {

/// The byte of a word at place `k`, counted from the least significant.
pub open spec fn byte_of(word: u32, k: int) -> u8 {
    if k == 0 {
        (word % 0x100) as u8
    } else if k == 1 {
        (word / 0x100 % 0x100) as u8
    } else if k == 2 {
        (word / 0x1_0000 % 0x100) as u8
    } else {
        (word / 0x100_0000 % 0x100) as u8
    }
}

/// The bytes of a sequence of words, each word least significant byte first.
pub open spec fn little_endian(words: Seq<u32>) -> Seq<u8> {
    Seq::new(4 * words.len(), |i: int| byte_of(words[i / 4], i % 4))
}

/// The bytes of a sequence of words, each word most significant byte first.
pub open spec fn big_endian(words: Seq<u32>) -> Seq<u8> {
    Seq::new(4 * words.len(), |i: int| byte_of(words[i / 4], 3 - i % 4))
}

/// Whether `bytes` is what `words` are in the memory of some machine.
pub open spec fn in_memory(bytes: Seq<u8>, words: Seq<u32>) -> bool {
    bytes == little_endian(words) || bytes == big_endian(words)
}

/// Calls `bytemuck::cast_slice` from `u32` to `u8`: the same memory, seen as
/// bytes. The cast to a type of alignment one and size one cannot fail. The
/// order of the four bytes of a word is that of the machine, so the contract
/// leaves open which of the two orders it is.
#[verifier::external_body]
pub(crate) fn index_bytes(indices: &[u32]) -> (bytes: &[u8])
    ensures
        in_memory(bytes@, indices@),
{
    bytemuck::cast_slice(indices)
}

/// The number of indices that a draw can count: the length of the list, cut
/// to 32 bits.
pub open spec fn counted(len: nat) -> u32 {
    (len % 0x1_0000_0000) as u32
}

fn count_indices(indices: &[u32]) -> (count: u32)
    ensures
        count == counted(indices@.len()),
{
    let len = indices.len() as u64;
    (len % 0x1_0000_0000) as u32
}

/// What a vertex buffer may be used for.
pub open spec fn vertex_usage(copy_dst: bool) -> BufferUsages {
    BufferUsages { vertex: true, index: false, uniform: false, copy_dst }
}

/// What an index buffer may be used for.
pub open spec fn index_usage(copy_dst: bool) -> BufferUsages {
    BufferUsages { vertex: false, index: true, uniform: false, copy_dst }
}

/// A mesh whose content is set once, when it is created. Its buffers cannot
/// be written to.
#[derive(Debug, PartialEq)]
pub struct StaticMesh {
    vertex_buffer: Buffer,
    index_buffer: Buffer,
    index_count: u32,
}

impl StaticMesh {
    /// The vertex buffer.
    pub closed spec fn vertices(&self) -> Buffer {
        self.vertex_buffer
    }

    /// The index buffer.
    pub closed spec fn indices(&self) -> Buffer {
        self.index_buffer
    }

    /// The number of indices.
    pub closed spec fn count(&self) -> u32 {
        self.index_count
    }

    /// Creates the two buffers of a mesh: one of the bytes of its vertices,
    /// one of its indices as they lie in memory.
    pub fn new(ctx: &mut Context, vertices: &[u8], indices: &[u32]) -> (mesh: StaticMesh)
        ensures
            mesh.vertices()@ == vertices@,
            mesh.vertices().usages() == vertex_usage(false),
            mesh.vertices().id().index == old(ctx)@.len(),
            in_memory(mesh.indices()@, indices@),
            mesh.indices().usages() == index_usage(false),
            mesh.indices().id().index == old(ctx)@.len() + 1,
            mesh.count() == counted(indices@.len()),
            final(ctx)@ == old(ctx)@.push(Some(ResourceKind::Buffer)).push(Some(ResourceKind::Buffer)),
    {
        let vertex_buffer = Buffer::new(
            ctx,
            vertices,
            BufferUsages { vertex: true, index: false, uniform: false, copy_dst: false },
        );
        let index_buffer = Buffer::new(
            ctx,
            index_bytes(indices),
            BufferUsages { vertex: false, index: true, uniform: false, copy_dst: false },
        );
        StaticMesh { vertex_buffer, index_buffer, index_count: count_indices(indices) }
    }

    /// The number of indices.
    pub fn index_count(&self) -> (count: u32)
        ensures
            count == self.count(),
    {
        self.index_count
    }

    /// The vertex buffer.
    pub fn vertex_buffer(&self) -> (buffer: &Buffer)
        ensures
            *buffer == self.vertices(),
    {
        &self.vertex_buffer
    }

    /// The index buffer.
    pub fn index_buffer(&self) -> (buffer: &Buffer)
        ensures
            *buffer == self.indices(),
    {
        &self.index_buffer
    }

    /// The whole vertex buffer as a resource of a command list.
    pub fn vertex_buffer_resource(&self) -> (resource: RenderResource)
        ensures
            resource == (RenderResource::VertexBuffer {
                slice: BufferSlice {
                    buffer: self.vertices().id(),
                    size: self.vertices()@.len() as u64,
                },
            }),
    {
        RenderResource::VertexBuffer { slice: self.vertex_buffer.slice() }
    }

    /// The whole index buffer as a resource of a command list.
    pub fn index_buffer_resource(&self) -> (resource: RenderResource)
        ensures
            resource == (RenderResource::IndexBuffer {
                slice: BufferSlice {
                    buffer: self.indices().id(),
                    size: self.indices()@.len() as u64,
                },
            }),
    {
        RenderResource::IndexBuffer { slice: self.index_buffer.slice() }
    }
}

/// A mesh whose content can be replaced after it is created, by content of
/// the same length in bytes.
///
/// A write reaches the buffer at once, whatever frames are in flight: the
/// caller sees to it that no submitted frame still reads the buffer.
#[derive(Debug, PartialEq)]
pub struct DynamicMesh {
    vertex_buffer: Buffer,
    index_buffer: Buffer,
    index_count: u32,
}

impl DynamicMesh {
    /// The vertex buffer.
    pub closed spec fn vertices(&self) -> Buffer {
        self.vertex_buffer
    }

    /// The index buffer.
    pub closed spec fn indices(&self) -> Buffer {
        self.index_buffer
    }

    /// The number of indices.
    pub closed spec fn count(&self) -> u32 {
        self.index_count
    }

    /// Creates the two buffers of a mesh, both open to later writes.
    pub fn new(ctx: &mut Context, vertices: &[u8], indices: &[u32]) -> (mesh: DynamicMesh)
        ensures
            mesh.vertices()@ == vertices@,
            mesh.vertices().usages() == vertex_usage(true),
            mesh.vertices().id().index == old(ctx)@.len(),
            in_memory(mesh.indices()@, indices@),
            mesh.indices().usages() == index_usage(true),
            mesh.indices().id().index == old(ctx)@.len() + 1,
            mesh.count() == counted(indices@.len()),
            final(ctx)@ == old(ctx)@.push(Some(ResourceKind::Buffer)).push(Some(ResourceKind::Buffer)),
    {
        let vertex_buffer = Buffer::new(
            ctx,
            vertices,
            BufferUsages { vertex: true, index: false, uniform: false, copy_dst: true },
        );
        let index_buffer = Buffer::new(
            ctx,
            index_bytes(indices),
            BufferUsages { vertex: false, index: true, uniform: false, copy_dst: true },
        );
        DynamicMesh { vertex_buffer, index_buffer, index_count: count_indices(indices) }
    }

    /// Replaces the vertices by others of the same length in bytes. Content of
    /// another length is rejected, and the mesh stays as it was.
    pub fn uptade_vertices(&mut self, vertices: &[u8]) -> (r: Result<(), RenderError>)
        ensures
            match r {
                Ok(()) => {
                    &&& vertices@.len() == old(self).vertices()@.len()
                    &&& final(self).vertices()@ == vertices@
                    &&& final(self).vertices().id() == old(self).vertices().id()
                    &&& final(self).vertices().usages() == old(self).vertices().usages()
                    &&& final(self).indices() == old(self).indices()
                    &&& final(self).count() == old(self).count()
                },
                Err(e) => {
                    &&& vertices@.len() != old(self).vertices()@.len()
                    &&& e == RenderError::BufferSizeMismatch
                    &&& *final(self) == *old(self)
                },
            },
    {
        if vertices.len() as u64 != self.vertex_buffer.size() {
            return Err(RenderError::BufferSizeMismatch);
        }
        let r = self.vertex_buffer.write(0, vertices);
        assert(written(old(self).vertices()@, 0, vertices@) =~= vertices@);
        r
    }

    /// Replaces the indices by as many others. A list of another length is
    /// rejected, and the mesh stays as it was.
    pub fn uptade_indices(&mut self, indices: &[u32]) -> (r: Result<(), RenderError>)
        ensures
            match r {
                Ok(()) => {
                    &&& 4 * indices@.len() == old(self).indices()@.len()
                    &&& in_memory(final(self).indices()@, indices@)
                    &&& final(self).indices().id() == old(self).indices().id()
                    &&& final(self).indices().usages() == old(self).indices().usages()
                    &&& final(self).vertices() == old(self).vertices()
                    &&& final(self).count() == old(self).count()
                },
                Err(e) => {
                    &&& 4 * indices@.len() != old(self).indices()@.len()
                    &&& e == RenderError::BufferSizeMismatch
                    &&& *final(self) == *old(self)
                },
            },
    {
        let bytes = index_bytes(indices);
        if bytes.len() as u64 != self.index_buffer.size() {
            return Err(RenderError::BufferSizeMismatch);
        }
        let r = self.index_buffer.write(0, bytes);
        assert(written(old(self).indices()@, 0, bytes@) =~= bytes@);
        r
    }

    /// The number of indices.
    pub fn index_count(&self) -> (count: u32)
        ensures
            count == self.count(),
    {
        self.index_count
    }

    /// The vertex buffer.
    pub fn vertex_buffer(&self) -> (buffer: &Buffer)
        ensures
            *buffer == self.vertices(),
    {
        &self.vertex_buffer
    }

    /// The index buffer.
    pub fn index_buffer(&self) -> (buffer: &Buffer)
        ensures
            *buffer == self.indices(),
    {
        &self.index_buffer
    }

    /// The whole vertex buffer as a resource of a command list.
    pub fn vertex_buffer_resource(&self) -> (resource: RenderResource)
        ensures
            resource == (RenderResource::VertexBuffer {
                slice: BufferSlice {
                    buffer: self.vertices().id(),
                    size: self.vertices()@.len() as u64,
                },
            }),
    {
        RenderResource::VertexBuffer { slice: self.vertex_buffer.slice() }
    }

    /// The whole index buffer as a resource of a command list.
    pub fn index_buffer_resource(&self) -> (resource: RenderResource)
        ensures
            resource == (RenderResource::IndexBuffer {
                slice: BufferSlice {
                    buffer: self.indices().id(),
                    size: self.indices()@.len() as u64,
                },
            }),
    {
        RenderResource::IndexBuffer { slice: self.index_buffer.slice() }
    }
}

} // verus!
