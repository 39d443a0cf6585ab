//! Buffers: GPU memory under a handle, with the bytes that were last written
//! to it.

use vstd::prelude::*;
use vstd::slice::slice_to_vec;
use crate::context::{Context, Handle, ResourceKind};
use crate::error::RenderError;
use crate::render::BufferSlice;

verus! {

/// What a buffer may be used for.
#[derive(Clone, Copy, Debug, PartialEq, Eq, Hash, Structural)]
pub struct BufferUsages {
    pub vertex: bool,
    pub index: bool,
    pub uniform: bool,
    pub copy_dst: bool,
}

/// A buffer of fixed length. Its view is its content.
#[derive(Debug, PartialEq)]
pub struct Buffer {
    handle: Handle,
    usage: BufferUsages,
    contents: Vec<u8>,
}

impl View for Buffer {
    type V = Seq<u8>;

    closed spec fn view(&self) -> Seq<u8> {
        self.contents@
    }
}

/// The content of a buffer after `data` is written at `offset`.
pub open spec fn written(contents: Seq<u8>, offset: int, data: Seq<u8>) -> Seq<u8> {
    contents.take(offset) + data + contents.skip(offset + data.len())
}

impl Buffer {
    /// The name of the buffer.
    pub closed spec fn id(&self) -> Handle {
        self.handle
    }

    /// What the buffer may be used for.
    pub closed spec fn usages(&self) -> BufferUsages {
        self.usage
    }

    /// Creates a buffer that holds `contents`.
    pub fn new(ctx: &mut Context, contents: &[u8], usage: BufferUsages) -> (buffer: Buffer)
        ensures
            buffer@ == contents@,
            buffer.usages() == usage,
            buffer.id().index == old(ctx)@.len(),
            final(ctx)@ == old(ctx)@.push(Some(ResourceKind::Buffer)),
    {
        let handle = ctx.register(ResourceKind::Buffer);
        Buffer { handle, usage, contents: slice_to_vec(contents) }
    }

    /// Writes `data` over the bytes from `offset` on. A write that would pass
    /// the end of the buffer is rejected and changes nothing.
    pub(crate) fn write(&mut self, offset: u64, data: &[u8]) -> (r: Result<(), RenderError>)
        ensures
            match r {
                Ok(()) => {
                    &&& offset + data@.len() <= old(self)@.len()
                    &&& final(self)@ == written(old(self)@, offset as int, data@)
                    &&& final(self).id() == old(self).id()
                    &&& final(self).usages() == old(self).usages()
                },
                Err(e) => {
                    &&& offset + data@.len() > old(self)@.len()
                    &&& e == RenderError::BufferSizeMismatch
                    &&& *final(self) == *old(self)
                },
            },
    {
        let len = self.contents.len();
        if offset > len as u64 || data.len() > len - offset as usize {
            return Err(RenderError::BufferSizeMismatch);
        }
        let start = offset as usize;
        let mut k: usize = 0;
        assert(self.contents@ =~= written(old(self)@, start as int, data@.take(0)));
        while k < data.len()
            invariant
                k <= data@.len(),
                start + data@.len() <= len,
                self.contents@.len() == len,
                old(self)@.len() == len,
                self.contents@ == written(old(self)@, start as int, data@.take(k as int)),
                self.handle == old(self).handle,
                self.usage == old(self).usage,
            decreases data@.len() - k,
        {
            self.contents.set(start + k, data[k]);
            k += 1;
            assert(self.contents@ =~= written(old(self)@, start as int, data@.take(k as int)));
        }
        assert(data@.take(k as int) =~= data@);
        Ok(())
    }

    /// The handle that names the buffer.
    pub fn handle(&self) -> (handle: Handle)
        ensures
            handle == self.id(),
    {
        self.handle
    }

    /// What the buffer may be used for.
    pub fn usage(&self) -> (usage: BufferUsages)
        ensures
            usage == self.usages(),
    {
        self.usage
    }

    /// The bytes that the buffer holds.
    pub fn contents(&self) -> (contents: &Vec<u8>)
        ensures
            contents@ == self@,
    {
        &self.contents
    }

    /// The length of the buffer in bytes.
    pub fn size(&self) -> (size: u64)
        ensures
            size == self@.len(),
    {
        self.contents.len() as u64
    }

    /// The whole buffer, as a command binds it.
    pub fn slice(&self) -> (slice: BufferSlice)
        ensures
            slice == (BufferSlice { buffer: self.id(), size: self@.len() as u64 }),
    {
        BufferSlice { buffer: self.handle, size: self.contents.len() as u64 }
    }
}

} // verus!
