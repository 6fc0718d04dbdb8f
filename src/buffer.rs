use vstd::prelude::*;

use crate::error::Error;

verus! {

/// A buffer of vertices; `size` is the number of vertices, drawn in full
/// when no range is given.
#[derive(Copy, Clone, PartialEq, Eq, Debug, Structural)]
pub struct VertexBuffer {
    pub size: u32,
}

/// A buffer of 16-bit vertex indices; `size` is the number of indices.
#[derive(Copy, Clone, PartialEq, Eq, Debug, Structural)]
pub struct IndexBuffer {
    pub size: u32,
}

/// A buffer of `count` uniform elements of `size` bytes each.
#[derive(Copy, Clone, PartialEq, Eq, Debug, Structural)]
pub struct UniformBuffer {
    pub size: usize,
    pub count: usize,
}

impl VertexBuffer {
    /// Describes a buffer made from `len` vertices.
    pub fn new(len: usize) -> (b: VertexBuffer)
        requires
            len <= u32::MAX,
        ensures
            b.size == len,
    {
        VertexBuffer { size: len as u32 }
    }
}

impl IndexBuffer {
    /// Describes a buffer made from `len` indices.
    pub fn new(len: usize) -> (b: IndexBuffer)
        requires
            len <= u32::MAX,
        ensures
            b.size == len,
    {
        IndexBuffer { size: len as u32 }
    }
}

/// The byte length of a copy of `count` elements of `size` bytes into
/// `buffer`, which must have elements of that size and at least that many.
pub open spec fn uniform_copy(size: usize, count: usize, buffer: UniformBuffer) -> Result<
    u64,
    Error,
> {
    if size != buffer.size {
        Err(Error::ElementSize)
    } else if count > buffer.count {
        Err(Error::ElementCount)
    } else {
        Ok((size * count) as u64)
    }
}

impl UniformBuffer {
    /// The buffer's byte length fits in a `u64`.
    pub open spec fn wf(&self) -> bool {
        self.size * self.count <= u64::MAX
    }

    /// Describes a buffer made from `count` elements of `size` bytes.
    pub fn new(size: usize, count: usize) -> (b: UniformBuffer)
        requires
            size * count <= u64::MAX,
        ensures
            b == (UniformBuffer { size, count }),
            b.wf(),
    {
        UniformBuffer { size, count }
    }

    /// The byte length of the whole buffer.
    pub fn byte_len(&self) -> (n: u64)
        requires
            self.wf(),
        ensures
            n == self.size * self.count,
    {
        (self.size as u64) * (self.count as u64)
    }

    /// Plans a replacement of the first `count` elements by host data of
    /// elements of `size` bytes, and returns the number of bytes to copy.
    pub fn update(&self, size: usize, count: usize) -> (res: Result<u64, Error>)
        requires
            self.wf(),
        ensures
            res == uniform_copy(size, count, *self),
    {
        if size != self.size {
            return Err(Error::ElementSize);
        }
        if count > self.count {
            return Err(Error::ElementCount);
        }
        assert(size * count <= self.size * self.count) by (nonlinear_arith)
            requires
                size == self.size,
                count <= self.count,
        ;
        Ok((size as u64) * (count as u64))
    }
}

} // verus!
