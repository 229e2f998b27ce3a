//! The graphics context: every call made on it is recorded in order, and the
//! bytes uploaded into buffers can be read back.
use vstd::prelude::*;
use vstd::slice::slice_to_vec;

verus! {

/// The target a GPU buffer is bound to.
#[derive(Clone, Copy, Debug, PartialEq, Eq)]
pub enum BufferUsage {
    Vertex,
    Index,
    Uniform,
}

/// Storage format of a texture.
#[derive(Clone, Copy, Debug, PartialEq, Eq)]
pub enum PixelFormat {
    R8G8B8A8,
    Depth24,
}

/// One call issued to the graphics context.
#[derive(Clone, Copy, Debug, PartialEq, Eq)]
pub enum GlCall {
    CreateBuffer { buffer: u64, usage: BufferUsage, len: usize },
    CreateVertexArray { vao: u64, vertex_buffer: u64 },
    AttachIndexBuffer { vao: u64, index_buffer: u64 },
    EnableAttribute { vao: u64, location: u32, components: u32, offset: u32, stride: u32 },
    CreateTexture { texture: u64, width: usize, height: usize, format: PixelFormat, mipmap: bool },
    BindBufferBase { index: u32, buffer: u64 },
    BindTexture { unit: u32, texture: u64 },
    BindVertexArray { vao: u64 },
    UseProgram { program: u64 },
    DrawArrays { mode: u32, first: i32, count: i32 },
    DrawElements { mode: u32, count: i32, index_type: u32, first: i32 },
}

/// A problem reported instead of a bind or a draw.
#[derive(Clone, Copy, Debug, PartialEq, Eq)]
pub enum Diagnostic {
    NoShaderProgram,
    NoVertexArray,
    NoDrawCommand,
    UnresolvedUniformBlock,
}

/// The context refused to create an object.
#[derive(Clone, Copy, Debug, PartialEq, Eq)]
pub enum AllocationError {
    /// The bytes asked for exceed what the context has left.
    OutOfMemory,
    /// No object name is left to hand out.
    OutOfHandles,
}

/// Element type of every index buffer: 32-bit unsigned integers.
pub const UNSIGNED_INT: u32 = 0x1405;

/// What a uniform-block lookup returns for a name the program lacks.
pub const INVALID_INDEX: u32 = 0xffff_ffff;

/// A recording graphics context.
pub struct Command {
    /// Every call issued so far, oldest first.
    pub calls: Vec<GlCall>,
    /// Every diagnostic reported so far, oldest first.
    pub diagnostics: Vec<Diagnostic>,
    /// The contents of each buffer; a buffer's handle is its position here.
    pub buffers: Vec<Vec<u8>>,
    /// The name the next vertex array or texture receives.
    pub next_object: u64,
    /// Bytes of buffer memory still available.
    pub budget: usize,
}

/// A GPU buffer: its handle, what it is bound as, and its size in bytes.
#[derive(Clone, Copy, Debug, PartialEq, Eq)]
pub struct GpuBuffer {
    pub handle: u64,
    pub usage: BufferUsage,
    pub len: usize,
}

impl Command {
    /// The objects of `self` and `other` are the same; only calls and
    /// diagnostics may differ.
    pub open spec fn same_objects(&self, other: &Command) -> bool {
        &&& self.buffers@ == other.buffers@
        &&& self.next_object == other.next_object
        &&& self.budget == other.budget
    }

    /// What reading back buffer `handle` yields.
    pub open spec fn readback(&self, handle: u64) -> Option<Seq<u8>> {
        if handle < self.buffers@.len() {
            Some(self.buffers@[handle as int]@)
        } else {
            None
        }
    }

    /// A fresh context with `budget` bytes of buffer memory.
    pub fn new(budget: usize) -> (r: Command)
        ensures
            r.calls@ == Seq::<GlCall>::empty(),
            r.diagnostics@ == Seq::<Diagnostic>::empty(),
            r.buffers@ == Seq::<Vec<u8>>::empty(),
            r.next_object == 1,
            r.budget == budget,
    {
        Command { calls: Vec::new(), diagnostics: Vec::new(), buffers: Vec::new(), next_object: 1, budget }
    }

    /// Issues `call`.
    pub fn record(&mut self, call: GlCall)
        ensures
            final(self).calls@ == old(self).calls@.push(call),
            final(self).diagnostics@ == old(self).diagnostics@,
            final(self).same_objects(old(self)),
    {
        self.calls.push(call);
    }

    /// Reports `d`.
    pub fn report(&mut self, d: Diagnostic)
        ensures
            final(self).diagnostics@ == old(self).diagnostics@.push(d),
            final(self).calls@ == old(self).calls@,
            final(self).same_objects(old(self)),
    {
        self.diagnostics.push(d);
    }

    /// Checks the result of a uniform-block lookup: the sentinel for a name the
    /// program lacks is reported and yields `None`; any other index is returned.
    pub fn resolve_uniform_block(&mut self, index: u32) -> (r: Option<u32>)
        ensures
            index == INVALID_INDEX ==> r is None && final(self).diagnostics@ == old(self).diagnostics@.push(
                Diagnostic::UnresolvedUniformBlock,
            ),
            index != INVALID_INDEX ==> r == Some(index) && final(self).diagnostics@ == old(self).diagnostics@,
            final(self).calls@ == old(self).calls@,
            final(self).same_objects(old(self)),
    {
        if index == INVALID_INDEX {
            self.report(Diagnostic::UnresolvedUniformBlock);
            None
        } else {
            Some(index)
        }
    }

    /// Hands out a fresh object name, or fails when none is left.
    pub fn new_object(&mut self) -> (r: Result<u64, AllocationError>)
        ensures
            final(self).calls@ == old(self).calls@,
            final(self).diagnostics@ == old(self).diagnostics@,
            final(self).buffers@ == old(self).buffers@,
            final(self).budget == old(self).budget,
            old(self).next_object == u64::MAX ==> r == Err::<u64, AllocationError>(
                AllocationError::OutOfHandles,
            ) && final(self).next_object == old(self).next_object,
            old(self).next_object < u64::MAX ==> r == Ok::<u64, AllocationError>(old(self).next_object)
                && final(self).next_object == old(self).next_object + 1,
    {
        if self.next_object == u64::MAX {
            Err(AllocationError::OutOfHandles)
        } else {
            let h = self.next_object;
            self.next_object = h + 1;
            Ok(h)
        }
    }

    /// Allocates a buffer holding a copy of `data`, bound as `usage`, and
    /// issues its creation; fails when `data` exceeds the remaining budget.
    pub fn create_buffer(&mut self, usage: BufferUsage, data: &[u8]) -> (r: Result<GpuBuffer, AllocationError>)
        ensures
            final(self).diagnostics@ == old(self).diagnostics@,
            final(self).next_object == old(self).next_object,
            data@.len() > old(self).budget ==> r == Err::<GpuBuffer, AllocationError>(
                AllocationError::OutOfMemory,
            ) && final(self).calls@ == old(self).calls@ && final(self).same_objects(old(self)),
            data@.len() <= old(self).budget ==> {
                &&& r is Ok
                &&& r->Ok_0.handle == old(self).buffers@.len()
                &&& r->Ok_0.usage == usage
                &&& r->Ok_0.len == data@.len()
                &&& final(self).buffers@.len() == old(self).buffers@.len() + 1
                &&& final(self).buffers@.drop_last() == old(self).buffers@
                &&& final(self).buffers@.last()@ == data@
                &&& final(self).budget == old(self).budget - data@.len()
                &&& final(self).calls@ == old(self).calls@.push(
                    GlCall::CreateBuffer { buffer: r->Ok_0.handle, usage, len: data.len() },
                )
            },
    {
        let len = data.len();
        if len > self.budget {
            return Err(AllocationError::OutOfMemory);
        }
        let handle = self.buffers.len() as u64;
        let bytes = slice_to_vec(data);
        self.buffers.push(bytes);
        self.budget = self.budget - len;
        self.calls.push(GlCall::CreateBuffer { buffer: handle, usage, len });
        proof {
            assert(self.buffers@.drop_last() =~= old(self).buffers@);
        }
        Ok(GpuBuffer { handle, usage, len })
    }

    /// Reads back the contents of buffer `handle`.
    pub fn read_buffer(&self, handle: u64) -> (r: Option<Vec<u8>>)
        ensures
            r is Some <==> self.readback(handle) is Some,
            r is Some ==> r->Some_0@ == self.readback(handle)->Some_0,
    {
        if handle < self.buffers.len() as u64 {
            let v = slice_to_vec(self.buffers[handle as usize].as_slice());
            Some(v)
        } else {
            None
        }
    }
}

} // verus!
