//! Typed GPU buffers and the per-shader cache of vertex arrays.
use vstd::prelude::*;
use crate::gpu::{AllocationError, BufferUsage, Command, GlCall, GpuBuffer};

verus! {

/// A buffer of vertex data.
#[derive(Clone, Copy, Debug, PartialEq, Eq)]
pub struct VertexBuffer {
    pub raw_buffer: GpuBuffer,
}

/// A buffer of 32-bit indices.
#[derive(Clone, Copy, Debug, PartialEq, Eq)]
pub struct IndexBuffer {
    pub raw_buffer: GpuBuffer,
}

/// A buffer of uniform data, bound at a resolved uniform-block index.
#[derive(Clone, Copy, Debug, PartialEq, Eq)]
pub struct UniformBuffer {
    pub raw_buffer: GpuBuffer,
    pub block_index: u32,
}

/// A vertex array object: how buffer bytes feed a shader's vertex inputs.
#[derive(Clone, Copy, Debug, PartialEq, Eq)]
pub struct RawVao {
    pub handle: u64,
}

/// One vertex input of a shader: its name, location, component count and
/// byte offset within a vertex.
#[derive(Clone, Debug, PartialEq, Eq)]
pub struct VertexAttribute {
    pub name: String,
    pub location: u32,
    pub components: u32,
    /// Byte offset of the input within one vertex.
    pub offset: u32,
}

/// The buffer-creation outcome that `create_buffer` promises for `data` and `usage`.
pub open spec fn created(
    old_cmd: Command,
    new_cmd: Command,
    usage: BufferUsage,
    data: Seq<u8>,
    r: Result<GpuBuffer, AllocationError>,
) -> bool {
    &&& new_cmd.diagnostics@ == old_cmd.diagnostics@
    &&& new_cmd.next_object == old_cmd.next_object
    &&& data.len() > old_cmd.budget ==> r == Err::<GpuBuffer, AllocationError>(AllocationError::OutOfMemory)
        && new_cmd.calls@ == old_cmd.calls@ && new_cmd.same_objects(&old_cmd)
    &&& data.len() <= old_cmd.budget ==> {
        &&& r is Ok
        &&& r->Ok_0.handle == old_cmd.buffers@.len()
        &&& r->Ok_0.usage == usage
        &&& r->Ok_0.len == data.len()
        &&& new_cmd.buffers@.len() == old_cmd.buffers@.len() + 1
        &&& new_cmd.buffers@.drop_last() == old_cmd.buffers@
        &&& new_cmd.buffers@.last()@ == data
        &&& new_cmd.budget == old_cmd.budget - data.len()
        &&& new_cmd.calls@ == old_cmd.calls@.push(
            GlCall::CreateBuffer { buffer: r->Ok_0.handle, usage, len: r->Ok_0.len },
        )
    }
}

impl VertexBuffer {
    /// Uploads `data` as a vertex buffer.
    pub fn new(cmd: &mut Command, data: &[u8]) -> (r: Result<VertexBuffer, AllocationError>)
        ensures
            created(*old(cmd), *final(cmd), BufferUsage::Vertex, data@, match r {
                Ok(b) => Ok::<GpuBuffer, AllocationError>(b.raw_buffer),
                Err(e) => Err::<GpuBuffer, AllocationError>(e),
            }),
    {
        match cmd.create_buffer(BufferUsage::Vertex, data) {
            Ok(raw_buffer) => Ok(VertexBuffer { raw_buffer }),
            Err(e) => Err(e),
        }
    }
}

/// The four bytes of `x`, least significant first.
pub open spec fn le_bytes(x: u32) -> Seq<u8> {
    seq![(x % 256) as u8, ((x / 256) % 256) as u8, ((x / 65536) % 256) as u8, (x / 16777216) as u8]
}

/// The bytes of `indices`, each as four little-endian bytes, in order.
pub open spec fn index_bytes(indices: Seq<u32>) -> Seq<u8>
    decreases indices.len(),
{
    if indices.len() == 0 {
        Seq::empty()
    } else {
        index_bytes(indices.drop_last()) + le_bytes(indices.last())
    }
}

/// Four bytes per index.
pub proof fn lemma_index_bytes_len(indices: Seq<u32>)
    ensures
        index_bytes(indices).len() == 4 * indices.len(),
    decreases indices.len(),
{
    if indices.len() > 0 {
        lemma_index_bytes_len(indices.drop_last());
    }
}

impl IndexBuffer {
    /// Uploads `indices` as an index buffer, four little-endian bytes each.
    pub fn new(cmd: &mut Command, indices: &[u32]) -> (r: Result<IndexBuffer, AllocationError>)
        ensures
            index_bytes(indices@).len() == 4 * indices@.len(),
            created(*old(cmd), *final(cmd), BufferUsage::Index, index_bytes(indices@), match r {
                Ok(b) => Ok::<GpuBuffer, AllocationError>(b.raw_buffer),
                Err(e) => Err::<GpuBuffer, AllocationError>(e),
            }),
    {
        let mut data: Vec<u8> = Vec::new();
        let n = indices.len();
        let mut i: usize = 0;
        while i < n
            invariant
                n == indices@.len(),
                0 <= i <= n,
                data@ == index_bytes(indices@.take(i as int)),
            decreases n - i,
        {
            let x = indices[i];
            data.push((x % 256) as u8);
            data.push(((x / 256) % 256) as u8);
            data.push(((x / 65536) % 256) as u8);
            data.push((x / 16777216) as u8);
            assert(indices@.take(i + 1).drop_last() =~= indices@.take(i as int));
            assert(data@ =~= index_bytes(indices@.take(i + 1)));
            i = i + 1;
        }
        assert(indices@.take(n as int) =~= indices@);
        proof {
            lemma_index_bytes_len(indices@);
        }
        match cmd.create_buffer(BufferUsage::Index, data.as_slice()) {
            Ok(raw_buffer) => Ok(IndexBuffer { raw_buffer }),
            Err(e) => Err(e),
        }
    }
}

impl UniformBuffer {
    /// Uploads `data` as a uniform buffer to be bound at `block_index`.
    pub fn new(cmd: &mut Command, data: &[u8], block_index: u32) -> (r: Result<UniformBuffer, AllocationError>)
        ensures
            created(*old(cmd), *final(cmd), BufferUsage::Uniform, data@, match r {
                Ok(b) => Ok::<GpuBuffer, AllocationError>(b.raw_buffer),
                Err(e) => Err::<GpuBuffer, AllocationError>(e),
            }),
            r is Ok ==> r->Ok_0.block_index == block_index,
    {
        match cmd.create_buffer(BufferUsage::Uniform, data) {
            Ok(raw_buffer) => Ok(UniformBuffer { raw_buffer, block_index }),
            Err(e) => Err(e),
        }
    }

    /// The call that binds this buffer.
    pub open spec fn bind_call(self) -> GlCall {
        GlCall::BindBufferBase { index: self.block_index, buffer: self.raw_buffer.handle }
    }

    /// Binds this buffer at its block index.
    pub fn bind(&self, cmd: &mut Command)
        ensures
            final(cmd).calls@ == old(cmd).calls@.push(self.bind_call()),
            final(cmd).diagnostics@ == old(cmd).diagnostics@,
            final(cmd).same_objects(old(cmd)),
    {
        cmd.record(GlCall::BindBufferBase { index: self.block_index, buffer: self.raw_buffer.handle });
    }
}

impl RawVao {
    /// Creates a vertex array that reads `vertex_buffer`, with `index_buffer`
    /// as its indices when given, and enables each of `attributes` in order.
    pub fn new(
        cmd: &mut Command,
        stride: u32,
        attributes: &Vec<VertexAttribute>,
        vertex_buffer: &VertexBuffer,
        index_buffer: Option<&IndexBuffer>,
    ) -> (r: Result<RawVao, AllocationError>)
        ensures
            vao_created(
                *old(cmd),
                *final(cmd),
                stride,
                attributes@,
                *vertex_buffer,
                match index_buffer {
                    Some(ib) => Some(*ib),
                    None => None,
                },
                r,
            ),
    {
        if cmd.next_object == u64::MAX {
            return Err(AllocationError::OutOfHandles);
        }
        let handle = match cmd.new_object() {
            Ok(h) => h,
            Err(e) => {
                return Err(e);
            },
        };
        let v = RawVao { handle };
        let ghost base = cmd.calls@;
        cmd.record(GlCall::CreateVertexArray { vao: handle, vertex_buffer: vertex_buffer.raw_buffer.handle });
        if let Some(ib) = index_buffer {
            cmd.record(GlCall::AttachIndexBuffer { vao: handle, index_buffer: ib.raw_buffer.handle });
        }
        let ghost head = cmd.calls@;
        let n = attributes.len();
        let mut i: usize = 0;
        while i < n
            invariant
                n == attributes@.len(),
                0 <= i <= n,
                cmd.calls@ == head + attribute_calls(handle, stride, attributes@.take(i as int)),
                cmd.diagnostics@ == old(cmd).diagnostics@,
                cmd.buffers@ == old(cmd).buffers@,
                cmd.budget == old(cmd).budget,
                cmd.next_object == old(cmd).next_object + 1,
            decreases n - i,
        {
            let a = &attributes[i];
            cmd.record(GlCall::EnableAttribute { vao: handle, location: a.location, components: a.components, offset: a.offset, stride });
            assert(attribute_calls(handle, stride, attributes@.take(i + 1)) =~= attribute_calls(
                handle,
                stride,
                attributes@.take(i as int),
            ).push(GlCall::EnableAttribute { vao: handle, location: a.location, components: a.components, offset: a.offset, stride }));
            i = i + 1;
        }
        assert(attributes@.take(n as int) =~= attributes@);
        proof {
            let ib_handle = match index_buffer {
                Some(ib) => Some(ib.raw_buffer.handle),
                None => None,
            };
            assert(cmd.calls@ =~= base + vao_creation_calls(handle, vertex_buffer.raw_buffer.handle, ib_handle, stride, attributes@));
        }
        Ok(v)
    }

    /// The call that activates this vertex array.
    pub open spec fn bind_call(self) -> GlCall {
        GlCall::BindVertexArray { vao: self.handle }
    }

    /// Activates this vertex array.
    pub fn bind(&self, cmd: &mut Command)
        ensures
            final(cmd).calls@ == old(cmd).calls@.push(self.bind_call()),
            final(cmd).diagnostics@ == old(cmd).diagnostics@,
            final(cmd).same_objects(old(cmd)),
    {
        cmd.record(GlCall::BindVertexArray { vao: self.handle });
    }
}

/// The first binding cached for `shader_id` in `entries`.
pub open spec fn lookup(entries: Seq<(u64, RawVao)>, shader_id: u64) -> Option<RawVao>
    decreases entries.len(),
{
    if entries.len() == 0 {
        None
    } else if lookup(entries.drop_last(), shader_id) is Some {
        lookup(entries.drop_last(), shader_id)
    } else if entries.last().0 == shader_id {
        Some(entries.last().1)
    } else {
        None
    }
}

/// The calls that create vertex array `vao` over `vertex_buffer`, the
/// optional `index_buffer`, and one enabled input per attribute, in order.
pub open spec fn vao_creation_calls(
    vao: u64,
    vertex_buffer: u64,
    index_buffer: Option<u64>,
    stride: u32,
    attributes: Seq<VertexAttribute>,
) -> Seq<GlCall> {
    let head = seq![GlCall::CreateVertexArray { vao, vertex_buffer }];
    let with_index = match index_buffer {
        Some(ib) => head.push(GlCall::AttachIndexBuffer { vao, index_buffer: ib }),
        None => head,
    };
    with_index + attribute_calls(vao, stride, attributes)
}

/// One enabled vertex input of `vao` per attribute, in order.
pub open spec fn attribute_calls(vao: u64, stride: u32, attributes: Seq<VertexAttribute>) -> Seq<GlCall> {
    attributes.map_values(
        |a: VertexAttribute| GlCall::EnableAttribute { vao, location: a.location, components: a.components, offset: a.offset, stride },
    )
}

/// A cache of vertex arrays keyed by shader-program id: each id's vertex
/// array is created once and reused afterwards.
pub struct Vao {
    shader_id_to_raw_vao: Vec<(u64, RawVao)>,
}

/// What `get_or_create` promises, from the cache and context before the call
/// to the result and the cache and context after it.
pub open spec fn get_or_create_post(
    old_cache: Vao,
    old_cmd: Command,
    shader_id: u64,
    stride: u32,
    attributes: Seq<VertexAttribute>,
    vertex_buffer: VertexBuffer,
    index_buffer: Option<IndexBuffer>,
    r: Result<RawVao, AllocationError>,
    new_cache: Vao,
    new_cmd: Command,
) -> bool {
    match old_cache.cached(shader_id) {
        Some(v) => {
            &&& r == Ok::<RawVao, AllocationError>(v)
            &&& new_cache.entries() == old_cache.entries()
            &&& new_cmd == old_cmd
        },
        None => {
            &&& vao_created(old_cmd, new_cmd, stride, attributes, vertex_buffer, index_buffer, r)
            &&& r is Ok ==> new_cache.entries() == old_cache.entries().push((shader_id, r->Ok_0))
            &&& r is Err ==> new_cache.entries() == old_cache.entries()
        },
    }
}

/// What creating a vertex array over `vertex_buffer`, `index_buffer` and
/// `attributes` promises.
pub open spec fn vao_created(
    old_cmd: Command,
    new_cmd: Command,
    stride: u32,
    attributes: Seq<VertexAttribute>,
    vertex_buffer: VertexBuffer,
    index_buffer: Option<IndexBuffer>,
    r: Result<RawVao, AllocationError>,
) -> bool {
    &&& new_cmd.diagnostics@ == old_cmd.diagnostics@
    &&& new_cmd.buffers@ == old_cmd.buffers@
    &&& new_cmd.budget == old_cmd.budget
    &&& old_cmd.next_object == u64::MAX ==> {
        &&& r == Err::<RawVao, AllocationError>(AllocationError::OutOfHandles)
        &&& new_cmd == old_cmd
    }
    &&& old_cmd.next_object < u64::MAX ==> {
        let v = RawVao { handle: old_cmd.next_object };
        &&& r == Ok::<RawVao, AllocationError>(v)
        &&& new_cmd.next_object == old_cmd.next_object + 1
        &&& new_cmd.calls@ == old_cmd.calls@ + vao_creation_calls(
            v.handle,
            vertex_buffer.raw_buffer.handle,
            match index_buffer {
                Some(ib) => Some(ib.raw_buffer.handle),
                None => None,
            },
            stride,
            attributes,
        )
    }
}

impl Vao {
    /// The cached (shader id, vertex array) pairs, oldest first.
    pub closed spec fn entries(&self) -> Seq<(u64, RawVao)> {
        self.shader_id_to_raw_vao@
    }

    /// The vertex array cached for `shader_id`, if any.
    pub open spec fn cached(&self, shader_id: u64) -> Option<RawVao> {
        lookup(self.entries(), shader_id)
    }

    /// An empty cache.
    pub fn new() -> (r: Vao)
        ensures
            r.entries() == Seq::<(u64, RawVao)>::empty(),
    {
        Vao { shader_id_to_raw_vao: Vec::new() }
    }

    /// Looks up `shader_id`.
    pub fn get(&self, shader_id: u64) -> (r: Option<RawVao>)
        ensures
            r == self.cached(shader_id),
    {
        let n = self.shader_id_to_raw_vao.len();
        let mut i: usize = 0;
        while i < n
            invariant
                n == self.shader_id_to_raw_vao@.len(),
                0 <= i <= n,
                lookup(self.shader_id_to_raw_vao@.take(i as int), shader_id) is None,
            decreases n - i,
        {
            let e = self.shader_id_to_raw_vao[i];
            assert(self.shader_id_to_raw_vao@.take(i + 1).drop_last() =~= self.shader_id_to_raw_vao@.take(
                i as int,
            ));
            if e.0 == shader_id {
                proof {
                    lemma_lookup_prefix(self.shader_id_to_raw_vao@, i + 1, shader_id);
                }
                return Some(e.1);
            }
            i = i + 1;
        }
        assert(self.shader_id_to_raw_vao@.take(n as int) =~= self.shader_id_to_raw_vao@);
        None
    }

    /// Returns the vertex array cached for `shader_id`; when there is none,
    /// creates one over `vertex_buffer`, `index_buffer` and `attributes`,
    /// caches it and returns it.
    pub fn get_or_create(
        &mut self,
        cmd: &mut Command,
        shader_id: u64,
        stride: u32,
        attributes: &Vec<VertexAttribute>,
        vertex_buffer: &VertexBuffer,
        index_buffer: Option<&IndexBuffer>,
    ) -> (r: Result<RawVao, AllocationError>)
        ensures
            get_or_create_post(
                *old(self),
                *old(cmd),
                shader_id,
                stride,
                attributes@,
                *vertex_buffer,
                match index_buffer {
                    Some(ib) => Some(*ib),
                    None => None,
                },
                r,
                *final(self),
                *final(cmd),
            ),
    {
        if let Some(v) = self.get(shader_id) {
            return Ok(v);
        }
        let r = RawVao::new(cmd, stride, attributes, vertex_buffer, index_buffer);
        if let Ok(v) = r {
            self.shader_id_to_raw_vao.push((shader_id, v));
            assert(self.shader_id_to_raw_vao@.drop_last() =~= old(self).shader_id_to_raw_vao@);
        }
        r
    }
}
/// A hit in a prefix of the entries is the hit in the whole.
proof fn lemma_lookup_prefix(entries: Seq<(u64, RawVao)>, i: int, shader_id: u64)
    requires
        0 < i <= entries.len(),
        lookup(entries.take(i), shader_id) is Some,
    ensures
        lookup(entries, shader_id) == lookup(entries.take(i), shader_id),
    decreases entries.len() - i,
{
    if i < entries.len() {
        assert(entries.take(i + 1).drop_last() =~= entries.take(i));
        lemma_lookup_prefix(entries, i + 1, shader_id);
    } else {
        assert(entries.take(i) =~= entries);
    }
}

/// A second `get_or_create` for the same shader id returns the vertex array
/// that the first one returned, and leaves the context and cache as they were:
/// no second vertex array is created.
pub proof fn lemma_get_or_create_twice(
    cache0: Vao,
    cmd0: Command,
    shader_id: u64,
    stride: u32,
    attributes: Seq<VertexAttribute>,
    vertex_buffer: VertexBuffer,
    index_buffer: Option<IndexBuffer>,
    r1: Result<RawVao, AllocationError>,
    cache1: Vao,
    cmd1: Command,
    r2: Result<RawVao, AllocationError>,
    cache2: Vao,
    cmd2: Command,
)
    requires
        get_or_create_post(cache0, cmd0, shader_id, stride, attributes, vertex_buffer, index_buffer, r1, cache1, cmd1),
        get_or_create_post(cache1, cmd1, shader_id, stride, attributes, vertex_buffer, index_buffer, r2, cache2, cmd2),
        r1 is Ok,
    ensures
        r2 == r1,
        cmd2 == cmd1,
        cache2.entries() == cache1.entries(),
{
    match cache0.cached(shader_id) {
        Some(v) => {},
        None => {
            let e = cache0.entries().push((shader_id, r1->Ok_0));
            assert(e.drop_last() =~= cache0.entries());
        },
    }
}

/// Reading back a buffer right after creating it from `data` yields `data`,
/// whatever its usage.
pub proof fn lemma_create_read_round_trip(
    old_cmd: Command,
    new_cmd: Command,
    usage: BufferUsage,
    data: Seq<u8>,
    r: Result<GpuBuffer, AllocationError>,
)
    requires
        created(old_cmd, new_cmd, usage, data, r),
        r is Ok,
    ensures
        new_cmd.readback(r->Ok_0.handle) == Some(data),
{
    let n = old_cmd.buffers@.len();
    assert(new_cmd.buffers@.last() == new_cmd.buffers@[n as int]);
}

} // verus!
