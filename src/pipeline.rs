//! The pipeline: shader program, vertex array and draw command, and the
//! draw call that uses them.
use vstd::prelude::*;
use crate::buffer::{attribute_calls, lemma_index_bytes_len, IndexBuffer, RawVao, UniformBuffer, VertexAttribute, VertexBuffer};
use crate::gpu::{AllocationError, BufferUsage, Command, Diagnostic, GlCall, INVALID_INDEX, UNSIGNED_INT};

verus! {

/// How vertices are grouped into primitives.
#[derive(Clone, Copy, Debug, PartialEq, Eq)]
pub enum PrimitiveToporogy {
    Points,
    LineStrip,
    LineLoop,
    Lines,
    TriangleStrip,
    TriangleFan,
    Triangles,
}

impl PrimitiveToporogy {
    /// The graphics API's mode constant for this topology.
    pub open spec fn mode_spec(self) -> u32 {
        match self {
            PrimitiveToporogy::Points => 0x0000,
            PrimitiveToporogy::Lines => 0x0001,
            PrimitiveToporogy::LineLoop => 0x0002,
            PrimitiveToporogy::LineStrip => 0x0003,
            PrimitiveToporogy::Triangles => 0x0004,
            PrimitiveToporogy::TriangleStrip => 0x0005,
            PrimitiveToporogy::TriangleFan => 0x0006,
        }
    }

    /// The graphics API's mode constant for this topology.
    pub fn mode(&self) -> (r: u32)
        ensures
            r == self.mode_spec(),
    {
        match self {
            PrimitiveToporogy::Points => 0x0000,
            PrimitiveToporogy::Lines => 0x0001,
            PrimitiveToporogy::LineLoop => 0x0002,
            PrimitiveToporogy::LineStrip => 0x0003,
            PrimitiveToporogy::Triangles => 0x0004,
            PrimitiveToporogy::TriangleStrip => 0x0005,
            PrimitiveToporogy::TriangleFan => 0x0006,
        }
    }
}

/// The parameters of one draw: non-indexed over vertices `[first, first + count)`,
/// or indexed over `count` indices starting at index `first`.
#[derive(Clone, Copy, Debug, PartialEq, Eq)]
pub enum DrawCommand {
    Draw { first: i32, count: i32 },
    DrawIndexed { first: i32, count: i32 },
}

/// A linked shader program.
#[derive(Clone, Copy, Debug, PartialEq, Eq)]
pub struct RawShaderProgram {
    pub handle: u64,
}

/// What a pipeline holds.
#[derive(Clone, Copy, Debug, PartialEq, Eq)]
pub struct PipelineModel {
    pub draw_command: Option<DrawCommand>,
    pub primitive_topology: PrimitiveToporogy,
    pub shader_program: Option<RawShaderProgram>,
    pub vao: Option<RawVao>,
}

/// The one draw call that `command` issues with `topology`.
pub open spec fn draw_call(command: DrawCommand, topology: PrimitiveToporogy) -> GlCall {
    match command {
        DrawCommand::Draw { first, count } => GlCall::DrawArrays { mode: topology.mode_spec(), first, count },
        DrawCommand::DrawIndexed { first, count } => GlCall::DrawElements {
            mode: topology.mode_spec(),
            count,
            index_type: UNSIGNED_INT,
            first,
        },
    }
}

impl PipelineModel {
    /// The calls that drawing issues: none without a program or a vertex
    /// array; otherwise their activation, followed by the draw call when a
    /// draw command is set.
    pub open spec fn draw_calls(self) -> Seq<GlCall> {
        match (self.shader_program, self.vao) {
            (Some(p), Some(v)) => {
                let activate = seq![GlCall::UseProgram { program: p.handle }, v.bind_call()];
                match self.draw_command {
                    Some(c) => activate.push(draw_call(c, self.primitive_topology)),
                    None => activate,
                }
            },
            _ => Seq::empty(),
        }
    }

    /// The diagnostics that drawing reports: the first missing piece, if any.
    pub open spec fn draw_diagnostics(self) -> Seq<Diagnostic> {
        if self.shader_program is None {
            seq![Diagnostic::NoShaderProgram]
        } else if self.vao is None {
            seq![Diagnostic::NoVertexArray]
        } else if self.draw_command is None {
            seq![Diagnostic::NoDrawCommand]
        } else {
            Seq::empty()
        }
    }
}


/// The indices of the sample quad: two triangles over four vertices.
pub open spec fn sample_indices() -> Seq<u32> {
    seq![0u32, 1, 2, 2, 3, 1]
}

/// Bytes per sample vertex: a three-component position, then a
/// four-component color, four bytes per component.
pub const SAMPLE_STRIDE: u32 = 28;

/// The calls that `setup_sample` issues when it succeeds on a context whose
/// first free buffer is `n` and first free object name is `vao`.
pub open spec fn sample_calls(
    n: u64,
    vao: u64,
    program: Option<RawShaderProgram>,
    vertex_len: usize,
    uniform_len: usize,
    uniform_block_index: u32,
) -> Seq<GlCall> {
    let buffers = seq![
        GlCall::CreateBuffer { buffer: n, usage: BufferUsage::Vertex, len: vertex_len },
        GlCall::CreateBuffer { buffer: (n + 1) as u64, usage: BufferUsage::Index, len: 24 },
    ];
    let layout = seq![
        GlCall::CreateVertexArray { vao, vertex_buffer: n },
        GlCall::AttachIndexBuffer { vao, index_buffer: (n + 1) as u64 },
        GlCall::EnableAttribute { vao, location: 0, components: 3, offset: 0, stride: SAMPLE_STRIDE },
        GlCall::EnableAttribute { vao, location: 1, components: 4, offset: 12, stride: SAMPLE_STRIDE },
    ];
    let uniforms = match program {
        None => Seq::empty(),
        Some(_) => {
            let create = seq![GlCall::CreateBuffer { buffer: (n + 2) as u64, usage: BufferUsage::Uniform, len: uniform_len }];
            if uniform_block_index == INVALID_INDEX {
                create
            } else {
                create.push(GlCall::BindBufferBase { index: uniform_block_index, buffer: (n + 2) as u64 })
            }
        },
    };
    buffers + layout + uniforms
}

/// The buffer bytes that `setup_sample` needs.
pub open spec fn sample_bytes(program: Option<RawShaderProgram>, vertex_len: nat, uniform_len: nat) -> nat {
    vertex_len + 24 + if program is Some { uniform_len } else { 0 }
}

/// Shader program, vertex array, topology and draw command of one draw.
pub struct Pipeline {
    draw_command: Option<DrawCommand>,
    primitive_topology: PrimitiveToporogy,
    raw_shader_program: Option<RawShaderProgram>,
    raw_vao: Option<RawVao>,
}

impl View for Pipeline {
    type V = PipelineModel;

    closed spec fn view(&self) -> PipelineModel {
        PipelineModel {
            draw_command: self.draw_command,
            primitive_topology: self.primitive_topology,
            shader_program: self.raw_shader_program,
            vao: self.raw_vao,
        }
    }
}

impl Pipeline {
    /// An unconfigured pipeline that draws triangles.
    pub fn new() -> (r: Pipeline)
        ensures
            r@ == (PipelineModel {
                draw_command: None,
                primitive_topology: PrimitiveToporogy::Triangles,
                shader_program: None,
                vao: None,
            }),
    {
        Self {
            draw_command: None,
            primitive_topology: PrimitiveToporogy::Triangles,
            raw_shader_program: None,
            raw_vao: None,
        }
    }

    /// Draws with the current state; reports the first missing piece instead.
    pub fn draw(&self, cmd: &mut Command)
        ensures
            final(cmd).calls@ == old(cmd).calls@ + self@.draw_calls(),
            final(cmd).diagnostics@ == old(cmd).diagnostics@ + self@.draw_diagnostics(),
            final(cmd).same_objects(old(cmd)),
    {
        let program = match &self.raw_shader_program {
            Some(p) => p,
            None => {
                cmd.report(Diagnostic::NoShaderProgram);
                assert(cmd.calls@ =~= old(cmd).calls@ + self@.draw_calls());
                assert(cmd.diagnostics@ =~= old(cmd).diagnostics@ + self@.draw_diagnostics());
                return;
            },
        };
        let vao = match &self.raw_vao {
            Some(v) => v,
            None => {
                cmd.report(Diagnostic::NoVertexArray);
                assert(cmd.calls@ =~= old(cmd).calls@ + self@.draw_calls());
                assert(cmd.diagnostics@ =~= old(cmd).diagnostics@ + self@.draw_diagnostics());
                return;
            },
        };
        cmd.record(GlCall::UseProgram { program: program.handle });
        vao.bind(cmd);
        let mode = self.primitive_topology.mode();
        match &self.draw_command {
            Some(DrawCommand::Draw { first, count }) => {
                cmd.record(GlCall::DrawArrays { mode, first: *first, count: *count });
            },
            Some(DrawCommand::DrawIndexed { first, count }) => {
                cmd.record(GlCall::DrawElements { mode, count: *count, index_type: UNSIGNED_INT, first: *first });
            },
            None => {
                cmd.report(Diagnostic::NoDrawCommand);
            },
        }
        assert(cmd.calls@ =~= old(cmd).calls@ + self@.draw_calls());
        assert(cmd.diagnostics@ =~= old(cmd).diagnostics@ + self@.draw_diagnostics());
    }

    /// Sets a non-indexed draw over vertices `[first, first + count)`.
    pub fn set_draw(&mut self, first: i32, count: i32)
        ensures
            final(self)@ == (PipelineModel { draw_command: Some(DrawCommand::Draw { first, count }), ..old(self)@ }),
    {
        self.draw_command = Some(DrawCommand::Draw { first, count });
    }

    /// Sets an indexed draw over `count` indices starting at index `first`.
    pub fn set_draw_indexed(&mut self, first: i32, count: i32)
        ensures
            final(self)@ == (PipelineModel {
                draw_command: Some(DrawCommand::DrawIndexed { first, count }),
                ..old(self)@
            }),
    {
        self.draw_command = Some(DrawCommand::DrawIndexed { first, count });
    }

    /// Sets the primitive topology.
    pub fn set_draw_mode(&mut self, primitive_topology: PrimitiveToporogy)
        ensures
            final(self)@ == (PipelineModel { primitive_topology, ..old(self)@ }),
    {
        self.primitive_topology = primitive_topology;
    }

    /// Sets up the sample quad: uploads `vertex_data` (position and color per
    /// vertex) and its indices, creates the vertex array, takes `program`, and,
    /// when there is a program, uploads `uniform_data` and binds it at the
    /// looked-up `uniform_block_index` unless the lookup found no such block.
    /// Draws the six indices from the first. Fails, leaving the pipeline as it
    /// was, when the context cannot create the buffers or the vertex array.
    pub fn setup_sample(
        &mut self,
        cmd: &mut Command,
        program: Option<RawShaderProgram>,
        vertex_data: &[u8],
        uniform_data: &[u8],
        uniform_block_index: u32,
    ) -> (r: Result<(), AllocationError>)
        ensures
            r is Ok <==> sample_bytes(program, vertex_data@.len(), uniform_data@.len()) <= old(cmd).budget
                && old(cmd).next_object < u64::MAX,
            sample_bytes(program, vertex_data@.len(), uniform_data@.len()) > old(cmd).budget ==> r == Err::<
                (),
                AllocationError,
            >(AllocationError::OutOfMemory),
            r is Err ==> final(self)@ == old(self)@ && *final(cmd) == *old(cmd),
            r is Ok ==> final(self)@ == (PipelineModel {
                draw_command: Some(DrawCommand::DrawIndexed { first: 0, count: 6 }),
                primitive_topology: old(self)@.primitive_topology,
                shader_program: program,
                vao: Some(RawVao { handle: old(cmd).next_object }),
            }),
            r is Ok ==> final(cmd).calls@ == old(cmd).calls@ + sample_calls(
                old(cmd).buffers@.len() as u64,
                old(cmd).next_object,
                program,
                vertex_data@.len() as usize,
                uniform_data@.len() as usize,
                uniform_block_index,
            ),
            r is Ok ==> final(cmd).diagnostics@ == old(cmd).diagnostics@ + if program is Some
                && uniform_block_index == INVALID_INDEX {
                seq![Diagnostic::UnresolvedUniformBlock]
            } else {
                Seq::<Diagnostic>::empty()
            },
    {
        let u_len: usize = if program.is_some() { uniform_data.len() } else { 0 };
        if vertex_data.len() > cmd.budget || 24 > cmd.budget - vertex_data.len() || u_len > cmd.budget
            - vertex_data.len() - 24 {
            return Err(AllocationError::OutOfMemory);
        }
        if cmd.next_object == u64::MAX {
            return Err(AllocationError::OutOfHandles);
        }
        let ghost c0 = *cmd;
        let i_data: Vec<u32> = vec![0, 1, 2, 2, 3, 1];
        assert(i_data@ =~= sample_indices());
        proof {
            lemma_index_bytes_len(i_data@);
        }
        let v_buffer = match VertexBuffer::new(cmd, vertex_data) {
            Ok(b) => b,
            Err(e) => {
                return Err(e);
            },
        };
        let i_buffer = match IndexBuffer::new(cmd, i_data.as_slice()) {
            Ok(b) => b,
            Err(e) => {
                return Err(e);
            },
        };
        let v_attrs: Vec<VertexAttribute> = vec![
            VertexAttribute { name: "position".to_owned(), location: 0, components: 3, offset: 0 },
            VertexAttribute { name: "color".to_owned(), location: 1, components: 4, offset: 12 },
        ];
        let vao = match RawVao::new(cmd, SAMPLE_STRIDE, &v_attrs, &v_buffer, Some(&i_buffer)) {
            Ok(v) => v,
            Err(e) => {
                return Err(e);
            },
        };
        let ghost c1 = cmd.calls@;
        if program.is_some() {
            let u_buffer = match UniformBuffer::new(cmd, uniform_data, uniform_block_index) {
                Ok(b) => b,
                Err(e) => {
                    return Err(e);
                },
            };
            if let Some(_) = cmd.resolve_uniform_block(uniform_block_index) {
                u_buffer.bind(cmd);
            }
        }
        self.raw_shader_program = program;
        self.raw_vao = Some(vao);
        self.set_draw_indexed(0, 6);
        proof {
            let n = c0.buffers@.len() as u64;
            assert(attribute_calls(vao.handle, SAMPLE_STRIDE, v_attrs@) =~= seq![
                GlCall::EnableAttribute { vao: vao.handle, location: 0, components: 3, offset: 0, stride: SAMPLE_STRIDE },
                GlCall::EnableAttribute { vao: vao.handle, location: 1, components: 4, offset: 12, stride: SAMPLE_STRIDE },
            ]);
            assert(cmd.calls@ =~= c0.calls@ + sample_calls(
                n,
                c0.next_object,
                program,
                vertex_data@.len() as usize,
                uniform_data@.len() as usize,
                uniform_block_index,
            ));
            assert(cmd.diagnostics@ =~= c0.diagnostics@ + if program is Some && uniform_block_index == INVALID_INDEX {
                seq![Diagnostic::UnresolvedUniformBlock]
            } else {
                Seq::<Diagnostic>::empty()
            });
        }
        Ok(())
    }

    /// Sets the shader program.
    pub fn set_shader_program(&mut self, program: &RawShaderProgram)
        ensures
            final(self)@ == (PipelineModel { shader_program: Some(*program), ..old(self)@ }),
    {
        self.raw_shader_program = Some(*program);
    }

    /// Sets the vertex array.
    pub fn set_vao(&mut self, vao: &RawVao)
        ensures
            final(self)@ == (PipelineModel { vao: Some(*vao), ..old(self)@ }),
    {
        self.raw_vao = Some(*vao);
    }
}

/// Drawing without a shader program issues no call at all and reports
/// exactly one diagnostic.
pub proof fn lemma_draw_without_program(p: PipelineModel)
    requires
        p.shader_program is None,
    ensures
        p.draw_calls() == Seq::<GlCall>::empty(),
        p.draw_diagnostics() == seq![Diagnostic::NoShaderProgram],
{
}

} // verus!
