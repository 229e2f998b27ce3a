use prpr_client::buffer::{IndexBuffer, RawVao, UniformBuffer, Vao, VertexAttribute, VertexBuffer};
use prpr_client::descriptorset::{Descriptor, DescriptorContext, TextureMapping};
use prpr_client::gpu::{AllocationError, BufferUsage, Command, Diagnostic, GlCall, PixelFormat, INVALID_INDEX};
use prpr_client::layers::LayerSize;
use prpr_client::pipeline::{Pipeline, PrimitiveToporogy, RawShaderProgram};
use prpr_client::texture::{Texture2dDescriptor, TextureRecipe, Viewport};

fn uniform(cmd: &mut Command, index: u32) -> UniformBuffer {
    UniformBuffer::new(cmd, &[1, 2, 3, 4], index).unwrap()
}

fn attributes() -> Vec<VertexAttribute> {
    vec![
        VertexAttribute { name: String::from("position"), location: 0, components: 3, offset: 0 },
        VertexAttribute { name: String::from("color"), location: 1, components: 4, offset: 12 },
    ]
}

#[test]
fn vao_cache_returns_same_binding_without_second_creation() {
    let mut cmd = Command::new(1024);
    let vb = VertexBuffer::new(&mut cmd, &[0u8; 56]).unwrap();
    let ib = IndexBuffer::new(&mut cmd, &[0u32; 6]).unwrap();
    let mut cache = Vao::new();
    let first = cache.get_or_create(&mut cmd, 7, 28, &attributes(), &vb, Some(&ib)).unwrap();
    let calls_after_first = cmd.calls.len();
    let second = cache.get_or_create(&mut cmd, 7, 28, &attributes(), &vb, Some(&ib)).unwrap();
    assert_eq!(first, second);
    assert_eq!(cmd.calls.len(), calls_after_first);
    let creations = cmd.calls.iter().filter(|c| matches!(c, GlCall::CreateVertexArray { .. })).count();
    assert_eq!(creations, 1);
    assert_eq!(cache.get(7), Some(first));
}

#[test]
fn vao_creation_issues_layout_calls() {
    let mut cmd = Command::new(1024);
    let vb = VertexBuffer::new(&mut cmd, &[0u8; 28]).unwrap();
    let ib = IndexBuffer::new(&mut cmd, &[0u32; 3]).unwrap();
    let mut cache = Vao::new();
    let v = cache.get_or_create(&mut cmd, 1, 28, &attributes(), &vb, Some(&ib)).unwrap();
    assert_eq!(v, RawVao { handle: 1 });
    assert_eq!(
        cmd.calls[2..].to_vec(),
        vec![
            GlCall::CreateVertexArray { vao: 1, vertex_buffer: 0 },
            GlCall::AttachIndexBuffer { vao: 1, index_buffer: 1 },
            GlCall::EnableAttribute { vao: 1, location: 0, components: 3, offset: 0, stride: 28 },
            GlCall::EnableAttribute { vao: 1, location: 1, components: 4, offset: 12, stride: 28 },
        ]
    );
    let other = cache.get_or_create(&mut cmd, 2, 28, &attributes(), &vb, None).unwrap();
    assert_eq!(other, RawVao { handle: 2 });
    assert_eq!(cache.get(3), None);
}

#[test]
fn vao_creation_out_of_handles() {
    let mut cmd = Command::new(1024);
    let vb = VertexBuffer::new(&mut cmd, &[0u8; 28]).unwrap();
    cmd.next_object = u64::MAX;
    let mut cache = Vao::new();
    let r = cache.get_or_create(&mut cmd, 1, 28, &attributes(), &vb, None);
    assert_eq!(r, Err(AllocationError::OutOfHandles));
    assert_eq!(cache.get(1), None);
}

#[test]
fn nested_context_binds_outer_before_inner() {
    let mut cmd = Command::new(1024);
    let u_a = uniform(&mut cmd, 0);
    let u_b = uniform(&mut cmd, 1);
    let mut a = Descriptor::new();
    a.add_uniform_buffer(&u_a);
    a.set_vao(&RawVao { handle: 10 });
    let mut b = Descriptor::new();
    b.add_texture_mapping(&TextureMapping { unit: 0, texture: 20 });
    b.add_uniform_buffer(&u_b);
    let root = DescriptorContext::Nil;
    let mid = root.cons(&a);
    let leaf = mid.cons(&b);
    let start = cmd.calls.len();
    leaf.bind(&mut cmd);
    assert_eq!(
        cmd.calls[start..].to_vec(),
        vec![
            GlCall::BindBufferBase { index: 0, buffer: 0 },
            GlCall::BindVertexArray { vao: 10 },
            GlCall::BindBufferBase { index: 1, buffer: 1 },
            GlCall::BindTexture { unit: 0, texture: 20 },
        ]
    );
    assert!(cmd.diagnostics.is_empty());
}

#[test]
fn bind_own_order_does_not_depend_on_construction_order() {
    let mut cmd = Command::new(1024);
    let u = uniform(&mut cmd, 3);
    let t = TextureMapping { unit: 2, texture: 9 };
    let v = RawVao { handle: 5 };
    let mut first = Descriptor::new();
    first.set_vao(&v);
    first.add_texture_mapping(&t);
    first.add_uniform_buffer(&u);
    let mut second = Descriptor::new();
    second.add_uniform_buffer(&u);
    second.add_texture_mapping(&t);
    second.set_vao(&v);
    let expected = vec![
        GlCall::BindBufferBase { index: 3, buffer: 0 },
        GlCall::BindTexture { unit: 2, texture: 9 },
        GlCall::BindVertexArray { vao: 5 },
    ];
    for d in [&first, &second] {
        let start = cmd.calls.len();
        d.bind_own(&mut cmd);
        assert_eq!(cmd.calls[start..].to_vec(), expected);
    }
}

#[test]
fn push_leaves_parent_binding_unchanged() {
    let mut cmd = Command::new(1024);
    let u = uniform(&mut cmd, 0);
    let mut a = Descriptor::new();
    a.add_uniform_buffer(&u);
    let mut d = Descriptor::new();
    d.set_vao(&RawVao { handle: 4 });
    let root = DescriptorContext::Nil;
    let parent = root.cons(&a);
    let start = cmd.calls.len();
    parent.bind(&mut cmd);
    let before = cmd.calls[start..].to_vec();
    let child = parent.cons(&d);
    let start = cmd.calls.len();
    parent.bind(&mut cmd);
    assert_eq!(cmd.calls[start..].to_vec(), before);
    let start = cmd.calls.len();
    child.bind(&mut cmd);
    let mut expected = before.clone();
    expected.push(GlCall::BindVertexArray { vao: 4 });
    assert_eq!(cmd.calls[start..].to_vec(), expected);
}

#[test]
fn empty_context_binds_nothing() {
    let mut cmd = Command::new(16);
    DescriptorContext::Nil.bind(&mut cmd);
    assert!(cmd.calls.is_empty());
}

fn configured_pipeline() -> Pipeline {
    let mut p = Pipeline::new();
    p.set_shader_program(&RawShaderProgram { handle: 3 });
    p.set_vao(&RawVao { handle: 8 });
    p
}

#[test]
fn draw_without_program_reports_once_and_draws_nothing() {
    let mut cmd = Command::new(16);
    let mut p = Pipeline::new();
    p.set_vao(&RawVao { handle: 8 });
    p.set_draw(0, 3);
    p.draw(&mut cmd);
    assert!(cmd.calls.is_empty());
    assert_eq!(cmd.diagnostics, vec![Diagnostic::NoShaderProgram]);
}

#[test]
fn draw_without_vao_reports_and_binds_nothing() {
    let mut cmd = Command::new(16);
    let mut p = Pipeline::new();
    p.set_shader_program(&RawShaderProgram { handle: 3 });
    p.set_draw(0, 3);
    p.draw(&mut cmd);
    assert!(cmd.calls.is_empty());
    assert_eq!(cmd.diagnostics, vec![Diagnostic::NoVertexArray]);
}

#[test]
fn draw_without_command_activates_then_reports() {
    let mut cmd = Command::new(16);
    configured_pipeline().draw(&mut cmd);
    assert_eq!(cmd.calls, vec![GlCall::UseProgram { program: 3 }, GlCall::BindVertexArray { vao: 8 }]);
    assert_eq!(cmd.diagnostics, vec![Diagnostic::NoDrawCommand]);
}

#[test]
fn draw_indexed_issues_one_indexed_call() {
    let mut cmd = Command::new(16);
    let mut p = configured_pipeline();
    p.set_draw_indexed(0, 6);
    p.draw(&mut cmd);
    assert_eq!(
        cmd.calls,
        vec![
            GlCall::UseProgram { program: 3 },
            GlCall::BindVertexArray { vao: 8 },
            GlCall::DrawElements { mode: 4, count: 6, index_type: 0x1405, first: 0 },
        ]
    );
    let draws = cmd
        .calls
        .iter()
        .filter(|c| matches!(c, GlCall::DrawElements { .. } | GlCall::DrawArrays { .. }))
        .count();
    assert_eq!(draws, 1);
    assert!(cmd.diagnostics.is_empty());
}

#[test]
fn draw_arrays_uses_topology_mode() {
    let mut cmd = Command::new(16);
    let mut p = configured_pipeline();
    p.set_draw(2, 5);
    p.set_draw_mode(PrimitiveToporogy::LineStrip);
    p.draw(&mut cmd);
    assert_eq!(cmd.calls[2], GlCall::DrawArrays { mode: 3, first: 2, count: 5 });
    assert_eq!(PrimitiveToporogy::Points.mode(), 0);
    assert_eq!(PrimitiveToporogy::Lines.mode(), 1);
    assert_eq!(PrimitiveToporogy::LineLoop.mode(), 2);
    assert_eq!(PrimitiveToporogy::Triangles.mode(), 4);
    assert_eq!(PrimitiveToporogy::TriangleStrip.mode(), 5);
    assert_eq!(PrimitiveToporogy::TriangleFan.mode(), 6);
}

#[test]
fn buffer_round_trip_vertex_and_index() {
    let mut cmd = Command::new(64);
    let vdata = [1u8, 2, 3, 4, 5, 6, 7, 8];
    let idata = [0u32, 0x0102_0304];
    let vb = VertexBuffer::new(&mut cmd, &vdata).unwrap();
    let ib = IndexBuffer::new(&mut cmd, &idata).unwrap();
    assert_eq!(vb.raw_buffer.usage, BufferUsage::Vertex);
    assert_eq!(ib.raw_buffer.usage, BufferUsage::Index);
    assert_eq!(cmd.read_buffer(vb.raw_buffer.handle), Some(vdata.to_vec()));
    assert_eq!(cmd.read_buffer(ib.raw_buffer.handle), Some(vec![0, 0, 0, 0, 4, 3, 2, 1]));
    assert_eq!(cmd.read_buffer(2), None);
    assert_eq!(cmd.budget, 48);
}

#[test]
fn buffer_over_budget_is_refused() {
    let mut cmd = Command::new(4);
    assert_eq!(VertexBuffer::new(&mut cmd, &[0u8; 5]), Err(AllocationError::OutOfMemory));
    assert!(cmd.calls.is_empty());
    assert!(cmd.buffers.is_empty());
    assert!(VertexBuffer::new(&mut cmd, &[0u8; 4]).is_ok());
    assert_eq!(cmd.budget, 0);
}

#[test]
fn unresolved_uniform_block_is_reported_not_bound() {
    let mut cmd = Command::new(16);
    assert_eq!(cmd.resolve_uniform_block(INVALID_INDEX), None);
    assert_eq!(cmd.diagnostics, vec![Diagnostic::UnresolvedUniformBlock]);
    assert_eq!(cmd.resolve_uniform_block(2), Some(2));
    assert_eq!(cmd.diagnostics.len(), 1);
    assert!(cmd.calls.is_empty());
}

#[test]
fn setup_sample_configures_indexed_quad() {
    let mut cmd = Command::new(1024);
    let mut p = Pipeline::new();
    let program = RawShaderProgram { handle: 42 };
    p.setup_sample(&mut cmd, Some(program), &[0u8; 112], &[0u8; 16], 0).unwrap();
    assert_eq!(cmd.calls.len(), 8);
    assert_eq!(cmd.calls[7], GlCall::BindBufferBase { index: 0, buffer: 2 });
    assert_eq!(cmd.read_buffer(1), Some(vec![0, 0, 0, 0, 1, 0, 0, 0, 2, 0, 0, 0, 2, 0, 0, 0, 3, 0, 0, 0, 1, 0, 0, 0]));
    let start = cmd.calls.len();
    p.draw(&mut cmd);
    assert_eq!(
        cmd.calls[start..].to_vec(),
        vec![
            GlCall::UseProgram { program: 42 },
            GlCall::BindVertexArray { vao: 1 },
            GlCall::DrawElements { mode: 4, count: 6, index_type: 0x1405, first: 0 },
        ]
    );
}

#[test]
fn setup_sample_guards_invalid_uniform_block() {
    let mut cmd = Command::new(1024);
    let mut p = Pipeline::new();
    p.setup_sample(&mut cmd, Some(RawShaderProgram { handle: 1 }), &[0u8; 112], &[0u8; 16], INVALID_INDEX).unwrap();
    assert_eq!(cmd.diagnostics, vec![Diagnostic::UnresolvedUniformBlock]);
    assert!(!cmd.calls.iter().any(|c| matches!(c, GlCall::BindBufferBase { .. })));
}

#[test]
fn setup_sample_without_memory_fails_untouched() {
    let mut cmd = Command::new(100);
    let mut p = Pipeline::new();
    let r = p.setup_sample(&mut cmd, None, &[0u8; 112], &[], 0);
    assert_eq!(r, Err(AllocationError::OutOfMemory));
    assert!(cmd.calls.is_empty());
    let mut cmd = Command::new(1024);
    cmd.next_object = u64::MAX;
    let r = p.setup_sample(&mut cmd, None, &[0u8; 112], &[], 0);
    assert_eq!(r, Err(AllocationError::OutOfHandles));
}

#[test]
fn texture_recipes() {
    let mut cmd = Command::new(0);
    let vp = Viewport { width: 1920, height: 1080 };
    let color = TextureRecipe::new_fullscreen(&mut cmd, PixelFormat::R8G8B8A8, vp).unwrap();
    let depth = TextureRecipe::new_fullscreen_depth(&mut cmd, vp).unwrap();
    let dummy = TextureRecipe::new_dummy(&mut cmd).unwrap();
    assert_eq!(
        cmd.calls,
        vec![
            GlCall::CreateTexture { texture: 1, width: 1920, height: 1080, format: PixelFormat::R8G8B8A8, mipmap: true },
            GlCall::CreateTexture { texture: 2, width: 1920, height: 1080, format: PixelFormat::Depth24, mipmap: false },
            GlCall::CreateTexture { texture: 3, width: 1, height: 1, format: PixelFormat::R8G8B8A8, mipmap: true },
        ]
    );
    assert_eq!((color.handle, depth.handle, dummy.handle), (1, 2, 3));
    cmd.next_object = u64::MAX;
    assert_eq!(TextureRecipe::new_dummy(&mut cmd), Err(AllocationError::OutOfHandles));
}

#[test]
fn layer_size_tracks_measured_dimensions() {
    let mut size = LayerSize::new();
    assert!(!size.check_resized(None, None));
    assert_eq!(size, LayerSize { width: 0, height: 0 });
    assert!(size.check_resized(Some(800), None));
    assert_eq!(size, LayerSize { width: 800, height: 0 });
    assert!(size.check_resized(Some(640), Some(480)));
    assert_eq!(size, LayerSize { width: 640, height: 480 });
}

#[test]
fn texture_levels_follow_largest_side() {
    let full = Texture2dDescriptor { width: 1920, height: 1080, format: PixelFormat::R8G8B8A8, mipmap: true };
    assert_eq!(full.levels(), 11);
    let tall = Texture2dDescriptor { width: 3, height: 8, format: PixelFormat::R8G8B8A8, mipmap: true };
    assert_eq!(tall.levels(), 4);
    let dummy = Texture2dDescriptor { width: 1, height: 1, format: PixelFormat::R8G8B8A8, mipmap: true };
    assert_eq!(dummy.levels(), 1);
    let depth = Texture2dDescriptor { width: 1920, height: 1080, format: PixelFormat::Depth24, mipmap: false };
    assert_eq!(depth.levels(), 1);
}
