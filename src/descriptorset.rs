//! Descriptors, bundles of bindings, and the scoped chain that applies them
//! from the outermost scope to the innermost.
use vstd::prelude::*;
use crate::buffer::{RawVao, UniformBuffer};
use crate::gpu::{Command, GlCall};

verus! {

/// A texture bound to a sampler unit.
#[derive(Clone, Copy, Debug, PartialEq, Eq)]
pub struct TextureMapping {
    pub unit: u32,
    pub texture: u64,
}

impl TextureMapping {
    /// The call that binds this texture.
    pub open spec fn bind_call(self) -> GlCall {
        GlCall::BindTexture { unit: self.unit, texture: self.texture }
    }

    /// Binds this texture to its unit.
    pub fn bind(&self, cmd: &mut Command)
        ensures
            final(cmd).calls@ == old(cmd).calls@.push(self.bind_call()),
            final(cmd).diagnostics@ == old(cmd).diagnostics@,
            final(cmd).same_objects(old(cmd)),
    {
        cmd.record(GlCall::BindTexture { unit: self.unit, texture: self.texture });
    }
}

/// What a descriptor holds: an optional vertex array, then uniform buffers
/// and texture mappings in the order they were added.
pub struct DescriptorModel {
    pub vao: Option<RawVao>,
    pub uniforms: Seq<UniformBuffer>,
    pub textures: Seq<TextureMapping>,
}

impl DescriptorModel {
    /// The bundle after its vertex array is set to `vao`.
    pub open spec fn with_vao(self, vao: RawVao) -> DescriptorModel {
        DescriptorModel { vao: Some(vao), ..self }
    }

    /// The bundle after `u` is appended to its uniform buffers.
    pub open spec fn with_uniform(self, u: UniformBuffer) -> DescriptorModel {
        DescriptorModel { uniforms: self.uniforms.push(u), ..self }
    }

    /// The bundle after `t` is appended to its texture mappings.
    pub open spec fn with_texture(self, t: TextureMapping) -> DescriptorModel {
        DescriptorModel { textures: self.textures.push(t), ..self }
    }

    /// The calls that apply this bundle: every uniform buffer, then every
    /// texture, then the vertex array if there is one.
    pub open spec fn own_calls(self) -> Seq<GlCall> {
        uniform_calls(self.uniforms) + texture_calls(self.textures) + vao_calls(self.vao)
    }
}

/// One bind per uniform buffer, in order.
pub open spec fn uniform_calls(us: Seq<UniformBuffer>) -> Seq<GlCall> {
    us.map_values(|u: UniformBuffer| u.bind_call())
}

/// One bind per texture mapping, in order.
pub open spec fn texture_calls(ts: Seq<TextureMapping>) -> Seq<GlCall> {
    ts.map_values(|t: TextureMapping| t.bind_call())
}

/// The activation of the vertex array, if there is one.
pub open spec fn vao_calls(vao: Option<RawVao>) -> Seq<GlCall> {
    match vao {
        Some(v) => seq![v.bind_call()],
        None => Seq::empty(),
    }
}

/// A bundle of bindings that are applied together.
pub struct Descriptor {
    vao: Option<RawVao>,
    u_buffers: Vec<UniformBuffer>,
    u_mappings: Vec<TextureMapping>,
}

impl View for Descriptor {
    type V = DescriptorModel;

    closed spec fn view(&self) -> DescriptorModel {
        DescriptorModel { vao: self.vao, uniforms: self.u_buffers@, textures: self.u_mappings@ }
    }
}

impl Descriptor {
    /// An empty bundle.
    pub fn new() -> (r: Descriptor)
        ensures
            r@ == (DescriptorModel { vao: None, uniforms: Seq::empty(), textures: Seq::empty() }),
    {
        Self { vao: None, u_buffers: Vec::new(), u_mappings: Vec::new() }
    }

    /// Sets the vertex array, replacing any earlier one.
    pub fn set_vao(&mut self, vao: &RawVao)
        ensures
            final(self)@ == old(self)@.with_vao(*vao),
    {
        self.vao = Some(*vao);
    }

    /// Appends a uniform buffer.
    pub fn add_uniform_buffer(&mut self, buffer: &UniformBuffer)
        ensures
            final(self)@ == old(self)@.with_uniform(*buffer),
    {
        self.u_buffers.push(*buffer);
    }

    /// Appends a texture mapping.
    pub fn add_texture_mapping(&mut self, mapping: &TextureMapping)
        ensures
            final(self)@ == old(self)@.with_texture(*mapping),
    {
        self.u_mappings.push(*mapping);
    }

    /// Applies this bundle: uniform buffers, then textures, then the vertex array.
    pub fn bind_own(&self, cmd: &mut Command)
        ensures
            final(cmd).calls@ == old(cmd).calls@ + self@.own_calls(),
            final(cmd).diagnostics@ == old(cmd).diagnostics@,
            final(cmd).same_objects(old(cmd)),
    {
        let ghost base = cmd.calls@;
        let n = self.u_buffers.len();
        let mut i: usize = 0;
        while i < n
            invariant
                n == self.u_buffers@.len(),
                0 <= i <= n,
                cmd.calls@ == base + uniform_calls(self.u_buffers@.take(i as int)),
                cmd.diagnostics@ == old(cmd).diagnostics@,
                cmd.same_objects(old(cmd)),
            decreases n - i,
        {
            self.u_buffers[i].bind(cmd);
            assert(uniform_calls(self.u_buffers@.take(i + 1)) =~= uniform_calls(
                self.u_buffers@.take(i as int),
            ).push(self.u_buffers@[i as int].bind_call()));
            i = i + 1;
        }
        assert(self.u_buffers@.take(n as int) =~= self.u_buffers@);
        let ghost mid = cmd.calls@;
        let m = self.u_mappings.len();
        let mut j: usize = 0;
        while j < m
            invariant
                m == self.u_mappings@.len(),
                0 <= j <= m,
                cmd.calls@ == mid + texture_calls(self.u_mappings@.take(j as int)),
                cmd.diagnostics@ == old(cmd).diagnostics@,
                cmd.same_objects(old(cmd)),
            decreases m - j,
        {
            self.u_mappings[j].bind(cmd);
            assert(texture_calls(self.u_mappings@.take(j + 1)) =~= texture_calls(
                self.u_mappings@.take(j as int),
            ).push(self.u_mappings@[j as int].bind_call()));
            j = j + 1;
        }
        assert(self.u_mappings@.take(m as int) =~= self.u_mappings@);
        if let Some(vao) = &self.vao {
            vao.bind(cmd);
        }
        assert(cmd.calls@ =~= base + self@.own_calls());
    }
}

/// A scope in a chain of descriptors: `Cons` applies its parent chain
/// `others`, then its own descriptor `prior`; `Nil` applies nothing.
pub enum DescriptorContext<'a> {
    Cons { prior: &'a Descriptor, others: &'a DescriptorContext<'a> },
    Nil,
}

impl<'a> DescriptorContext<'a> {
    /// The calls that binding this context issues, outermost scope first.
    pub open spec fn binding_calls(&self) -> Seq<GlCall>
        decreases self,
    {
        match self {
            DescriptorContext::Cons { prior, others } => others.binding_calls() + prior@.own_calls(),
            DescriptorContext::Nil => Seq::empty(),
        }
    }

    /// A new innermost scope holding `prior`, with `self` as its parent;
    /// `self` is left as it is.
    pub fn cons(&'a self, prior: &'a Descriptor) -> (r: DescriptorContext<'a>)
        ensures
            r == (DescriptorContext::Cons { prior, others: self }),
    {
        Self::Cons { prior, others: self }
    }

    /// Applies every descriptor of the chain, from the root to this scope.
    pub fn bind(&self, cmd: &mut Command)
        ensures
            final(cmd).calls@ == old(cmd).calls@ + self.binding_calls(),
            final(cmd).diagnostics@ == old(cmd).diagnostics@,
            final(cmd).same_objects(old(cmd)),
        decreases self,
    {
        if let Self::Cons { prior, others } = self {
            others.bind(cmd);
            prior.bind_own(cmd);
            assert(cmd.calls@ =~= old(cmd).calls@ + self.binding_calls());
        } else {
            assert(cmd.calls@ =~= old(cmd).calls@ + self.binding_calls());
        }
    }
}

/// Binding a context built by pushing `a` onto the empty context and then `b`
/// applies every binding of `a` before any binding of `b`.
pub proof fn lemma_nested_bind_order<'a>(
    root: &'a DescriptorContext<'a>,
    mid: &'a DescriptorContext<'a>,
    leaf: DescriptorContext<'a>,
    a: &'a Descriptor,
    b: &'a Descriptor,
)
    requires
        *root == DescriptorContext::<'a>::Nil,
        *mid == (DescriptorContext::Cons { prior: a, others: root }),
        leaf == (DescriptorContext::Cons { prior: b, others: mid }),
    ensures
        leaf.binding_calls() == a@.own_calls() + b@.own_calls(),
        leaf.binding_calls().take(a@.own_calls().len() as int) == a@.own_calls(),
        leaf.binding_calls().skip(a@.own_calls().len() as int) == b@.own_calls(),
{
    assert(root.binding_calls() == Seq::<GlCall>::empty());
    assert(mid.binding_calls() == root.binding_calls() + a@.own_calls());
    assert(mid.binding_calls() =~= a@.own_calls());
    assert(leaf.binding_calls().take(a@.own_calls().len() as int) =~= a@.own_calls());
    assert(leaf.binding_calls().skip(a@.own_calls().len() as int) =~= b@.own_calls());
}

/// A descriptor applies its uniform buffers, then its textures, then its
/// vertex array, whatever order they were added in: setting the vertex array
/// and adding a uniform buffer or a texture commute, and so do adding a
/// uniform buffer and adding a texture.
pub proof fn lemma_bind_own_order_independent(
    d: DescriptorModel,
    vao: RawVao,
    u: UniformBuffer,
    t: TextureMapping,
)
    ensures
        d.with_vao(vao).with_uniform(u).own_calls() == d.with_uniform(u).with_vao(vao).own_calls(),
        d.with_vao(vao).with_texture(t).own_calls() == d.with_texture(t).with_vao(vao).own_calls(),
        d.with_uniform(u).with_texture(t).own_calls() == d.with_texture(t).with_uniform(u).own_calls(),
        d.own_calls() == uniform_calls(d.uniforms) + texture_calls(d.textures) + vao_calls(d.vao),
{
    assert(d.with_vao(vao).with_uniform(u) == d.with_uniform(u).with_vao(vao));
    assert(d.with_vao(vao).with_texture(t) == d.with_texture(t).with_vao(vao));
    assert(d.with_uniform(u).with_texture(t) == d.with_texture(t).with_uniform(u));
}

/// Pushing a descriptor leaves the parent as it was: the parent still binds
/// what it bound before, and the child binds exactly that followed by the
/// descriptor's own bindings. Two children of one parent do not interfere.
pub proof fn lemma_push_keeps_parent<'a>(
    parent: &'a DescriptorContext<'a>,
    d: &'a Descriptor,
    e: &'a Descriptor,
    child: DescriptorContext<'a>,
    sibling: DescriptorContext<'a>,
)
    requires
        child == (DescriptorContext::Cons { prior: d, others: parent }),
        sibling == (DescriptorContext::Cons { prior: e, others: parent }),
    ensures
        child.binding_calls() == parent.binding_calls() + d@.own_calls(),
        sibling.binding_calls() == parent.binding_calls() + e@.own_calls(),
        parent.binding_calls().is_prefix_of(child.binding_calls()),
        parent.binding_calls().is_prefix_of(sibling.binding_calls()),
{
    assert(parent.binding_calls() =~= child.binding_calls().take(parent.binding_calls().len() as int));
    assert(parent.binding_calls() =~= sibling.binding_calls().take(parent.binding_calls().len() as int));
}

} // verus!
