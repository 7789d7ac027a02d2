use vstd::prelude::*;

verus! {

/// The shader stages that may read a binding.
#[derive(Clone, Copy, Debug, PartialEq, Eq, Structural)]
pub enum Visibility {
    Vertex,
    Fragment,
    VertexFragment,
}

/// The kind of resource a binding exposes.
#[derive(Clone, Copy, Debug, PartialEq, Eq, Structural)]
pub enum ResourceKind {
    UniformBuffer,
    Texture,
    Sampler,
}

/// One entry of a binding layout: the schema of a binding slot.
#[derive(Clone, Copy, Debug, PartialEq, Eq, Structural)]
pub struct LayoutEntry {
    pub binding: u32,
    pub visibility: Visibility,
    pub kind: ResourceKind,
    pub has_dynamic_offset: bool,
}

/// One entry of a binding group: the resource bound at a slot.
#[derive(Clone, Copy, Debug, PartialEq, Eq, Structural)]
pub struct GroupEntry {
    pub binding: u32,
    pub kind: ResourceKind,
}

/// The layout entry of a uniform buffer at `binding`, visible to the vertex
/// and fragment stages, without dynamic offset.
pub open spec fn uniform_layout_entry(binding: u32) -> LayoutEntry {
    LayoutEntry {
        binding,
        visibility: Visibility::VertexFragment,
        kind: ResourceKind::UniformBuffer,
        has_dynamic_offset: false,
    }
}

/// A value of `T` held on the CPU together with the copy that its GPU buffer
/// holds. The two only meet again on `write_through`.
pub struct Uniform<T: Copy> {
    uniforms: T,
    gpu_copy: T,
    binding: u32,
}

impl<T: Copy> Uniform<T> {
    /// The CPU-side value.
    pub closed spec fn value(&self) -> T {
        self.uniforms
    }

    /// What the GPU buffer holds.
    pub closed spec fn buffer_value(&self) -> T {
        self.gpu_copy
    }

    pub closed spec fn binding_slot(&self) -> u32 {
        self.binding
    }

    /// A uniform whose buffer is created holding `uniforms`.
    pub fn new(uniforms: T, binding: u32) -> (r: Self)
        ensures
            r.value() == uniforms,
            r.buffer_value() == uniforms,
            r.binding_slot() == binding,
    {
        Uniform { uniforms, gpu_copy: uniforms, binding }
    }

    /// Replaces the CPU-side value; the buffer keeps what it held.
    pub fn set_uniforms(&mut self, uniforms: T)
        ensures
            edited(*old(self), *final(self)),
            final(self).value() == uniforms,
            final(self).buffer_value() == old(self).buffer_value(),
            final(self).binding_slot() == old(self).binding_slot(),
    {
        self.uniforms = uniforms;
    }

    /// The CPU-side value, for editing in place; the buffer keeps what it held.
    pub fn mut_uniforms(&mut self) -> (r: &mut T)
        ensures
            edited(*old(self), *final(self)),
            *r == old(self).value(),
            final(self).value() == *final(r),
            final(self).buffer_value() == old(self).buffer_value(),
            final(self).binding_slot() == old(self).binding_slot(),
    {
        &mut self.uniforms
    }

    pub fn uniforms(&self) -> (r: &T)
        ensures
            *r == self.value(),
    {
        &self.uniforms
    }

    /// What the GPU buffer holds.
    pub fn buffer(&self) -> (r: &T)
        ensures
            *r == self.buffer_value(),
    {
        &self.gpu_copy
    }

    /// Uploads the CPU-side value to the buffer and returns what was written.
    pub fn write_through(&mut self) -> (r: T)
        ensures
            r == old(self).value(),
            final(self).value() == old(self).value(),
            final(self).buffer_value() == old(self).value(),
            final(self).binding_slot() == old(self).binding_slot(),
    {
        self.gpu_copy = self.uniforms;
        self.uniforms
    }

    pub fn layout_entry(&self) -> (r: LayoutEntry)
        ensures
            r == uniform_layout_entry(self.binding_slot()),
    {
        LayoutEntry {
            binding: self.binding,
            visibility: Visibility::VertexFragment,
            kind: ResourceKind::UniformBuffer,
            has_dynamic_offset: false,
        }
    }

    /// The group entry that binds this uniform's buffer at its slot.
    pub fn entry(&self) -> (r: GroupEntry)
        ensures
            r == (GroupEntry { binding: self.binding_slot(), kind: ResourceKind::UniformBuffer }),
    {
        GroupEntry { binding: self.binding, kind: ResourceKind::UniformBuffer }
    }
}

/// `b` is `a` after its CPU copy was edited (`set_uniforms` or
/// `mut_uniforms`), without a write-through.
pub open spec fn edited<T: Copy>(a: Uniform<T>, b: Uniform<T>) -> bool {
    &&& b.buffer_value() == a.buffer_value()
    &&& b.binding_slot() == a.binding_slot()
}

/// A uniform made with `v` keeps `v` in its buffer through any number of
/// edits of its CPU copy, until the next write-through.
pub proof fn lemma_buffer_stale_until_write_through<T: Copy>(states: Seq<Uniform<T>>, v: T)
    requires
        states.len() > 0,
        states[0].value() == v,
        states[0].buffer_value() == v,
        forall|i: int| 0 <= i < states.len() - 1 ==> edited(#[trigger] states[i], states[i + 1]),
    ensures
        forall|i: int| 0 <= i < states.len() ==> #[trigger] states[i].buffer_value() == v,
    decreases states.len(),
{
    if states.len() > 1 {
        let front = states.drop_last();
        assert forall|i: int| 0 <= i < front.len() - 1 implies edited(
            #[trigger] front[i],
            front[i + 1],
        ) by {
            assert(edited(states[i], states[i + 1]));
        }
        lemma_buffer_stale_until_write_through(front, v);
        assert(front[states.len() - 2].buffer_value() == v);
        assert(edited(states[states.len() - 2], states[states.len() - 1]));
        assert forall|i: int| 0 <= i < states.len() implies #[trigger] states[i].buffer_value() == v by {
            if i < states.len() - 1 {
                assert(front[i] == states[i]);
            }
        }
    }
}

} // verus!
