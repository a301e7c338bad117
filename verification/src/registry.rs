use vstd::prelude::*;

use crate::mesh::Mesh;
use crate::texture::TextureBinding;

verus! {

/// One compiled graphics pipeline of the registry: a vertex-stage entry
/// point, a fragment-stage entry point and the output color format, each
/// named by a small tag the host assigns when it compiles the pipeline.
/// Two variants may share the vertex entry and differ by fragment entry.
#[derive(Clone, Copy, Debug, PartialEq, Eq, Structural)]
pub struct PipelineSpec {
    pub vertex_entry: u32,
    pub fragment_entry: u32,
    pub format: u32,
}

/// One selectable scene variant: a pipeline, its geometry, and the texture
/// binding it samples, if any. Selecting a variant selects all three as one
/// unit, so the pipeline and the geometry can never disagree.
#[derive(Debug, PartialEq, Eq)]
pub struct SceneVariant {
    pub pipeline: PipelineSpec,
    pub mesh: Mesh,
    pub texture: Option<TextureBinding>,
}

/// The registry of GPU-resident resources: exactly two scene variants and
/// the selector naming the active one. All resources are uploaded once at
/// startup and immutable afterwards; only the selector moves.
#[derive(Debug, PartialEq, Eq)]
pub struct Registry {
    pub variants: Vec<SceneVariant>,
    pub active: usize,
}

/// The other selector value: toggling flips between the two variants,
/// a binary involution rather than a general rotation.
pub open spec fn flipped(active: usize) -> usize {
    if active == 0 {
        1usize
    } else {
        0usize
    }
}

/// The registry after one toggle: the same resources, the other selector.
pub open spec fn toggled(r: Registry) -> Registry {
    Registry { variants: r.variants, active: flipped(r.active) }
}

impl Registry {
    /// Exactly two variants, a selector naming one of them, and every mesh
    /// well-formed.
    pub open spec fn wf(self) -> bool {
        &&& self.variants@.len() == 2
        &&& self.active < 2
        &&& forall|v: int| 0 <= v < self.variants@.len() ==> self.variants@[v].mesh.wf()
    }

    /// Every pipeline's output format agrees with the given surface format.
    pub open spec fn matches_format(self, format: u32) -> bool {
        forall|v: int|
            0 <= v < self.variants@.len() ==> self.variants@[v].pipeline.format == format
    }

    /// The variant the frame driver reads.
    pub open spec fn active_variant(self) -> SceneVariant
        recommends
            self.wf(),
    {
        self.variants@[self.active as int]
    }

    /// Accepts the two variants with variant zero initially active.
    pub fn new(first: SceneVariant, second: SceneVariant) -> (r: Registry)
        requires
            first.mesh.wf(),
            second.mesh.wf(),
        ensures
            r.wf(),
            r.variants@ == seq![first, second],
            r.active == 0,
    {
        let mut variants: Vec<SceneVariant> = Vec::new();
        variants.push(first);
        variants.push(second);
        proof {
            assert(variants@ =~= seq![first, second]);
        }
        Registry { variants, active: 0 }
    }

    /// Advances the selection to the other variant. Pipeline, geometry and
    /// texture binding move together in this one step: the registry is never
    /// part-way between variants.
    pub fn toggle_variant(&mut self)
        requires
            old(self).wf(),
        ensures
            *final(self) == toggled(*old(self)),
            final(self).wf(),
    {
        self.active = if self.active > 0 {
            0
        } else {
            1
        };
        proof {
            assert(*self =~= toggled(*old(self)));
        }
    }

    /// The selector's current value.
    pub fn active_index(&self) -> (i: usize)
        ensures
            i == self.active,
    {
        self.active
    }

    /// The pipeline of the active variant.
    pub fn active_pipeline(&self) -> (p: PipelineSpec)
        requires
            self.wf(),
        ensures
            p == self.active_variant().pipeline,
    {
        self.variants[self.active].pipeline
    }

    /// The geometry of the active variant: its vertex and index buffers are
    /// the ones the frame driver binds.
    pub fn active_mesh(&self) -> (m: &Mesh)
        requires
            self.wf(),
        ensures
            *m == self.active_variant().mesh,
    {
        &self.variants[self.active].mesh
    }

    /// The number of indices an indexed draw over the active mesh covers.
    pub fn active_index_count(&self) -> (n: u32)
        requires
            self.wf(),
        ensures
            n == self.active_variant().mesh.indices@.len(),
    {
        self.active_mesh().index_count()
    }

    /// The texture binding of the active variant, absent when that variant
    /// samples no texture.
    pub fn active_texture_binding(&self) -> (t: Option<TextureBinding>)
        requires
            self.wf(),
        ensures
            t == self.active_variant().texture,
    {
        self.variants[self.active].texture
    }
}

/// Toggling is an involution: any even number of toggles returns the
/// selection — and with it every resource choice — to its original value.
pub proof fn lemma_toggle_involution(r: Registry)
    requires
        r.active < 2,
    ensures
        toggled(toggled(r)) == r,
{
    assert(toggled(toggled(r)) =~= r);
}

/// The registry after a run of `n` toggles.
pub open spec fn toggled_n(r: Registry, n: nat) -> Registry
    decreases n,
{
    if n == 0 {
        r
    } else {
        toggled(toggled_n(r, (n - 1) as nat))
    }
}

/// Any run of toggles of even length returns the selection — and with it
/// every resource choice — to its original value.
pub proof fn lemma_even_toggles_restore(r: Registry, n: nat)
    requires
        r.active < 2,
        n % 2 == 0,
    ensures
        toggled_n(r, n) == r,
    decreases n,
{
    if n != 0 {
        lemma_even_toggles_restore(r, (n - 2) as nat);
        assert(toggled_n(r, (n - 1) as nat) == toggled(toggled_n(r, (n - 2) as nat)));
        lemma_toggle_involution(toggled_n(r, (n - 2) as nat));
    }
}

/// One toggle moves every resource choice in lock-step: the pipeline, the
/// mesh and the texture binding read afterwards all come from the same
/// variant, the one the single selector names. The registry keeps no
/// per-resource indices that could drift apart.
pub proof fn lemma_toggle_lockstep(r: Registry)
    requires
        r.wf(),
    ensures
        toggled(r).wf(),
        toggled(r).active_variant().pipeline == toggled(r).variants@[toggled(r).active as int].pipeline,
        toggled(r).active_variant().mesh == toggled(r).variants@[toggled(r).active as int].mesh,
        toggled(r).active_variant().texture == toggled(r).variants@[toggled(r).active as int].texture,
        toggled(r).active != r.active,
{
}

/// In a well-formed registry no index buffer can name a vertex outside its
/// paired mesh: every stored index is below that mesh's vertex count, so no
/// indexed draw reaches out of range.
pub proof fn lemma_indices_in_range(r: Registry, v: int, k: int)
    requires
        r.wf(),
        0 <= v < r.variants@.len(),
        0 <= k < r.variants@[v].mesh.indices@.len(),
    ensures
        r.variants@[v].mesh.indices@[k] < r.variants@[v].mesh.vertex_count,
{
}

} // verus!
