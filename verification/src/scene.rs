use vstd::prelude::*;

use crate::mesh::Mesh;
use crate::registry::{PipelineSpec, Registry, SceneVariant};
use crate::texture::TextureBinding;

verus! {

/// The shared vertex buffer of the default scene holds ten vertices.
pub const SCENE_VERTEX_COUNT: u32 = 10;

/// The tag of the one vertex-stage entry point both pipelines share.
pub const VERTEX_ENTRY_MAIN: u32 = 0;

/// The tag of the fragment entry point of the first variant.
pub const FRAGMENT_ENTRY_MAIN: u32 = 0;

/// The tag of the alternate fragment entry point of the second variant.
pub const FRAGMENT_ENTRY_ALT: u32 = 1;

/// The pentagon triangulation: three counter-clockwise triangles fanned
/// from vertex zero, nine indices.
pub open spec fn pentagon_index_seq() -> Seq<u16> {
    seq![0u16, 1, 2, 0, 2, 3, 0, 3, 4]
}

/// The five-triangle challenge figure over the same ten vertices, fifteen
/// indices.
pub open spec fn challenge_index_seq() -> Seq<u16> {
    seq![0u16, 7, 9, 5, 1, 8, 6, 2, 9, 5, 7, 3, 4, 6, 8]
}

/// The pentagon's index buffer contents.
pub fn pentagon_indices() -> (v: Vec<u16>)
    ensures
        v@ == pentagon_index_seq(),
{
    let v: Vec<u16> = vec![0u16, 1, 2, 0, 2, 3, 0, 3, 4];
    proof {
        assert(v@ =~= pentagon_index_seq());
    }
    v
}

/// The challenge figure's index buffer contents.
pub fn challenge_indices() -> (v: Vec<u16>)
    ensures
        v@ == challenge_index_seq(),
{
    let v: Vec<u16> = vec![0u16, 7, 9, 5, 1, 8, 6, 2, 9, 5, 7, 3, 4, 6, 8];
    proof {
        assert(v@ =~= challenge_index_seq());
    }
    v
}

/// The pentagon mesh over the shared ten-vertex buffer.
pub fn pentagon_mesh() -> (m: Mesh)
    ensures
        m.wf(),
        m.indices@ == pentagon_index_seq(),
        m.vertex_count == SCENE_VERTEX_COUNT,
        m.indices@.len() == 9,
{
    Mesh { indices: pentagon_indices(), vertex_count: SCENE_VERTEX_COUNT }
}

/// The challenge mesh over the shared ten-vertex buffer.
pub fn challenge_mesh() -> (m: Mesh)
    ensures
        m.wf(),
        m.indices@ == challenge_index_seq(),
        m.vertex_count == SCENE_VERTEX_COUNT,
        m.indices@.len() == 15,
{
    Mesh { indices: challenge_indices(), vertex_count: SCENE_VERTEX_COUNT }
}

/// The registry the host starts with: variant zero draws the pentagon with
/// the first fragment entry, variant one the challenge figure with the
/// alternate fragment entry; both pipelines share the vertex entry and the
/// surface's color format, and both variants sample the same texture
/// binding, if one is given.
pub fn default_scene(format: u32, texture: Option<TextureBinding>) -> (r: Registry)
    ensures
        r.wf(),
        r.matches_format(format),
        r.active == 0,
        r.variants@.len() == 2,
        r.variants@[0].pipeline == (PipelineSpec {
            vertex_entry: VERTEX_ENTRY_MAIN,
            fragment_entry: FRAGMENT_ENTRY_MAIN,
            format,
        }),
        r.variants@[1].pipeline == (PipelineSpec {
            vertex_entry: VERTEX_ENTRY_MAIN,
            fragment_entry: FRAGMENT_ENTRY_ALT,
            format,
        }),
        r.variants@[0].mesh.indices@ == pentagon_index_seq(),
        r.variants@[1].mesh.indices@ == challenge_index_seq(),
        r.variants@[0].mesh.vertex_count == SCENE_VERTEX_COUNT,
        r.variants@[1].mesh.vertex_count == SCENE_VERTEX_COUNT,
        r.variants@[0].texture == texture,
        r.variants@[1].texture == texture,
{
    let first = SceneVariant {
        pipeline: PipelineSpec {
            vertex_entry: VERTEX_ENTRY_MAIN,
            fragment_entry: FRAGMENT_ENTRY_MAIN,
            format,
        },
        mesh: pentagon_mesh(),
        texture,
    };
    let second = SceneVariant {
        pipeline: PipelineSpec {
            vertex_entry: VERTEX_ENTRY_MAIN,
            fragment_entry: FRAGMENT_ENTRY_ALT,
            format,
        },
        mesh: challenge_mesh(),
        texture,
    };
    Registry::new(first, second)
}

} // verus!
