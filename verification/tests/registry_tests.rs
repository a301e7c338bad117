use render_host::mesh::Mesh;
use render_host::scene::{
    challenge_indices, default_scene, pentagon_indices, FRAGMENT_ENTRY_ALT, FRAGMENT_ENTRY_MAIN,
};
use render_host::texture::{texture_upload_layout, TextureBinding};

#[test]
fn mesh_accepts_indices_below_the_vertex_count() {
    let m = Mesh::new(vec![0, 9, 5], 10);
    assert!(m.is_some());
    let m = m.unwrap();
    assert_eq!(m.indices, vec![0, 9, 5]);
    assert_eq!(m.vertex_count, 10);
}

#[test]
fn mesh_rejects_an_out_of_range_index() {
    assert!(Mesh::new(vec![0, 10], 10).is_none());
    assert!(Mesh::new(vec![3], 0).is_none());
}

#[test]
fn mesh_index_count_is_the_number_of_indices() {
    let m = Mesh::new(vec![0, 1, 2, 0, 2, 3], 4).unwrap();
    assert_eq!(m.index_count(), 6);
}

#[test]
fn index_bytes_lay_each_index_out_low_byte_first() {
    let m = Mesh { indices: vec![0x0102, 0x0304, 0x00ff], vertex_count: 0x0400 };
    assert_eq!(m.index_bytes(), vec![0x02, 0x01, 0x04, 0x03, 0xff, 0x00]);
}

#[test]
fn scene_index_buffers_hold_the_expected_triangulations() {
    assert_eq!(pentagon_indices(), vec![0, 1, 2, 0, 2, 3, 0, 3, 4]);
    assert_eq!(
        challenge_indices(),
        vec![0, 7, 9, 5, 1, 8, 6, 2, 9, 5, 7, 3, 4, 6, 8]
    );
}

#[test]
fn toggling_twice_returns_to_the_original_selection() {
    let mut r = default_scene(1, None);
    assert_eq!(r.active_index(), 0);
    r.toggle_variant();
    assert_eq!(r.active_index(), 1);
    r.toggle_variant();
    assert_eq!(r.active_index(), 0);
    assert_eq!(r.active_index_count(), 9);
}

#[test]
fn toggling_moves_pipeline_mesh_and_texture_together() {
    let tex = TextureBinding { width: 4, height: 4 };
    let mut r = default_scene(7, Some(tex));
    assert_eq!(r.active_pipeline().fragment_entry, FRAGMENT_ENTRY_MAIN);
    assert_eq!(r.active_index_count(), 9);
    r.toggle_variant();
    let i = r.active_index();
    assert_eq!(i, 1);
    assert_eq!(r.active_pipeline().fragment_entry, FRAGMENT_ENTRY_ALT);
    assert_eq!(r.active_pipeline().format, 7);
    assert_eq!(r.active_index_count(), 15);
    assert_eq!(r.active_texture_binding(), Some(tex));
    assert_eq!(*r.active_mesh(), r.variants[i].mesh);
}

#[test]
fn scene_meshes_keep_every_index_below_the_vertex_count() {
    let r = default_scene(1, None);
    for v in &r.variants {
        for &ix in &v.mesh.indices {
            assert!((ix as u32) < v.mesh.vertex_count);
        }
    }
}

#[test]
fn upload_layout_is_four_bytes_per_pixel() {
    assert_eq!(texture_upload_layout(2, 3), Some((8, 24)));
    assert_eq!(texture_upload_layout(256, 256), Some((1024, 262144)));
}

#[test]
fn upload_layout_refuses_an_empty_image() {
    assert_eq!(texture_upload_layout(0, 4), None);
    assert_eq!(texture_upload_layout(4, 0), None);
}

#[test]
fn upload_layout_refuses_a_row_beyond_the_stride_limit() {
    assert_eq!(texture_upload_layout(0x4000_0000, 1), None);
    assert_eq!(
        texture_upload_layout(0x3fff_ffff, 2),
        Some((0xffff_fffc, 0x1_ffff_fff8))
    );
}
