use triangle_batch::mesh::{checked_totals, fits, Mesh, MAX_MESHES};
use triangle_batch::uniforms::{pack_uniforms, Uniforms};
use triangle_batch::pipeline::{
    Antialiasing, DrawCall, PassTarget, Pipeline, Upload, INDEX_BUFFER_SIZE, UNIFORM_BUFFER_SIZE,
    VERTEX_BUFFER_SIZE,
};

fn triangle() -> Mesh {
    Mesh { vertex_count: 3, indices: vec![0, 1, 2] }
}

fn mesh(vertices: usize, indices: usize) -> Mesh {
    Mesh { vertex_count: vertices, indices: vec![0; indices] }
}

#[test]
fn new_pipeline_has_the_starting_capacities() {
    let pipeline = Pipeline::new(None);
    assert_eq!(pipeline.uniforms_buffer().size(), UNIFORM_BUFFER_SIZE);
    assert_eq!(pipeline.vertex_buffer().size(), VERTEX_BUFFER_SIZE);
    assert_eq!(pipeline.index_buffer().size(), INDEX_BUFFER_SIZE);
    assert_eq!(pipeline.uniforms_buffer().byte_size(), 50 * 256);
    assert_eq!(pipeline.vertex_buffer().byte_size(), 10_000 * 24);
    assert_eq!(pipeline.index_buffer().byte_size(), 10_000 * 4);
    assert_eq!(pipeline.antialiasing(), None);
    assert_eq!(pipeline.sample_count(), 1);
}

#[test]
fn sample_counts() {
    assert_eq!(Antialiasing::MSAAx2.sample_count(), 2);
    assert_eq!(Antialiasing::MSAAx4.sample_count(), 4);
    assert_eq!(Antialiasing::MSAAx8.sample_count(), 8);
    assert_eq!(Antialiasing::MSAAx16.sample_count(), 16);
    assert_eq!(Pipeline::new(Some(Antialiasing::MSAAx4)).sample_count(), 4);
}

#[test]
fn two_meshes_single_draw_call_set() {
    let mut pipeline = Pipeline::new(None);
    let meshes = vec![triangle(), triangle()];
    assert!(fits(&meshes));
    let plan = pipeline.draw(&meshes);

    assert_eq!(plan.vertex_allocation, None);
    assert_eq!(plan.index_allocation, None);
    assert_eq!(plan.uniform_allocation, None);
    assert!(!plan.rebind_uniforms);
    assert_eq!(
        plan.uploads,
        vec![
            Upload { mesh: 0, vertex_offset: 0, vertex_len: 72, index_offset: 0, index_len: 12 },
            Upload { mesh: 1, vertex_offset: 72, vertex_len: 72, index_offset: 12, index_len: 12 },
        ]
    );
    assert_eq!(plan.uniform_len, 512);
    assert_eq!(plan.target, PassTarget::Direct);
    assert_eq!(
        plan.draws,
        vec![
            DrawCall { mesh: 0, uniform_offset: 0, first_index: 0, end_index: 3, base_vertex: 0 },
            DrawCall { mesh: 1, uniform_offset: 256, first_index: 3, end_index: 6, base_vertex: 3 },
        ]
    );
    assert!(!plan.resolve);

    let mut moved = Uniforms::default().transform;
    moved[12] = 10.0f32.to_bits();
    moved[13] = 10.0f32.to_bits();
    let records = vec![Uniforms::default(), Uniforms::from(moved)];
    let bytes = pack_uniforms(&records);
    assert_eq!(bytes.len() as u64, plan.uniform_len);
    let second = plan.draws[1].uniform_offset as usize;
    assert_eq!(&bytes[second..second + 4], &1.0f32.to_ne_bytes()[..]);
    assert_eq!(&bytes[second + 48..second + 52], &10.0f32.to_ne_bytes()[..]);
    assert_eq!(&bytes[second + 52..second + 56], &10.0f32.to_ne_bytes()[..]);
    assert_eq!(meshes[1].index_bytes().len() as u64, plan.uploads[1].index_len);
}

#[test]
fn capacity_growth() {
    let mut pipeline = Pipeline::new(None);
    let meshes = vec![mesh(10_000, 3), mesh(1, 3)];
    let plan = pipeline.draw(&meshes);
    assert_eq!(plan.vertex_allocation, Some(10_001 * 24));
    assert_eq!(plan.index_allocation, None);
    assert_eq!(plan.uniform_allocation, None);
    assert_eq!(pipeline.vertex_buffer().size(), 10_001);
    assert_eq!(pipeline.index_buffer().size(), 10_000);

    let again = pipeline.draw(&meshes);
    assert_eq!(again.vertex_allocation, None);
    assert_eq!(pipeline.vertex_buffer().size(), 10_001);

    let smaller = pipeline.draw(&vec![triangle()]);
    assert_eq!(smaller.vertex_allocation, None);
    assert_eq!(pipeline.vertex_buffer().size(), 10_001);
}

#[test]
fn index_buffer_grows_to_the_total() {
    let mut pipeline = Pipeline::new(None);
    let meshes = vec![mesh(3, 6_000), mesh(3, 6_000)];
    let plan = pipeline.draw(&meshes);
    assert_eq!(plan.index_allocation, Some(48_000));
    assert_eq!(plan.vertex_allocation, None);
    assert_eq!(pipeline.index_buffer().size(), 12_000);
}

#[test]
fn uniform_growth_rebinds() {
    let mut pipeline = Pipeline::new(None);
    let meshes: Vec<Mesh> = (0..51).map(|_| triangle()).collect();
    let plan = pipeline.draw(&meshes);
    assert_eq!(plan.uniform_allocation, Some(51 * 256));
    assert!(plan.rebind_uniforms);
    assert_eq!(pipeline.uniforms_buffer().size(), 51);
    assert_eq!(plan.uniform_len, 51 * 256);

    let again = pipeline.draw(&meshes);
    assert_eq!(again.uniform_allocation, None);
    assert!(!again.rebind_uniforms);

    let fewer: Vec<Mesh> = (0..50).map(|_| triangle()).collect();
    let plan = pipeline.draw(&fewer);
    assert!(!plan.rebind_uniforms);
    assert_eq!(pipeline.uniforms_buffer().size(), 51);
}

#[test]
fn uniform_offsets_are_multiples_of_the_stride() {
    let mut pipeline = Pipeline::new(None);
    let meshes: Vec<Mesh> = (0..7).map(|_| triangle()).collect();
    let plan = pipeline.draw(&meshes);
    for (n, draw) in plan.draws.iter().enumerate() {
        assert_eq!(draw.uniform_offset as usize, n * 256);
        assert_eq!(draw.uniform_offset % 256, 0);
    }
}

#[test]
fn antialiasing_off_draws_into_the_target() {
    let mut pipeline = Pipeline::new(None);
    let plan = pipeline.draw(&vec![triangle()]);
    assert_eq!(plan.target, PassTarget::Direct);
    assert!(!plan.resolve);
}

#[test]
fn antialiasing_on_draws_multisampled_and_resolves() {
    let mut pipeline = Pipeline::new(Some(Antialiasing::MSAAx4));
    let plan = pipeline.draw(&vec![triangle()]);
    assert_eq!(plan.target, PassTarget::Multisampled);
    assert!(plan.resolve);
    assert_eq!(pipeline.antialiasing(), Some(Antialiasing::MSAAx4));
}

#[test]
fn every_mesh_gets_a_draw_call_in_order() {
    let mut pipeline = Pipeline::new(None);
    let meshes = vec![triangle(), mesh(4, 0), mesh(0, 0), mesh(4, 6), mesh(0, 3), triangle()];
    let plan = pipeline.draw(&meshes);
    assert_eq!(plan.draws.len(), meshes.len());
    for (i, draw) in plan.draws.iter().enumerate() {
        assert_eq!(draw.mesh, i);
        assert_eq!((draw.end_index - draw.first_index) as usize, meshes[i].indices.len());
    }
    assert_eq!(plan.draws[1].first_index, plan.draws[1].end_index);
    assert_eq!(plan.uniform_len, 6 * 256);
}

#[test]
fn degenerate_meshes_are_not_uploaded() {
    let mut pipeline = Pipeline::new(None);
    let meshes = vec![triangle(), mesh(4, 0), mesh(0, 0), mesh(4, 6), mesh(0, 3), triangle()];
    let plan = pipeline.draw(&meshes);
    assert_eq!(
        plan.uploads,
        vec![
            Upload { mesh: 0, vertex_offset: 0, vertex_len: 72, index_offset: 0, index_len: 12 },
            Upload { mesh: 3, vertex_offset: 168, vertex_len: 96, index_offset: 12, index_len: 24 },
            Upload { mesh: 5, vertex_offset: 264, vertex_len: 72, index_offset: 48, index_len: 12 },
        ]
    );
}

#[test]
fn cursors_end_at_the_totals() {
    let mut pipeline = Pipeline::new(None);
    let meshes = vec![triangle(), mesh(4, 0), mesh(5, 9), mesh(0, 3), triangle()];
    assert_eq!(checked_totals(&meshes), Some((15, 18)));
    let plan = pipeline.draw(&meshes);
    let mut vertex_cursor: usize = 0;
    let mut index_cursor: usize = 0;
    for (i, draw) in plan.draws.iter().enumerate() {
        assert_eq!(draw.base_vertex as usize, vertex_cursor);
        assert_eq!(draw.first_index as usize, index_cursor);
        vertex_cursor += meshes[i].vertex_count;
        index_cursor += meshes[i].indices.len();
        assert_eq!(draw.end_index as usize, index_cursor);
    }
    assert_eq!(vertex_cursor, 15);
    assert_eq!(index_cursor, 18);
}

#[test]
fn empty_frame_still_has_its_pass() {
    let mut pipeline = Pipeline::new(Some(Antialiasing::MSAAx2));
    let meshes: Vec<Mesh> = Vec::new();
    assert!(fits(&meshes));
    assert_eq!(checked_totals(&meshes), Some((0, 0)));
    let plan = pipeline.draw(&meshes);
    assert!(plan.uploads.is_empty());
    assert!(plan.draws.is_empty());
    assert_eq!(plan.uniform_len, 0);
    assert_eq!(plan.target, PassTarget::Multisampled);
    assert!(plan.resolve);
    assert_eq!(plan.vertex_allocation, None);
    assert_eq!(plan.uniform_allocation, None);
}

#[test]
fn frames_beyond_the_draw_parameters_do_not_fit() {
    let too_many_vertices = vec![mesh(0x7fff_ffff, 0), mesh(1, 0)];
    assert_eq!(checked_totals(&too_many_vertices), None);
    assert!(!fits(&too_many_vertices));

    let just_enough = vec![mesh(0x7fff_fffe, 0), mesh(1, 0)];
    assert_eq!(checked_totals(&just_enough), Some((0x7fff_ffff, 0)));
    assert!(fits(&just_enough));

    let huge = vec![mesh(usize::MAX, 0), mesh(usize::MAX, 0)];
    assert_eq!(checked_totals(&huge), None);
    assert!(!fits(&huge));
    assert_eq!(MAX_MESHES, 16_777_216);
}
