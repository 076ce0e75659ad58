use my_cube_plugin::gpu_data::{Block, Index, INDEX_BYTES};
use my_cube_plugin::input::key_direction;
use my_cube_plugin::pipeline::{pipeline_specs, stage_at_position, Group, Stage, STAGE_COUNT};
use my_cube_plugin::resources::{
    cube_data_buffer, cube_data_bytes, cube_data_group, cube_data_layout, grid_image_spec, index_group,
    index_layout, scratch_image_spec, sim_params_group, sim_params_layout, texture_layout,
    BufferKind, BufferRole, TexelFormat, GRID_HEIGHT, GRID_WIDTH,
};
use my_cube_plugin::sim_node::{prepare_bind_group, CubeSimNode, TextureAction};

fn expected_groups() -> Vec<Group> {
    vec![Group::SimParams, Group::CubeData, Group::Index, Group::Texture]
}

fn same_group(a: &Group, b: &Group) -> bool {
    matches!(
        (a, b),
        (Group::SimParams, Group::SimParams)
            | (Group::CubeData, Group::CubeData)
            | (Group::Index, Group::Index)
            | (Group::Texture, Group::Texture)
    )
}

fn same_stage(a: &Stage, b: &Stage) -> bool {
    a.entry_point() == b.entry_point()
}

#[test]
fn left_keys_win_over_right_keys() {
    assert_eq!(key_direction(true, false, false, false), Some(-1));
    assert_eq!(key_direction(false, true, false, false), Some(-1));
    assert_eq!(key_direction(true, true, true, true), Some(-1));
    assert_eq!(key_direction(false, false, true, false), Some(1));
    assert_eq!(key_direction(false, false, false, true), Some(1));
    assert_eq!(key_direction(false, false, false, false), None);
}

#[test]
fn index_defaults_to_zero() {
    let i = Index::default();
    assert_eq!(i.index, 0);
    assert_eq!(INDEX_BYTES, 4);
}

#[test]
fn default_block_is_a_bar_of_four() {
    let b = Block::default();
    assert_eq!(b.shape, [0, 0, 0, 0, 1, 1, 1, 1, 0, 0, 0, 0, 0, 0, 0, 0]);
    assert_eq!(b.position, [200, 30]);
    assert_eq!(b.color, 1);
}

#[test]
fn cell_buffer_holds_every_cell() {
    assert_eq!(cube_data_bytes(), 80000);
    assert_eq!(cube_data_bytes(), GRID_WIDTH as u64 * GRID_HEIGHT as u64 * 4);
    let b = cube_data_buffer();
    assert_eq!(b.label, "cube_date");
    assert_eq!(b.size, 80000);
    assert!(b.storage && b.copy_dst && !b.mapped_at_creation);
    let l = cube_data_layout(8, 12, 80);
    assert_eq!(l.len(), 4);
    assert_eq!(l[0].min_size, Some(80000));
    assert_eq!(l[1].min_size, Some(8));
    assert_eq!(l[2].min_size, Some(12));
    assert_eq!(l[3].min_size, Some(80));
    for (i, e) in l.iter().enumerate() {
        assert_eq!(e.binding, i as u32);
        assert!(matches!(e.kind, BufferKind::Storage { read_only: false }));
        assert!(!e.has_dynamic_offset);
    }
}

#[test]
fn sim_params_are_a_uniform() {
    let l = sim_params_layout(32);
    assert_eq!(l.len(), 1);
    assert_eq!(l[0].binding, 0);
    assert!(matches!(l[0].kind, BufferKind::Uniform));
    assert_eq!(l[0].min_size, Some(32));
}

#[test]
fn index_layout_holds_two_indices() {
    let l = index_layout();
    assert_eq!(l.len(), 2);
    assert_eq!(l[0].min_size, Some(4));
    assert_eq!(l[1].min_size, Some(4));
    assert_eq!(l[1].binding, 1);
}

#[test]
fn groups_fit_their_layouts() {
    let pairs = vec![
        (cube_data_group(), cube_data_layout(8, 12, 80)),
        (sim_params_group(), sim_params_layout(32)),
        (index_group(), index_layout()),
    ];
    for (g, l) in pairs {
        assert_eq!(g.len(), l.len());
        for (ge, le) in g.iter().zip(l.iter()) {
            assert_eq!(ge.binding, le.binding);
        }
    }
    let ig = index_group();
    assert!(matches!(ig[0].buffer, BufferRole::IndexPong));
    assert!(matches!(ig[1].buffer, BufferRole::Index));
    let cg = cube_data_group();
    assert!(matches!(cg[0].buffer, BufferRole::CubeCells));
    assert!(matches!(cg[1].buffer, BufferRole::Timer));
    assert!(matches!(cg[2].buffer, BufferRole::Touch));
    assert!(matches!(cg[3].buffer, BufferRole::Block));
}

#[test]
fn images_match_grid_and_layout() {
    let g = grid_image_spec();
    assert_eq!((g.width, g.height, g.depth), (100, 200, 1));
    assert!(matches!(g.format, TexelFormat::Rgba32Float));
    assert_eq!(g.fill, vec![255, 0, 0, 255, 255, 0, 0, 255, 255, 0, 0, 255, 255, 0, 0, 255]);
    assert_eq!(g.fill.len() as u64 % g.format.pixel_bytes(), 0);
    assert!(g.copy_dst && g.storage_binding && g.texture_binding);
    assert!(!g.main_world && g.render_world);
    let t = texture_layout();
    assert!(matches!(t.format, TexelFormat::Rgba32Float));
    assert!(t.read && t.write);
    let s = scratch_image_spec();
    assert!(matches!(s.format, TexelFormat::R32Float));
    assert_eq!(s.fill, vec![0, 0, 0, 255]);
    assert_eq!(s.format.pixel_bytes(), 4);
}

#[test]
fn pipelines_cover_stages_in_order() {
    let p = pipeline_specs();
    assert_eq!(p.len(), STAGE_COUNT);
    let names: Vec<&str> = p.iter().map(|s| s.stage.entry_point()).collect();
    assert_eq!(names, vec!["main", "main_cube", "push_in", "check_and_spawn"]);
    for s in &p {
        assert_eq!(s.layout.len(), 4);
        for (a, b) in s.layout.iter().zip(expected_groups().iter()) {
            assert!(same_group(a, b));
        }
    }
}

#[test]
fn due_tick_resets_indices_and_steers() {
    let mut node = CubeSimNode::new();
    assert!(!node.is_run);
    let w = node.update(true, true, -1).unwrap();
    assert!(node.is_run);
    assert_eq!(w.index.index, 0);
    assert_eq!(w.index_pong.index, 0);
    assert_eq!(w.touch.is_touch, 0);
    assert_eq!(w.touch.pos, -1);
    let w = node.update(true, false, 1).unwrap();
    assert_eq!(w.touch.pos, 0);
    assert!(node.update(false, true, 1).is_none());
    assert!(!node.is_run);
}

#[test]
fn idle_node_records_no_pass() {
    let node = CubeSimNode::new();
    assert!(node.run([true, true, true, true], true).is_empty());
    assert!(node.run([false, false, false, false], false).is_empty());
}

#[test]
fn passes_stop_at_first_unready_pipeline() {
    let mut node = CubeSimNode::new();
    node.update(true, false, 0);
    let all = node.run([true, true, true, true], true);
    assert_eq!(all.len(), 4);
    for (k, p) in all.iter().enumerate() {
        assert!(same_stage(&p.stage, &stage_at_position(k)));
        assert_eq!(p.bind_groups.len(), 4);
        for (a, b) in p.bind_groups.iter().zip(expected_groups().iter()) {
            assert!(same_group(a, b));
        }
    }
    assert_eq!(all[0].workgroups, (2, 1, 1));
    assert_eq!(all[1].workgroups, (1, 1, 1));
    assert_eq!(all[3].workgroups, (1, 1, 1));
    assert_eq!(node.run([true, true, false, true], true).len(), 2);
    assert_eq!(node.run([true, false, true, true], true).len(), 1);
    assert_eq!(node.run([false, true, true, true], false).len(), 0);
    assert_eq!(node.run([true, true, true, false], true).len(), 3);
}

#[test]
fn texture_group_is_created_once() {
    assert!(matches!(prepare_bind_group(false, true), TextureAction::Create));
    assert!(matches!(prepare_bind_group(true, true), TextureAction::Keep));
    assert!(matches!(prepare_bind_group(true, false), TextureAction::Keep));
}
