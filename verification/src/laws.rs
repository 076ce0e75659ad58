use vstd::prelude::*;
use crate::input::spec_key_direction;
use crate::pipeline::{Stage, spec_pipeline_layout};
use crate::gpu_data::INDEX_BYTES;
use crate::pipeline::stage_at;
use crate::sim_node::spec_tick_writes;
use crate::resources::{
    BufferKind, BufferRole, BufferLayoutEntry, GroupEntry, ImageSpec, TexelFormat, spec_cube_data_bytes,
    spec_cube_data_group, spec_cube_data_layout, spec_grid_fill, spec_index_group,
    spec_index_layout, spec_scratch_fill, spec_sim_params_group, spec_sim_params_layout,
    spec_texture_layout, image_of, GRID_WIDTH, GRID_HEIGHT, CELL_BYTES,
};
use crate::sim_node::{
    ComputePass, TextureAction, bound_after, is_pass_for, leading_ready, run_allowed,
    spec_pass_count, spec_prepare, spec_touch_pos,
};

verus! {

/// A bind group fits a layout when it has one entry per layout binding, in the same
/// order, and no binding number occurs twice.
pub open spec fn group_fits_layout(g: Seq<GroupEntry>, l: Seq<BufferLayoutEntry>) -> bool {
    &&& g.len() == l.len()
    &&& forall|i: int| 0 <= i < g.len() ==> (#[trigger] g[i]).binding == l[i].binding
    &&& forall|i: int, j: int|
        0 <= i < j < g.len() ==> (#[trigger] g[i]).binding != (#[trigger] g[j]).binding
}

/// Every bind group the resources create fits the layout it is created with, the
/// cell buffer is exactly as large as its binding requires, one `CELL_BYTES` value per
/// grid cell, and the index group binds two different buffers.
pub proof fn law_groups_fit_layouts(
    timer_min: u64,
    touch_min: u64,
    block_min: u64,
    params_min: u64,
)
    ensures
        group_fits_layout(
            spec_cube_data_group(),
            spec_cube_data_layout(timer_min, touch_min, block_min),
        ),
        group_fits_layout(spec_sim_params_group(), spec_sim_params_layout(params_min)),
        group_fits_layout(spec_index_group(), spec_index_layout()),
        spec_cube_data_layout(timer_min, touch_min, block_min)[0].min_size == Some(
            spec_cube_data_bytes() as u64,
        ),
        spec_cube_data_bytes() == GRID_WIDTH * GRID_HEIGHT * CELL_BYTES,
        spec_index_group()[0].buffer != spec_index_group()[1].buffer,
{
}

/// Every recorded pass sets, at each group index, the group whose layout its
/// pipeline was created with at that index.
pub proof fn law_pass_groups_follow_pipeline_layout(p: ComputePass, stage: Stage)
    requires
        is_pass_for(p, stage),
    ensures
        p.bind_groups@ == spec_pipeline_layout(),
{
    assert(p.bind_groups@ =~= spec_pipeline_layout());
}

/// The four stages run four different shader functions.
pub proof fn law_entry_points_distinct(s1: Stage, s2: Stage)
    requires
        s1 != s2,
    ensures
        s1.spec_entry_point() != s2.spec_entry_point(),
{
    reveal_strlit("main");
    reveal_strlit("main_cube");
    reveal_strlit("push_in");
    reveal_strlit("check_and_spawn");
    match s1 {
        Stage::Simulate => {
            assert(s1.spec_entry_point().len() != s2.spec_entry_point().len());
        },
        Stage::MoveCube => {
            if s2 is PushIn {
                assert(s1.spec_entry_point()[0] != s2.spec_entry_point()[0]);
            } else {
                assert(s1.spec_entry_point().len() != s2.spec_entry_point().len());
            }
        },
        Stage::PushIn => {
            if s2 is MoveCube {
                assert(s1.spec_entry_point()[0] != s2.spec_entry_point()[0]);
            } else {
                assert(s1.spec_entry_point().len() != s2.spec_entry_point().len());
            }
        },
        Stage::CheckAndSpawn => {
            assert(s1.spec_entry_point().len() != s2.spec_entry_point().len());
        },
    }
}

/// The grid image has the grid's size and the format the texture layout expects, and
/// each image's fill is a whole number of pixels of its format.
pub proof fn law_images_fit(grid: ImageSpec, scratch: ImageSpec)
    requires
        image_of(grid, TexelFormat::Rgba32Float, spec_grid_fill()),
        image_of(scratch, TexelFormat::R32Float, spec_scratch_fill()),
    ensures
        grid.format == spec_texture_layout().format,
        grid.width == GRID_WIDTH && grid.height == GRID_HEIGHT,
        grid.fill@.len() % grid.format.spec_pixel_bytes() == 0,
        scratch.fill@.len() % scratch.format.spec_pixel_bytes() == 0,
{
    assert(scratch.format.spec_pixel_bytes() == 4);
    assert(scratch.fill@.len() == 4);
}

/// Once the texture group has been prepared, recording passes never lacks it, and
/// preparing again keeps what is there.
pub proof fn law_prepare_admits_run(is_run: bool, ready: Seq<bool>, texture_bound: bool)
    ensures
        run_allowed(is_run, ready, bound_after(texture_bound, spec_prepare(texture_bound))),
        spec_prepare(bound_after(texture_bound, spec_prepare(texture_bound)))
            == TextureAction::Keep,
{
}

/// The passes of a tick are the stages, in order, up to the first pipeline that is
/// not ready: every recorded stage is ready and, when fewer than all stages are
/// recorded by a running node, the next one is not.
pub proof fn law_passes_stop_at_first_unready(is_run: bool, ready: Seq<bool>)
    requires
        ready.len() == 4,
    ensures
        spec_pass_count(is_run, ready) <= 4,
        forall|k: int| 0 <= k < spec_pass_count(is_run, ready) ==> #[trigger] ready[k],
        is_run && spec_pass_count(is_run, ready) < 4 ==> !ready[spec_pass_count(
            is_run,
            ready,
        ) as int],
        !is_run ==> spec_pass_count(is_run, ready) == 0,
        is_run && ready =~= seq![true, true, true, true] ==> spec_pass_count(is_run, ready) == 4,
{
}

/// A steering value is a move left, a move right, or none.
pub open spec fn is_steering(pos: i32) -> bool {
    pos == -1 || pos == 0 || pos == 1
}

/// Key requests are steering values, and the steering handed to the shaders stays a
/// steering value when the stored request is one (it starts at 0).
pub proof fn law_steering_stays_unit(
    a: bool,
    left: bool,
    d: bool,
    right: bool,
    input_recent: bool,
    stored: i32,
)
    requires
        is_steering(stored),
    ensures
        spec_key_direction(a, left, d, right) matches Some(p) ==> is_steering(p) && p != 0,
        is_steering(spec_touch_pos(input_recent, stored)),
{
}

/// How the shaders reach each buffer: the simulation parameters are a uniform, every
/// other buffer is read-write storage.
pub open spec fn role_kind(role: BufferRole) -> BufferKind {
    match role {
        BufferRole::SimParams => BufferKind::Uniform,
        _ => BufferKind::Storage { read_only: false },
    }
}

/// Each entry of a group binds a buffer that its layout entry can take: the binding
/// kind is the buffer's kind.
pub open spec fn roles_fit_layout(g: Seq<GroupEntry>, l: Seq<BufferLayoutEntry>) -> bool {
    &&& g.len() == l.len()
    &&& forall|i: int| 0 <= i < g.len() ==> l[i].kind == role_kind((#[trigger] g[i]).buffer)
}

/// Every group binds, at each binding, a buffer of the kind its layout asks for, and
/// the buffers are the ones the shaders expect there: the cell buffer, timer, touch
/// parameters and block in the cube data group, the simulation parameters alone in
/// their group, and the two index buffers (second one first) in the index group. The
/// index bindings are sized for one `Index`.
pub proof fn law_groups_bind_the_right_buffers(
    timer_min: u64,
    touch_min: u64,
    block_min: u64,
    params_min: u64,
)
    ensures
        roles_fit_layout(
            spec_cube_data_group(),
            spec_cube_data_layout(timer_min, touch_min, block_min),
        ),
        roles_fit_layout(spec_sim_params_group(), spec_sim_params_layout(params_min)),
        roles_fit_layout(spec_index_group(), spec_index_layout()),
        spec_cube_data_group().len() == 4,
        spec_cube_data_group()[0] == (GroupEntry { binding: 0, buffer: BufferRole::CubeCells }),
        spec_cube_data_group()[1] == (GroupEntry { binding: 1, buffer: BufferRole::Timer }),
        spec_cube_data_group()[2] == (GroupEntry { binding: 2, buffer: BufferRole::Touch }),
        spec_cube_data_group()[3] == (GroupEntry { binding: 3, buffer: BufferRole::Block }),
        spec_sim_params_group() == seq![
            GroupEntry { binding: 0, buffer: BufferRole::SimParams },
        ],
        spec_index_group() == seq![
            GroupEntry { binding: 0, buffer: BufferRole::IndexPong },
            GroupEntry { binding: 1, buffer: BufferRole::Index },
        ],
        forall|i: int|
            0 <= i < spec_index_layout().len() ==> (#[trigger] spec_index_layout()[i]).min_size
                == Some(INDEX_BYTES),
        INDEX_BYTES == 4,
{
    assert(spec_sim_params_group() =~= seq![
        GroupEntry { binding: 0, buffer: BufferRole::SimParams },
    ]);
    assert(spec_index_group() =~= seq![
        GroupEntry { binding: 0, buffer: BufferRole::IndexPong },
        GroupEntry { binding: 1, buffer: BufferRole::Index },
    ]);
}

/// No layout the resources describe asks for a dynamic offset (no pass supplies one),
/// and each has the bindings 0, 1, ... in order.
pub proof fn law_layouts_have_no_dynamic_offsets(
    timer_min: u64,
    touch_min: u64,
    block_min: u64,
    params_min: u64,
)
    ensures
        forall|i: int|
            0 <= i < spec_cube_data_layout(timer_min, touch_min, block_min).len() ==> !(
            #[trigger] spec_cube_data_layout(timer_min, touch_min, block_min)[i]).has_dynamic_offset
                && spec_cube_data_layout(timer_min, touch_min, block_min)[i].binding == i,
        forall|i: int|
            0 <= i < spec_sim_params_layout(params_min).len() ==> !(
            #[trigger] spec_sim_params_layout(params_min)[i]).has_dynamic_offset
                && spec_sim_params_layout(params_min)[i].binding == i,
        forall|i: int|
            0 <= i < spec_index_layout().len() ==> !(
            #[trigger] spec_index_layout()[i]).has_dynamic_offset && spec_index_layout()[i].binding
                == i,
        spec_cube_data_layout(timer_min, touch_min, block_min).len() == 4,
        spec_sim_params_layout(params_min).len() == 1,
        spec_index_layout().len() == 2,
{
}

/// On a due tick the steering the player asked for reaches the shaders unchanged
/// whenever it is recent, whatever its value; only a stale request is dropped (to 0).
/// Both index buffers restart at 0 and the block is not touching yet.
pub proof fn law_recent_steering_reaches_shaders(input_recent: bool, input_pos: i32)
    ensures
        input_recent ==> spec_tick_writes(input_recent, input_pos).touch.pos == input_pos,
        !input_recent ==> spec_tick_writes(input_recent, input_pos).touch.pos == 0,
        spec_tick_writes(input_recent, input_pos).index.index == 0,
        spec_tick_writes(input_recent, input_pos).index_pong.index == 0,
        spec_tick_writes(input_recent, input_pos).touch.is_touch == 0,
{
}

/// Every stage dispatches at least one workgroup in each dimension: two along x for
/// the simulation step and exactly one for every other stage.
pub proof fn law_every_stage_dispatches_work(stage: Stage)
    ensures
        stage.spec_workgroups().0 >= 1 && stage.spec_workgroups().1 >= 1
            && stage.spec_workgroups().2 >= 1,
        stage is Simulate ==> stage.spec_workgroups() == (2u32, 1u32, 1u32),
        !(stage is Simulate) ==> stage.spec_workgroups() == (1u32, 1u32, 1u32),
{
}

/// The stages run in the order simulate, move the cube, push it in, check and spawn,
/// with the shader functions `main`, `main_cube`, `push_in` and `check_and_spawn`.
pub proof fn law_stage_order()
    ensures
        stage_at(0) is Simulate && stage_at(1) is MoveCube && stage_at(2) is PushIn
            && stage_at(3) is CheckAndSpawn,
        Stage::Simulate.spec_entry_point() == "main"@,
        Stage::MoveCube.spec_entry_point() == "main_cube"@,
        Stage::PushIn.spec_entry_point() == "push_in"@,
        Stage::CheckAndSpawn.spec_entry_point() == "check_and_spawn"@,
        spec_pipeline_layout() == seq![
            crate::pipeline::Group::SimParams,
            crate::pipeline::Group::CubeData,
            crate::pipeline::Group::Index,
            crate::pipeline::Group::Texture,
        ],
{
}

/// Left keys win: with `A` or the left arrow held the request is -1 whatever the
/// right keys do; otherwise `D` or the right arrow ask for +1; no key, no request.
pub proof fn law_left_wins(a: bool, left: bool, d: bool, right: bool)
    ensures
        a || left ==> spec_key_direction(a, left, d, right) == Some(-1i32),
        !(a || left) && (d || right) ==> spec_key_direction(a, left, d, right) == Some(1i32),
        !(a || left || d || right) ==> spec_key_direction(a, left, d, right) is None,
        spec_key_direction(a, left, d, right) is Some <==> (a || left || d || right),
{
}

/// The texture group is created exactly when it is missing.
pub proof fn law_texture_created_only_when_missing(texture_bound: bool)
    ensures
        texture_bound ==> spec_prepare(texture_bound) is Keep,
        !texture_bound ==> spec_prepare(texture_bound) is Create,
{
}

/// The grid image is the grid's size, 100 by 200, in the texture layout's
/// four-channel float format, filled with whole 16-byte pixels.
pub proof fn law_grid_image_literal(grid: ImageSpec)
    requires
        image_of(grid, TexelFormat::Rgba32Float, spec_grid_fill()),
    ensures
        grid.width == 100 && grid.height == 200 && grid.depth == 1,
        spec_texture_layout().format is Rgba32Float,
        grid.fill@.len() == 16,
        grid.format.spec_pixel_bytes() == 16,
{
}

} // verus!
