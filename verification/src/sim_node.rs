use vstd::prelude::*;
use crate::gpu_data::{Index, TouchParams};
use crate::pipeline::{Group, Stage, STAGE_COUNT, stage_at, stage_at_position};

verus! {

/// What a due tick writes to the GPU before the passes run: both index buffers are
/// reset and the touch parameters carry the steering to apply.
pub struct TickWrites {
    pub index: Index,
    pub index_pong: Index,
    pub touch: TouchParams,
}

/// Steering handed to the shaders: the last key request if it is recent, else none.
pub open spec fn spec_touch_pos(input_recent: bool, input_pos: i32) -> i32 {
    if input_recent {
        input_pos
    } else {
        0
    }
}

pub open spec fn spec_tick_writes(input_recent: bool, input_pos: i32) -> TickWrites {
    TickWrites {
        index: Index { index: 0 },
        index_pong: Index { index: 0 },
        touch: TouchParams { is_touch: 0, pos: spec_touch_pos(input_recent, input_pos) },
    }
}

/// The bind groups a recorded pass sets, by group index.
pub open spec fn spec_pass_bind_groups() -> Seq<Group> {
    seq![Group::SimParams, Group::CubeData, Group::Index, Group::Texture]
}

/// One compute pass to record: the stage's pipeline with its bind groups set by
/// group index, dispatched over `workgroups`.
pub struct ComputePass {
    pub stage: Stage,
    pub bind_groups: Vec<Group>,
    pub workgroups: (u32, u32, u32),
}

/// Number of leading stages whose pipelines are ready.
pub open spec fn leading_ready(ready: Seq<bool>) -> nat
    recommends
        ready.len() == STAGE_COUNT,
{
    if !ready[0] {
        0
    } else if !ready[1] {
        1
    } else if !ready[2] {
        2
    } else if !ready[3] {
        3
    } else {
        4
    }
}

/// Number of passes a tick records: none unless the node runs this frame, else one
/// per stage up to the first whose pipeline is not ready yet.
pub open spec fn spec_pass_count(is_run: bool, ready: Seq<bool>) -> nat {
    if is_run {
        leading_ready(ready)
    } else {
        0
    }
}

/// Recording passes needs the texture group whenever a pass will be recorded.
pub open spec fn run_allowed(is_run: bool, ready: Seq<bool>, texture_bound: bool) -> bool {
    is_run && ready[0] ==> texture_bound
}

/// The pass recorded for `stage`.
pub open spec fn is_pass_for(p: ComputePass, stage: Stage) -> bool {
    &&& p.stage == stage
    &&& p.bind_groups@ == spec_pass_bind_groups()
    &&& p.workgroups == stage.spec_workgroups()
}

fn make_pass(stage: Stage) -> (p: ComputePass)
    ensures
        is_pass_for(p, stage),
{
    let mut groups = Vec::new();
    groups.push(Group::SimParams);
    groups.push(Group::CubeData);
    groups.push(Group::Index);
    groups.push(Group::Texture);
    assert(groups@ =~= spec_pass_bind_groups());
    let workgroups = stage.workgroups();
    ComputePass { stage, bind_groups: groups, workgroups }
}

/// The render graph node that drives the simulation: it decides once per frame
/// whether a tick is due and, if so, which compute passes to record.
pub struct CubeSimNode {
    pub is_run: bool,
}

/// What to do about the texture bind group before rendering.
pub enum TextureAction {
    Keep,
    Create,
}

pub open spec fn spec_prepare(texture_bound: bool) -> TextureAction {
    if texture_bound {
        TextureAction::Keep
    } else {
        TextureAction::Create
    }
}

/// Whether the texture group exists after `action` was carried out.
pub open spec fn bound_after(texture_bound: bool, action: TextureAction) -> bool {
    texture_bound || action is Create
}

/// Creates the texture bind group once, from the grid image, when it is still missing.
/// The image must be loaded on the GPU by then.
pub fn prepare_bind_group(texture_bound: bool, image_loaded: bool) -> (a: TextureAction)
    requires
        texture_bound || image_loaded,
    ensures
        a == spec_prepare(texture_bound),
        texture_bound ==> a is Keep,
        !texture_bound ==> a is Create,
{
    if texture_bound {
        TextureAction::Keep
    } else {
        TextureAction::Create
    }
}

impl CubeSimNode {
    /// A node that has not run a tick yet.
    pub fn new() -> (n: Self)
        ensures
            !n.is_run,
    {
        CubeSimNode { is_run: false }
    }

    /// One frame's update. `due` says whether the tick interval has elapsed,
    /// `input_recent` whether the last key request is recent enough to apply and
    /// `input_pos` that request. A due tick runs the passes and returns the buffer
    /// writes to make first; otherwise nothing is written and no pass runs.
    pub fn update(&mut self, due: bool, input_recent: bool, input_pos: i32) -> (w: Option<
        TickWrites,
    >)
        ensures
            final(self).is_run == due,
            due ==> w == Some(spec_tick_writes(input_recent, input_pos)),
            !due ==> w is None,
            due ==> (w matches Some(t) && t.index.index == 0 && t.index_pong.index == 0
                && t.touch.is_touch == 0),
            due && input_recent ==> (w matches Some(t) && t.touch.pos == input_pos),
            due && !input_recent ==> (w matches Some(t) && t.touch.pos == 0),
    {
        if due {
            self.is_run = true;
            let pos = if input_recent {
                input_pos
            } else {
                0
            };
            Some(
                TickWrites {
                    index: Index { index: 0 },
                    index_pong: Index { index: 0 },
                    touch: TouchParams { is_touch: 0, pos },
                },
            )
        } else {
            self.is_run = false;
            None
        }
    }

    /// The passes to record this frame, given which stage pipelines are ready, in
    /// stage order. Recording stops at the first pipeline that is not ready.
    pub fn run(&self, ready: [bool; 4], texture_bound: bool) -> (passes: Vec<ComputePass>)
        requires
            run_allowed(self.is_run, ready@, texture_bound),
        ensures
            passes.len() == spec_pass_count(self.is_run, ready@),
            forall|k: int| 0 <= k < passes.len() ==> is_pass_for(#[trigger] passes@[k], stage_at(k)),
            !self.is_run ==> passes.len() == 0,
            passes.len() <= 4,
            forall|k: int| 0 <= k < passes.len() ==> #[trigger] ready@[k],
            self.is_run && passes.len() < 4 ==> !ready@[passes.len() as int],
            forall|k: int|
                0 <= k < passes.len() ==> (#[trigger] passes@[k]).bind_groups@ == seq![
                    Group::SimParams,
                    Group::CubeData,
                    Group::Index,
                    Group::Texture,
                ],
            forall|k: int|
                0 <= k < passes.len() ==> (#[trigger] passes@[k]).workgroups == if k == 0 {
                    (2u32, 1u32, 1u32)
                } else {
                    (1u32, 1u32, 1u32)
                },
            forall|k: int|
                0 <= k < passes.len() ==> (#[trigger] passes@[k]).stage == if k == 0 {
                    Stage::Simulate
                } else if k == 1 {
                    Stage::MoveCube
                } else if k == 2 {
                    Stage::PushIn
                } else {
                    Stage::CheckAndSpawn
                },
    {
        let mut passes: Vec<ComputePass> = Vec::new();
        if !self.is_run {
            return passes;
        }
        let mut k: usize = 0;
        while k < STAGE_COUNT
            invariant
                k <= STAGE_COUNT,
                passes.len() == k,
                forall|j: int| 0 <= j < k ==> ready@[j],
                forall|j: int| 0 <= j < k ==> is_pass_for(#[trigger] passes@[j], stage_at(j)),
            ensures
                passes.len() == leading_ready(ready@),
                forall|j: int|
                    0 <= j < passes.len() ==> is_pass_for(#[trigger] passes@[j], stage_at(j)),
            decreases STAGE_COUNT - k,
        {
            if !ready[k] {
                break;
            }
            let stage = stage_at_position(k);
            passes.push(make_pass(stage));
            k = k + 1;
        }
        passes
    }
}

} // verus!
