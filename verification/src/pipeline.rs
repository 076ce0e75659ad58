use vstd::prelude::*;

verus! {

/// The compute stages of one simulation tick, in the order they are recorded.
pub enum Stage {
    Simulate,
    MoveCube,
    PushIn,
    CheckAndSpawn,
}

/// The bind groups (and their layouts) that the compute pipelines use.
pub enum Group {
    SimParams,
    CubeData,
    Index,
    Texture,
}

/// Number of stages in a tick.
pub const STAGE_COUNT: usize = 4;

/// The stage recorded at position `k` of a tick.
pub open spec fn stage_at(k: int) -> Stage {
    if k == 0 {
        Stage::Simulate
    } else if k == 1 {
        Stage::MoveCube
    } else if k == 2 {
        Stage::PushIn
    } else {
        Stage::CheckAndSpawn
    }
}

/// Returns the stage recorded at position `k` of a tick.
pub fn stage_at_position(k: usize) -> (s: Stage)
    requires
        k < STAGE_COUNT,
    ensures
        s == stage_at(k as int),
        k == 0 ==> s is Simulate,
        k == 1 ==> s is MoveCube,
        k == 2 ==> s is PushIn,
        k == 3 ==> s is CheckAndSpawn,
{
    if k == 0 {
        Stage::Simulate
    } else if k == 1 {
        Stage::MoveCube
    } else if k == 2 {
        Stage::PushIn
    } else {
        Stage::CheckAndSpawn
    }
}

impl Stage {
    /// Name of the shader function that runs this stage.
    pub fn entry_point(&self) -> (name: &'static str)
        ensures
            name@ == self.spec_entry_point(),
            self is Simulate ==> name@ == "main"@,
            self is MoveCube ==> name@ == "main_cube"@,
            self is PushIn ==> name@ == "push_in"@,
            self is CheckAndSpawn ==> name@ == "check_and_spawn"@,
    {
        match self {
            Stage::Simulate => "main",
            Stage::MoveCube => "main_cube",
            Stage::PushIn => "push_in",
            Stage::CheckAndSpawn => "check_and_spawn",
        }
    }

    pub open spec fn spec_entry_point(self) -> Seq<char> {
        match self {
            Stage::Simulate => "main"@,
            Stage::MoveCube => "main_cube"@,
            Stage::PushIn => "push_in"@,
            Stage::CheckAndSpawn => "check_and_spawn"@,
        }
    }

    /// Workgroups dispatched for this stage: two along x for the simulation step,
    /// one for every other stage.
    pub open spec fn spec_workgroups(self) -> (u32, u32, u32) {
        match self {
            Stage::Simulate => (2, 1, 1),
            _ => (1, 1, 1),
        }
    }

    /// Returns the workgroup counts of this stage.
    pub fn workgroups(&self) -> (w: (u32, u32, u32))
        ensures
            w == self.spec_workgroups(),
            self is Simulate ==> w == (2u32, 1u32, 1u32),
            !(self is Simulate) ==> w == (1u32, 1u32, 1u32),
    {
        match self {
            Stage::Simulate => (2, 1, 1),
            _ => (1, 1, 1),
        }
    }
}

/// Layouts every compute pipeline is created with, by group index.
pub open spec fn spec_pipeline_layout() -> Seq<Group> {
    seq![Group::SimParams, Group::CubeData, Group::Index, Group::Texture]
}

/// A compute pipeline to queue: the stage's shader entry point over the given layouts.
pub struct PipelineSpec {
    pub stage: Stage,
    pub layout: Vec<Group>,
}

fn make_layout() -> (l: Vec<Group>)
    ensures
        l@ == spec_pipeline_layout(),
{
    let mut l = Vec::new();
    l.push(Group::SimParams);
    l.push(Group::CubeData);
    l.push(Group::Index);
    l.push(Group::Texture);
    assert(l@ =~= spec_pipeline_layout());
    l
}

/// The pipelines of a tick, one per stage in stage order, each over the same four
/// layouts.
pub fn pipeline_specs() -> (p: Vec<PipelineSpec>)
    ensures
        p.len() == STAGE_COUNT,
        forall|k: int|
            0 <= k < STAGE_COUNT ==> (#[trigger] p@[k]).stage == stage_at(k) && p@[k].layout@
                == spec_pipeline_layout(),
        forall|k: int|
            0 <= k < STAGE_COUNT ==> (#[trigger] p@[k]).layout@ == seq![
                Group::SimParams,
                Group::CubeData,
                Group::Index,
                Group::Texture,
            ],
        p@[0].stage is Simulate && p@[1].stage is MoveCube && p@[2].stage is PushIn
            && p@[3].stage is CheckAndSpawn,
{
    let mut p: Vec<PipelineSpec> = Vec::new();
    let mut k: usize = 0;
    while k < STAGE_COUNT
        invariant
            k <= STAGE_COUNT,
            p.len() == k,
            forall|j: int|
                0 <= j < k ==> (#[trigger] p@[j]).stage == stage_at(j) && p@[j].layout@
                    == spec_pipeline_layout(),
        decreases STAGE_COUNT - k,
    {
        let stage = stage_at_position(k);
        let layout = make_layout();
        p.push(PipelineSpec { stage, layout });
        k = k + 1;
    }
    p
}

} // verus!
