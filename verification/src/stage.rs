//! The three compute stages and their dispatch arithmetic.

use vstd::prelude::*;

verus! {

/// The least number of groups of `group` items that cover `items` items.
pub open spec fn groups_needed(items: int, group: int) -> int {
    (items + group - 1) / group
}

/// `groups_needed` is the ceiling of the quotient: the groups cover all the
/// items, and one group fewer would not.
pub proof fn lemma_groups_needed_is_ceiling(items: int, group: int)
    by (nonlinear_arith)
    requires
        0 <= items,
        0 < group,
    ensures
        groups_needed(items, group) * group >= items,
        (groups_needed(items, group) - 1) * group < items,
        0 <= groups_needed(items, group) <= items,
{
}

/// Computes `groups_needed` for a group size that is a positive constant of
/// the pipeline.
pub fn div_ceil(items: u32, group: u32) -> (groups: u32)
    requires
        0 < group,
    ensures
        groups == groups_needed(items as int, group as int),
        (groups as int) * (group as int) >= (items as int),
        (groups as int - 1) * (group as int) < (items as int),
{
    proof {
        lemma_groups_needed_is_ceiling(items as int, group as int);
    }
    let q: u32 = items / group;
    let r: u32 = items % group;
    assert(items as int == q as int * group as int + r as int) by (nonlinear_arith)
        requires
            q == items / group,
            r == items % group,
            0 < group,
    ;
    if r == 0 {
        assert(groups_needed(items as int, group as int) == q as int) by (nonlinear_arith)
            requires
                items as int == q as int * group as int,
                0 < group,
        ;
        q
    } else {
        assert(groups_needed(items as int, group as int) == q as int + 1) by (nonlinear_arith)
            requires
                items as int == q as int * group as int + r as int,
                0 < r < group,
        ;
        q + 1
    }
}

/// The resources that the engine owns.
#[derive(Clone, Copy, Debug, PartialEq, Eq, Structural)]
pub enum Resource {
    CameraBuffer,
    PathsBuffer,
    IntersectBuffer,
    GeometryBuffer,
    ParamsBuffer0,
    ParamsBuffer1,
    DisplayTexture,
    DisplaySampler,
}

impl Resource {
    /// Whether the resource is a buffer.
    pub open spec fn spec_is_buffer(&self) -> bool {
        *self != Resource::DisplayTexture && *self != Resource::DisplaySampler
    }

    /// Whether the resource is a buffer.
    #[verifier::when_used_as_spec(spec_is_buffer)]
    pub fn is_buffer(&self) -> (b: bool)
        ensures
            b == self.spec_is_buffer(),
    {
        match self {
            Resource::DisplayTexture => false,
            Resource::DisplaySampler => false,
            _ => true,
        }
    }

    /// Whether the resource is filled when the engine is built, and not
    /// written by any stage afterwards.
    pub open spec fn spec_is_uploaded(&self) -> bool {
        ||| *self == Resource::CameraBuffer
        ||| *self == Resource::GeometryBuffer
        ||| *self == Resource::ParamsBuffer0
        ||| *self == Resource::ParamsBuffer1
    }

    /// Whether the resource is filled when the engine is built.
    #[verifier::when_used_as_spec(spec_is_uploaded)]
    pub fn is_uploaded(&self) -> (b: bool)
        ensures
            b == self.spec_is_uploaded(),
    {
        match self {
            Resource::CameraBuffer => true,
            Resource::GeometryBuffer => true,
            Resource::ParamsBuffer0 => true,
            Resource::ParamsBuffer1 => true,
            _ => false,
        }
    }
}

/// The side of the square workgroups of the two stages that run over the
/// image.
pub const TILE: u32 = 16;

/// The size of the workgroups of the stage that runs over the pixels as one
/// row.
pub const LANE: u32 = 256;

/// The three compute stages, in the order in which a frame runs them.
#[derive(Clone, Copy, Debug, PartialEq, Eq, Structural)]
pub enum Stage {
    /// Makes one ray per pixel.
    RayGen,
    /// Finds what each ray hits first.
    Intersect,
    /// Shades each pixel and writes its texel.
    Shade,
}

impl Stage {
    /// The place of the stage in a frame.
    pub open spec fn spec_position(&self) -> usize {
        match *self {
            Stage::RayGen => 0,
            Stage::Intersect => 1,
            Stage::Shade => 2,
        }
    }

    /// The place of the stage in a frame.
    #[verifier::when_used_as_spec(spec_position)]
    pub fn position(&self) -> (at: usize)
        ensures
            at == self.spec_position(),
    {
        match self {
            Stage::RayGen => 0,
            Stage::Intersect => 1,
            Stage::Shade => 2,
        }
    }

    /// The stage that runs after this one, if any does.
    pub fn next(&self) -> (after: Option<Stage>)
        ensures
            match after {
                Some(s) => s.position() == self.position() + 1,
                None => *self == Stage::Shade,
            },
    {
        match self {
            Stage::RayGen => Some(Stage::Intersect),
            Stage::Intersect => Some(Stage::Shade),
            Stage::Shade => None,
        }
    }

    /// The resources that the stage reads.
    pub open spec fn spec_reads(&self) -> Seq<Resource> {
        match *self {
            Stage::RayGen => seq![Resource::CameraBuffer],
            Stage::Intersect => seq![
                Resource::GeometryBuffer,
                Resource::PathsBuffer,
                Resource::ParamsBuffer1,
            ],
            Stage::Shade => seq![
                Resource::PathsBuffer,
                Resource::IntersectBuffer,
                Resource::ParamsBuffer0,
            ],
        }
    }

    /// The resources that the stage reads.
    pub fn reads(&self) -> (read: Vec<Resource>)
        ensures
            read@ == self.spec_reads(),
    {
        let read = match self {
            Stage::RayGen => vec![Resource::CameraBuffer],
            Stage::Intersect => vec![
                Resource::GeometryBuffer,
                Resource::PathsBuffer,
                Resource::ParamsBuffer1,
            ],
            Stage::Shade => vec![
                Resource::PathsBuffer,
                Resource::IntersectBuffer,
                Resource::ParamsBuffer0,
            ],
        };
        assert(read@ =~= self.spec_reads());
        read
    }

    /// The one resource that the stage writes.
    pub open spec fn spec_writes(&self) -> Resource {
        match *self {
            Stage::RayGen => Resource::PathsBuffer,
            Stage::Intersect => Resource::IntersectBuffer,
            Stage::Shade => Resource::DisplayTexture,
        }
    }

    /// The one resource that the stage writes.
    #[verifier::when_used_as_spec(spec_writes)]
    pub fn writes(&self) -> (written: Resource)
        ensures
            written == self.spec_writes(),
    {
        match self {
            Stage::RayGen => Resource::PathsBuffer,
            Stage::Intersect => Resource::IntersectBuffer,
            Stage::Shade => Resource::DisplayTexture,
        }
    }

    /// The resource at each binding slot of the stage, slot 0 first.
    pub open spec fn spec_slots(&self) -> Seq<Resource> {
        match *self {
            Stage::RayGen => seq![Resource::CameraBuffer, Resource::PathsBuffer],
            Stage::Intersect => seq![
                Resource::IntersectBuffer,
                Resource::GeometryBuffer,
                Resource::PathsBuffer,
                Resource::ParamsBuffer1,
            ],
            Stage::Shade => seq![
                Resource::DisplayTexture,
                Resource::DisplaySampler,
                Resource::PathsBuffer,
                Resource::ParamsBuffer0,
                Resource::IntersectBuffer,
            ],
        }
    }

    /// The resource at each binding slot of the stage, slot 0 first.
    pub fn slots(&self) -> (bound: Vec<Resource>)
        ensures
            bound@ == self.spec_slots(),
    {
        let bound = match self {
            Stage::RayGen => vec![Resource::CameraBuffer, Resource::PathsBuffer],
            Stage::Intersect => vec![
                Resource::IntersectBuffer,
                Resource::GeometryBuffer,
                Resource::PathsBuffer,
                Resource::ParamsBuffer1,
            ],
            Stage::Shade => vec![
                Resource::DisplayTexture,
                Resource::DisplaySampler,
                Resource::PathsBuffer,
                Resource::ParamsBuffer0,
                Resource::IntersectBuffer,
            ],
        };
        assert(bound@ =~= self.spec_slots());
        bound
    }

    /// The number of invocations in one workgroup, along each axis.
    pub open spec fn spec_workgroup_size(&self) -> (u32, u32, u32) {
        match *self {
            Stage::RayGen => (TILE, TILE, 1u32),
            Stage::Intersect => (LANE, 1u32, 1u32),
            Stage::Shade => (TILE, TILE, 1u32),
        }
    }

    /// The number of invocations in one workgroup, along each axis.
    #[verifier::when_used_as_spec(spec_workgroup_size)]
    pub fn workgroup_size(&self) -> (size: (u32, u32, u32))
        ensures
            size == self.spec_workgroup_size(),
    {
        match self {
            Stage::RayGen => (TILE, TILE, 1),
            Stage::Intersect => (LANE, 1, 1),
            Stage::Shade => (TILE, TILE, 1),
        }
    }

    /// The number of workgroups along each axis for an image of `width` by
    /// `height` pixels. The two stages that run over the image tile it; the
    /// intersection stage runs over all the pixels as one row.
    pub open spec fn grid(&self, width: int, height: int) -> (int, int, int) {
        match *self {
            Stage::Intersect => (groups_needed(width * height, LANE as int), 1, 1),
            _ => (groups_needed(width, TILE as int), groups_needed(height, TILE as int), 1),
        }
    }

    /// The number of workgroups along each axis for an image of `width` by
    /// `height` pixels.
    pub fn dispatch_grid(&self, width: u32, height: u32) -> (groups: (u32, u32, u32))
        requires
            *self == Stage::Intersect ==> width * height <= u32::MAX,
        ensures
            (groups.0 as int, groups.1 as int, groups.2 as int) == self.grid(
                width as int,
                height as int,
            ),
    {
        match self {
            Stage::Intersect => {
                let pixels: u32 = width * height;
                (div_ceil(pixels, LANE), 1, 1)
            },
            _ => (div_ceil(width, TILE), div_ceil(height, TILE), 1),
        }
    }

    /// The name under which the stage's compiled shader is looked up.
    pub fn shader_name(&self) -> (name: &'static str)
        ensures
            name@ == match *self {
                Stage::RayGen => "generate_paths.comp.spv"@,
                Stage::Intersect => "calculate_intersections.comp.spv"@,
                Stage::Shade => "viewer.comp.spv"@,
            },
    {
        match self {
            Stage::RayGen => "generate_paths.comp.spv",
            Stage::Intersect => "calculate_intersections.comp.spv",
            Stage::Shade => "viewer.comp.spv",
        }
    }

    /// The label of the stage's pipeline.
    pub fn label(&self) -> (name: &'static str)
        ensures
            name@ == match *self {
                Stage::RayGen => "path_gen_pipeline"@,
                Stage::Intersect => "hit_calc_pipeline"@,
                Stage::Shade => "image_pipeline"@,
            },
    {
        match self {
            Stage::RayGen => "path_gen_pipeline",
            Stage::Intersect => "hit_calc_pipeline",
            Stage::Shade => "image_pipeline",
        }
    }

    /// The entry point of every stage's shader.
    pub fn entry_point(&self) -> (name: &'static str)
        ensures
            name@ == "main"@,
    {
        "main"
    }
}

/// The workgroups of a stage cover the image: along each axis that the stage
/// runs over, the groups times the group size reach the extent, and one group
/// fewer would not.
pub proof fn lemma_grid_covers(stage: Stage, width: int, height: int)
    requires
        0 <= width,
        0 <= height,
    ensures
        stage != Stage::Intersect ==> {
            &&& stage.grid(width, height).0 * TILE >= width
            &&& (stage.grid(width, height).0 - 1) * TILE < width
            &&& stage.grid(width, height).1 * TILE >= height
            &&& (stage.grid(width, height).1 - 1) * TILE < height
        },
        stage == Stage::Intersect ==> {
            &&& stage.grid(width, height).0 * LANE >= width * height
            &&& (stage.grid(width, height).0 - 1) * LANE < width * height
            &&& stage.grid(width, height).1 == 1
        },
        stage.grid(width, height).2 == 1,
{
    assert(0 <= width * height) by (nonlinear_arith)
        requires
            0 <= width,
            0 <= height,
    ;
    lemma_groups_needed_is_ceiling(width, TILE as int);
    lemma_groups_needed_is_ceiling(height, TILE as int);
    lemma_groups_needed_is_ceiling(width * height, LANE as int);
}

/// Every resource that some stage writes has one writer.
pub proof fn lemma_single_writer(a: Stage, b: Stage)
    requires
        a.spec_writes() == b.spec_writes(),
    ensures
        a == b,
{
}

/// No stage reads what it writes, and no stage writes what was uploaded.
pub proof fn lemma_writes_are_not_read(stage: Stage, i: int)
    requires
        0 <= i < stage.spec_reads().len(),
    ensures
        stage.spec_reads()[i] != stage.spec_writes(),
        !stage.spec_writes().is_uploaded(),
{
}

/// What a stage reads is ready when the stage runs: it was uploaded when the
/// engine was built, or it is written by a stage that runs earlier in the
/// frame.
pub proof fn lemma_reads_are_ready(stage: Stage, i: int)
    requires
        0 <= i < stage.spec_reads().len(),
    ensures
        stage.spec_reads()[i].is_uploaded() || exists|earlier: Stage|
            earlier.position() < stage.position() && #[trigger] earlier.spec_writes()
                == stage.spec_reads()[i],
{
    let r = stage.spec_reads()[i];
    if r == Resource::PathsBuffer {
        assert(Stage::RayGen.spec_writes() == r);
    } else if r == Resource::IntersectBuffer {
        assert(Stage::Intersect.spec_writes() == r);
    }
}

/// The binding slots of a stage hold what the stage reads and what it
/// writes, and beside these only the sampler.
pub proof fn lemma_slots_hold_reads_and_writes(stage: Stage)
    ensures
        stage.spec_slots().contains(stage.spec_writes()),
        forall|i: int|
            0 <= i < stage.spec_reads().len() ==> stage.spec_slots().contains(
                #[trigger] stage.spec_reads()[i],
            ),
        forall|k: int|
            0 <= k < stage.spec_slots().len() ==> {
                let r = #[trigger] stage.spec_slots()[k];
                r == stage.spec_writes() || stage.spec_reads().contains(r) || r
                    == Resource::DisplaySampler
            },
{
    match stage {
        Stage::RayGen => {
            assert(stage.spec_slots()[0] == Resource::CameraBuffer);
            assert(stage.spec_slots()[1] == Resource::PathsBuffer);
            assert(stage.spec_reads()[0] == Resource::CameraBuffer);
        },
        Stage::Intersect => {
            assert(stage.spec_slots()[0] == Resource::IntersectBuffer);
            assert(stage.spec_slots()[1] == Resource::GeometryBuffer);
            assert(stage.spec_slots()[2] == Resource::PathsBuffer);
            assert(stage.spec_slots()[3] == Resource::ParamsBuffer1);
            assert(stage.spec_reads()[0] == Resource::GeometryBuffer);
            assert(stage.spec_reads()[1] == Resource::PathsBuffer);
            assert(stage.spec_reads()[2] == Resource::ParamsBuffer1);
        },
        Stage::Shade => {
            assert(stage.spec_slots()[0] == Resource::DisplayTexture);
            assert(stage.spec_slots()[1] == Resource::DisplaySampler);
            assert(stage.spec_slots()[2] == Resource::PathsBuffer);
            assert(stage.spec_slots()[3] == Resource::ParamsBuffer0);
            assert(stage.spec_slots()[4] == Resource::IntersectBuffer);
            assert(stage.spec_reads()[0] == Resource::PathsBuffer);
            assert(stage.spec_reads()[1] == Resource::IntersectBuffer);
            assert(stage.spec_reads()[2] == Resource::ParamsBuffer0);
        },
    }
}

} // verus!
