//! The draw plan of a frame: the passes in their order, with what each clears or keeps,
//! and the indexed draw calls that draw a model mesh by mesh.
//!
//! The scene is drawn into the offscreen HDR target: first the marker that shows the
//! light, into a cleared colour target and a depth buffer cleared to the farthest value;
//! then the instanced model, which keeps both, so that the two passes share depth. Last,
//! the tonemap pass draws one full-screen triangle (three vertices made up in the shader,
//! one instance) onto the surface image, which it loads rather than clears.
use vstd::prelude::*;

verus! {

/// The vertices of the full-screen triangle of the tonemap pass.
pub const TONEMAP_VERTEX_COUNT: u32 = 3;

/// The instances of the full-screen triangle of the tonemap pass.
pub const TONEMAP_INSTANCE_COUNT: u32 = 1;

#[derive(Clone, Copy, Debug, PartialEq, Eq, Structural)]
pub enum ColorTarget {
    /// The offscreen floating-point target.
    Hdr,
    /// The surface image that is presented.
    Surface,
}

#[derive(Clone, Copy, Debug, PartialEq, Eq, Structural)]
pub enum ColorLoad {
    Clear,
    Load,
}

#[derive(Clone, Copy, Debug, PartialEq, Eq, Structural)]
pub enum DepthLoad {
    /// Clear the depth buffer to the farthest depth.
    ClearFarthest,
    /// Keep what earlier passes of the frame wrote.
    Keep,
    /// The pass has no depth attachment.
    Unused,
}

#[derive(Clone, Copy, Debug, PartialEq, Eq, Structural)]
pub enum PassContent {
    LightMarker,
    InstancedModel,
    Tonemap,
}

#[derive(Clone, Copy, Debug, PartialEq, Eq, Structural)]
pub struct PassPlan {
    pub target: ColorTarget,
    pub color: ColorLoad,
    pub depth: DepthLoad,
    pub content: PassContent,
}

pub open spec fn frame_plan() -> Seq<PassPlan> {
    seq![
        PassPlan {
            target: ColorTarget::Hdr,
            color: ColorLoad::Clear,
            depth: DepthLoad::ClearFarthest,
            content: PassContent::LightMarker,
        },
        PassPlan {
            target: ColorTarget::Hdr,
            color: ColorLoad::Load,
            depth: DepthLoad::Keep,
            content: PassContent::InstancedModel,
        },
        PassPlan {
            target: ColorTarget::Surface,
            color: ColorLoad::Load,
            depth: DepthLoad::Unused,
            content: PassContent::Tonemap,
        },
    ]
}

/// The passes of one frame, in the order in which they are recorded.
pub fn frame_passes() -> (r: Vec<PassPlan>)
    ensures
        r@ == frame_plan(),
{
    let mut passes: Vec<PassPlan> = Vec::new();
    passes.push(
        PassPlan {
            target: ColorTarget::Hdr,
            color: ColorLoad::Clear,
            depth: DepthLoad::ClearFarthest,
            content: PassContent::LightMarker,
        },
    );
    passes.push(
        PassPlan {
            target: ColorTarget::Hdr,
            color: ColorLoad::Load,
            depth: DepthLoad::Keep,
            content: PassContent::InstancedModel,
        },
    );
    passes.push(
        PassPlan {
            target: ColorTarget::Surface,
            color: ColorLoad::Load,
            depth: DepthLoad::Unused,
            content: PassContent::Tonemap,
        },
    );
    assert(passes@ =~= frame_plan());
    passes
}

/// What the draw plan needs of a mesh: how many indices it draws and which material of
/// its model it uses.
#[derive(Clone, Copy, Debug, PartialEq, Eq, Structural)]
pub struct MeshInfo {
    pub index_count: u32,
    pub material: usize,
}

/// One indexed draw: mesh `mesh` of the model, bound with material `material` (none for
/// the light marker, which has no textures), indices `0..index_count`, instances
/// `first_instance..end_instance`.
#[derive(Clone, Copy, Debug, PartialEq, Eq, Structural)]
pub struct DrawCall {
    pub mesh: usize,
    pub material: Option<usize>,
    pub index_count: u32,
    pub first_instance: u32,
    pub end_instance: u32,
}

pub open spec fn materials_exist(meshes: Seq<MeshInfo>, material_count: int) -> bool {
    forall|i: int| 0 <= i < meshes.len() ==> meshes[i].material < material_count
}

pub open spec fn model_draw(m: MeshInfo, i: int, first: u32, end: u32) -> DrawCall {
    DrawCall {
        mesh: i as usize,
        material: Some(m.material),
        index_count: m.index_count,
        first_instance: first,
        end_instance: end,
    }
}

pub open spec fn light_draw(m: MeshInfo, i: int, first: u32, end: u32) -> DrawCall {
    DrawCall {
        mesh: i as usize,
        material: None,
        index_count: m.index_count,
        first_instance: first,
        end_instance: end,
    }
}

/// The draws of a model with its materials, one per mesh in order, each over the
/// instances `first..end`; none when a mesh refers to a material that the model lacks.
pub fn plan_model_draws(meshes: &Vec<MeshInfo>, material_count: usize, first: u32, end: u32) -> (r:
    Option<Vec<DrawCall>>)
    ensures
        r.is_some() == materials_exist(meshes@, material_count as int),
        match r {
            Some(draws) => draws@ == Seq::new(
                meshes@.len(),
                |i: int| model_draw(meshes@[i], i, first, end),
            ),
            None => true,
        },
{
    let mut draws: Vec<DrawCall> = Vec::new();
    let mut i: usize = 0;
    while i < meshes.len()
        invariant
            i <= meshes@.len(),
            draws@ == Seq::new(i as nat, |k: int| model_draw(meshes@[k], k, first, end)),
            materials_exist(meshes@.subrange(0, i as int), material_count as int),
        decreases meshes.len() - i,
    {
        let m = meshes[i];
        if m.material >= material_count {
            return None;
        }
        draws.push(
            DrawCall {
                mesh: i,
                material: Some(m.material),
                index_count: m.index_count,
                first_instance: first,
                end_instance: end,
            },
        );
        assert(materials_exist(meshes@.subrange(0, i + 1), material_count as int)) by {
            assert forall|k: int| 0 <= k < i + 1 implies #[trigger] meshes@.subrange(
                0,
                i + 1,
            )[k].material < material_count by {
                if k < i {
                    assert(meshes@.subrange(0, i + 1)[k] == meshes@.subrange(0, i as int)[k]);
                }
            }
        }
        i = i + 1;
        assert(draws@ =~= Seq::new(i as nat, |k: int| model_draw(meshes@[k], k, first, end)));
    }
    assert(meshes@.subrange(0, i as int) =~= meshes@);
    Some(draws)
}

/// The draws of the light marker: every mesh of the model in order, without materials,
/// each over the instances `first..end`.
pub fn plan_light_draws(meshes: &Vec<MeshInfo>, first: u32, end: u32) -> (r: Vec<DrawCall>)
    ensures
        r@ == Seq::new(meshes@.len(), |i: int| light_draw(meshes@[i], i, first, end)),
{
    let mut draws: Vec<DrawCall> = Vec::new();
    let mut i: usize = 0;
    while i < meshes.len()
        invariant
            i <= meshes@.len(),
            draws@ == Seq::new(i as nat, |k: int| light_draw(meshes@[k], k, first, end)),
        decreases meshes.len() - i,
    {
        let m = meshes[i];
        draws.push(
            DrawCall {
                mesh: i,
                material: None,
                index_count: m.index_count,
                first_instance: first,
                end_instance: end,
            },
        );
        i = i + 1;
        assert(draws@ =~= Seq::new(i as nat, |k: int| light_draw(meshes@[k], k, first, end)));
    }
    draws
}

} // verus!
