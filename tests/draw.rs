use scene_core::draw::{
    frame_passes, plan_light_draws, plan_model_draws, ColorLoad, ColorTarget, DepthLoad, DrawCall,
    MeshInfo, PassContent, TONEMAP_INSTANCE_COUNT, TONEMAP_VERTEX_COUNT,
};

#[test]
fn frame_has_three_passes_with_tonemap_last() {
    let p = frame_passes();
    assert_eq!(p.len(), 3);
    assert_eq!(p[0].content, PassContent::LightMarker);
    assert_eq!(p[0].target, ColorTarget::Hdr);
    assert_eq!(p[0].color, ColorLoad::Clear);
    assert_eq!(p[0].depth, DepthLoad::ClearFarthest);
    assert_eq!(p[1].content, PassContent::InstancedModel);
    assert_eq!(p[1].target, ColorTarget::Hdr);
    assert_eq!(p[1].color, ColorLoad::Load);
    assert_eq!(p[1].depth, DepthLoad::Keep);
    assert_eq!(p[2].content, PassContent::Tonemap);
    assert_eq!(p[2].target, ColorTarget::Surface);
    assert_eq!(p[2].color, ColorLoad::Load);
    assert_eq!(p[2].depth, DepthLoad::Unused);
    assert_eq!((TONEMAP_VERTEX_COUNT, TONEMAP_INSTANCE_COUNT), (3, 1));
}

#[test]
fn model_draws_one_call_per_mesh() {
    let meshes = vec![
        MeshInfo { index_count: 36, material: 0 },
        MeshInfo { index_count: 12, material: 1 },
    ];
    let d = plan_model_draws(&meshes, 2, 0, 100).unwrap();
    assert_eq!(
        d,
        vec![
            DrawCall { mesh: 0, material: Some(0), index_count: 36, first_instance: 0, end_instance: 100 },
            DrawCall { mesh: 1, material: Some(1), index_count: 12, first_instance: 0, end_instance: 100 },
        ]
    );
}

#[test]
fn model_draws_refuse_missing_material() {
    let meshes = vec![
        MeshInfo { index_count: 36, material: 0 },
        MeshInfo { index_count: 12, material: 2 },
    ];
    assert_eq!(plan_model_draws(&meshes, 2, 0, 1), None);
    assert_eq!(plan_model_draws(&vec![], 0, 0, 1), Some(vec![]));
}

#[test]
fn light_draws_skip_materials() {
    let meshes = vec![MeshInfo { index_count: 36, material: 5 }];
    assert_eq!(
        plan_light_draws(&meshes, 0, 1),
        vec![DrawCall { mesh: 0, material: None, index_count: 36, first_instance: 0, end_instance: 1 }]
    );
}
