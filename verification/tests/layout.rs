use richter_render::layout::{
    bind_group_descriptors, bind_group_layout_descriptors, pipeline_layout_slot, Binding,
    BindingResource, BindingType, BindGroupLayoutEntry, ShaderStage, SHARED_LAYOUT_COUNT,
};
use richter_render::pipeline::{
    chain_layouts, create_pipeline, create_render_pipeline, IndexFormat, PrimitiveTopology,
};
use richter_render::{BindGroupLayoutId, RenderErrorKind};

#[test]
fn layout_ids_are_numbered_in_order() {
    assert_eq!(BindGroupLayoutId::PerFrame.index(), 0);
    assert_eq!(BindGroupLayoutId::PerEntity.index(), 1);
    assert_eq!(BindGroupLayoutId::PerTexture.index(), 2);
    assert_eq!(BindGroupLayoutId::PerFace.index(), 3);
    for i in 0..4 {
        assert_eq!(BindGroupLayoutId::from_index(i).unwrap().index(), i);
    }
    assert_eq!(BindGroupLayoutId::from_index(4), None);
    assert_eq!(BindGroupLayoutId::from_index(usize::MAX), None);
}

#[test]
fn the_first_two_layouts_are_shared() {
    assert_eq!(SHARED_LAYOUT_COUNT, 2);
    assert!(BindGroupLayoutId::PerFrame.is_shared());
    assert!(BindGroupLayoutId::PerEntity.is_shared());
    assert!(!BindGroupLayoutId::PerTexture.is_shared());
    assert!(!BindGroupLayoutId::PerFace.is_shared());
}

#[test]
fn own_layouts_are_offset_past_the_shared_ones() {
    assert_eq!(pipeline_layout_slot(BindGroupLayoutId::PerTexture, 2), Some(0));
    assert_eq!(pipeline_layout_slot(BindGroupLayoutId::PerFace, 2), Some(1));
    assert_eq!(pipeline_layout_slot(BindGroupLayoutId::PerTexture, 1), Some(0));
    assert_eq!(pipeline_layout_slot(BindGroupLayoutId::PerFace, 1), None);
    assert_eq!(pipeline_layout_slot(BindGroupLayoutId::PerTexture, 0), None);
    assert_eq!(pipeline_layout_slot(BindGroupLayoutId::PerFrame, 2), None);
    assert_eq!(pipeline_layout_slot(BindGroupLayoutId::PerEntity, 2), None);
}

#[test]
fn shared_layout_table() {
    let layouts = bind_group_layout_descriptors::<[f32; 320], [[f32; 4]; 4]>().unwrap();
    assert_eq!(layouts.len(), 2);
    assert_eq!(layouts[0].label, "per-frame bind group");
    assert_eq!(
        layouts[0].bindings,
        vec![BindGroupLayoutEntry {
            binding: 0,
            visibility: ShaderStage {
                vertex: true,
                fragment: true,
                compute: true
            },
            ty: BindingType::UniformBuffer {
                dynamic: false,
                min_binding_size: 1280
            },
        }]
    );
    assert_eq!(layouts[1].label, "brush per-entity bind group");
    let vertex = ShaderStage {
        vertex: true,
        fragment: false,
        compute: false,
    };
    let fragment = ShaderStage {
        vertex: false,
        fragment: true,
        compute: false,
    };
    assert_eq!(
        layouts[1].bindings,
        vec![
            BindGroupLayoutEntry {
                binding: 0,
                visibility: vertex,
                ty: BindingType::UniformBuffer {
                    dynamic: true,
                    min_binding_size: 64
                },
            },
            BindGroupLayoutEntry {
                binding: 1,
                visibility: fragment,
                ty: BindingType::Sampler { comparison: false },
            },
            BindGroupLayoutEntry {
                binding: 2,
                visibility: fragment,
                ty: BindingType::Sampler { comparison: false },
            },
        ]
    );
}

#[test]
fn shared_layout_table_needs_uniforms_with_bytes() {
    assert_eq!(
        bind_group_layout_descriptors::<(), u32>().unwrap_err().kind(),
        RenderErrorKind::ZeroSizedBlock
    );
    assert_eq!(
        bind_group_layout_descriptors::<u32, ()>().unwrap_err().kind(),
        RenderErrorKind::ZeroSizedBlock
    );
}

#[test]
fn shared_bind_groups() {
    let groups = bind_group_descriptors(256);
    assert_eq!(groups.len(), 2);
    assert_eq!(groups[0].label, "per-frame bind group");
    assert_eq!(groups[0].layout, BindGroupLayoutId::PerFrame);
    assert_eq!(
        groups[0].bindings,
        vec![Binding {
            binding: 0,
            resource: BindingResource::FrameUniformBuffer
        }]
    );
    assert_eq!(groups[1].label, "brush per-entity bind group");
    assert_eq!(groups[1].layout, BindGroupLayoutId::PerEntity);
    assert_eq!(
        groups[1].bindings,
        vec![
            Binding {
                binding: 0,
                resource: BindingResource::EntityUniformBuffer { size: 256 }
            },
            Binding {
                binding: 1,
                resource: BindingResource::DiffuseSampler
            },
            Binding {
                binding: 2,
                resource: BindingResource::LightmapSampler
            },
        ]
    );
}

#[test]
fn shared_bind_groups_fill_the_shared_layouts() {
    let layouts = bind_group_layout_descriptors::<[f32; 320], [[f32; 4]; 4]>().unwrap();
    let groups = bind_group_descriptors(256);
    for (group, layout) in groups.iter().zip(layouts.iter()) {
        assert_eq!(group.bindings.len(), layout.bindings.len());
        for (binding, entry) in group.bindings.iter().zip(layout.bindings.iter()) {
            assert_eq!(binding.binding, entry.binding);
        }
    }
}

#[test]
fn pipeline_layouts_are_the_prefix_then_its_own() {
    let prefix = vec!["frame", "entity"];
    let own = vec!["texture", "face"];
    let all = chain_layouts(&prefix, &own);
    assert_eq!(all, vec![&"frame", &"entity", &"texture", &"face"]);
    let none: Vec<&str> = Vec::new();
    assert_eq!(chain_layouts(&none, &own), vec![&"texture", &"face"]);
    assert_eq!(chain_layouts(&prefix, &none), vec![&"frame", &"entity"]);
    assert!(chain_layouts(&none, &none).is_empty());
}

#[test]
fn pipeline_plan_with_a_prefix() {
    let prefix = vec![10u8, 11];
    let own = vec![12u8];
    let vertex = vec![1u32, 2, 3];
    let fragment = vec![4u32];
    let plan = create_pipeline(
        &prefix,
        &own,
        &vertex,
        &fragment,
        PrimitiveTopology::TriangleList,
    );
    assert_eq!(plan.bind_group_layouts, vec![&10, &11, &12]);
    assert_eq!(plan.vertex_stage.module, &vertex);
    assert_eq!(plan.vertex_stage.entry_point, "main");
    assert_eq!(plan.fragment_stage.module, &fragment);
    assert_eq!(plan.fragment_stage.entry_point, "main");
    assert_eq!(plan.primitive_topology, PrimitiveTopology::TriangleList);
    assert_eq!(plan.index_format, IndexFormat::Uint32);
    assert_eq!(plan.sample_count, 1);
    assert_eq!(plan.sample_mask, !0);
    assert!(!plan.alpha_to_coverage_enabled);
}

#[test]
fn pipeline_plan_over_given_layouts() {
    let a = 'a';
    let b = 'b';
    let vertex = "vs";
    let fragment = "fs";
    let plan = create_render_pipeline(
        vec![&b, &a],
        &vertex,
        &fragment,
        PrimitiveTopology::TriangleStrip,
    );
    assert_eq!(plan.bind_group_layouts, vec![&'b', &'a']);
    assert_eq!(*plan.vertex_stage.module, "vs");
    assert_eq!(*plan.fragment_stage.module, "fs");
    assert_eq!(plan.vertex_stage.entry_point, "main");
    assert_eq!(plan.fragment_stage.entry_point, "main");
    assert_eq!(plan.primitive_topology, PrimitiveTopology::TriangleStrip);
    assert_eq!(plan.index_format, IndexFormat::Uint32);
    assert_eq!(plan.sample_count, 1);
    assert_eq!(plan.sample_mask, 0xFFFF_FFFF);
    assert!(!plan.alpha_to_coverage_enabled);
}
