use scene_renderer::{
    global_bindings, instance_layout, local_bindings, model_vertex_layout, BindingType,
    ShaderStages, VertexFormat, VertexStepMode, GLOBALS_SIZE, LIGHT_UNIFORM_SIZE, LOCALS_SIZE,
};

#[test]
fn model_vertex_layout_packs_three_attributes() {
    let l = model_vertex_layout();
    assert_eq!(l.array_stride, 32);
    assert_eq!(l.step_mode, VertexStepMode::Vertex);
    let offsets: Vec<(u64, u32)> = l.attributes.iter().map(|a| (a.offset, a.shader_location)).collect();
    assert_eq!(offsets, vec![(0, 0), (12, 1), (20, 2)]);
    assert_eq!(l.attributes[1].format, VertexFormat::Float32x2);
}

#[test]
fn instance_layout_holds_a_matrix() {
    let l = instance_layout();
    assert_eq!(l.array_stride, 64);
    assert_eq!(l.step_mode, VertexStepMode::Instance);
    let offsets: Vec<(u64, u32)> = l.attributes.iter().map(|a| (a.offset, a.shader_location)).collect();
    assert_eq!(offsets, vec![(0, 5), (16, 6), (32, 7), (48, 8)]);
}

#[test]
fn bind_group_layouts() {
    let g = global_bindings();
    assert_eq!(g.len(), 3);
    assert_eq!(g[0].ty, BindingType::UniformBuffer { min_binding_size: GLOBALS_SIZE });
    assert_eq!(g[1].ty, BindingType::UniformBuffer { min_binding_size: LIGHT_UNIFORM_SIZE });
    assert_eq!(g[2].ty, BindingType::Sampler);
    assert_eq!(g[2].visibility, ShaderStages::Fragment);
    assert_eq!(GLOBALS_SIZE, 96);
    let l = local_bindings();
    assert_eq!(l.len(), 2);
    assert_eq!(l[0].ty, BindingType::UniformBuffer { min_binding_size: LOCALS_SIZE });
    assert_eq!(l[1].binding, 1);
    assert_eq!(l[1].ty, BindingType::Texture2d);
}
