use scene_renderer::{
    Extent, Material, Mesh, Model, Node, PhongConfig, PhongPass, PipelineKind, PrimitiveTopology,
    RenderCommand, ResourceOp, DEFAULT_LIGHT_NODE, LOCALS_SIZE,
};

type TestNode = Node<u32, u32, [i32; 3], (), ()>;

fn config() -> PhongConfig {
    PhongConfig { max_lights: 1, ambient: [0, 0, 0, 0], wireframe: false }
}

fn node(mesh_elements: &[u32], instances: usize) -> TestNode {
    let meshes = mesh_elements
        .iter()
        .enumerate()
        .map(|(j, &n)| Mesh {
            name: format!("mesh{}", j),
            vertex_buffer: 2 * j as u32,
            index_buffer: 2 * j as u32 + 1,
            num_elements: n,
            material: 0,
        })
        .collect();
    Node {
        parent: 0,
        locals: (),
        model: Model {
            meshes,
            materials: vec![Material { name: "default".to_string(), diffuse_texture: 7 }],
            animations: Vec::new(),
        },
        instances: vec![(); instances],
    }
}

#[test]
fn new_pass_starts_empty() {
    let pass = PhongPass::new(&config(), 640, 480);
    assert_eq!(pass.uniform_pool().buffer_count(), 0);
    assert_eq!(pass.uniform_pool().size(), LOCALS_SIZE);
    assert_eq!(pass.uniform_pool().label(), "[Phong] Locals");
    assert_eq!(pass.light_node(), DEFAULT_LIGHT_NODE);
    assert_eq!(pass.depth_extent(), Extent { width: 640, height: 480 });
    assert!(!pass.has_bind_group(0));
    assert_eq!(pass.instance_buffer_len(0), None);
    assert!(!pass.wireframe());
}

#[test]
fn wireframe_switches_topology() {
    let mut c = config();
    assert_eq!(c.topology(), PrimitiveTopology::TriangleList);
    c.wireframe = true;
    assert_eq!(c.topology(), PrimitiveTopology::LineList);
    assert!(PhongPass::new(&c, 1, 1).wireframe());
}

#[test]
fn pool_covers_every_node_after_draw() {
    for n in [0usize, 1, 2, 5] {
        let mut pass = PhongPass::new(&config(), 640, 480);
        let nodes: Vec<TestNode> = (0..n).map(|_| node(&[3], 1)).collect();
        pass.draw(&nodes);
        assert!(pass.uniform_pool().buffer_count() >= n);
    }
}

#[test]
fn draw_sequences_light_stage_before_lit_stage() {
    let mut pass = PhongPass::new(&config(), 640, 480);
    let nodes = vec![node(&[6], 3), node(&[36], 2)];
    let plan = pass.draw(&nodes);
    assert_eq!(
        plan.resources,
        vec![
            ResourceOp::AllocUniformBuffers { count: 2 },
            ResourceOp::CreateLocalBindGroup { node: 0 },
            ResourceOp::CreateInstanceBuffer { node: 0, instance_count: 3 },
            ResourceOp::CreateLocalBindGroup { node: 1 },
            ResourceOp::CreateInstanceBuffer { node: 1, instance_count: 2 },
        ]
    );
    assert_eq!(
        plan.commands,
        vec![
            RenderCommand::SetPipeline { pipeline: PipelineKind::Light },
            RenderCommand::SetMeshBuffers { node: 1, mesh: 0 },
            RenderCommand::SetGlobalBindGroup,
            RenderCommand::SetLocalBindGroup { node: 1 },
            RenderCommand::DrawIndexed { index_count: 36, instance_count: 2 },
            RenderCommand::SetPipeline { pipeline: PipelineKind::Lit },
            RenderCommand::SetGlobalBindGroup,
            RenderCommand::SetInstanceBuffer { node: 0 },
            RenderCommand::SetMeshBuffers { node: 0, mesh: 0 },
            RenderCommand::SetLocalBindGroup { node: 0 },
            RenderCommand::DrawIndexed { index_count: 6, instance_count: 3 },
            RenderCommand::SetInstanceBuffer { node: 1 },
            RenderCommand::SetMeshBuffers { node: 1, mesh: 0 },
            RenderCommand::SetLocalBindGroup { node: 1 },
            RenderCommand::DrawIndexed { index_count: 36, instance_count: 2 },
        ]
    );
}

#[test]
fn every_mesh_of_a_node_is_drawn() {
    let mut pass = PhongPass::new(&config(), 640, 480);
    pass.set_light_node(5);
    let nodes = vec![node(&[3, 9], 4)];
    let plan = pass.draw(&nodes);
    assert_eq!(
        plan.commands,
        vec![
            RenderCommand::SetPipeline { pipeline: PipelineKind::Lit },
            RenderCommand::SetGlobalBindGroup,
            RenderCommand::SetInstanceBuffer { node: 0 },
            RenderCommand::SetMeshBuffers { node: 0, mesh: 0 },
            RenderCommand::SetLocalBindGroup { node: 0 },
            RenderCommand::DrawIndexed { index_count: 3, instance_count: 4 },
            RenderCommand::SetMeshBuffers { node: 0, mesh: 1 },
            RenderCommand::SetLocalBindGroup { node: 0 },
            RenderCommand::DrawIndexed { index_count: 9, instance_count: 4 },
        ]
    );
}

#[test]
fn redraw_reuses_cached_resources() {
    let mut pass = PhongPass::new(&config(), 640, 480);
    let nodes = vec![node(&[6], 3), node(&[36], 2), node(&[6], 1)];
    let first = pass.draw(&nodes);
    assert_eq!(first.resources.len(), 7);
    let second = pass.draw(&nodes);
    assert!(second.resources.is_empty());
    assert_eq!(second.commands, first.commands);
    assert_eq!(pass.uniform_pool().buffer_count(), 3);
    for i in 0..3 {
        assert!(pass.has_bind_group(i));
    }
    assert_eq!(pass.instance_buffer_len(2), Some(1));
}

#[test]
fn growing_the_scene_rebinds_every_node() {
    let mut pass = PhongPass::new(&config(), 640, 480);
    pass.draw(&vec![node(&[6], 3)]);
    let plan = pass.draw(&vec![node(&[6], 3), node(&[6], 5)]);
    assert_eq!(
        plan.resources,
        vec![
            ResourceOp::AllocUniformBuffers { count: 2 },
            ResourceOp::CreateLocalBindGroup { node: 0 },
            ResourceOp::CreateLocalBindGroup { node: 1 },
            ResourceOp::CreateInstanceBuffer { node: 1, instance_count: 5 },
        ]
    );
}

#[test]
fn shrinking_the_scene_keeps_the_pool() {
    let mut pass = PhongPass::new(&config(), 640, 480);
    pass.draw(&vec![node(&[6], 3), node(&[6], 5)]);
    let plan = pass.draw(&vec![node(&[6], 3)]);
    assert!(plan.resources.is_empty());
    assert_eq!(pass.uniform_pool().buffer_count(), 2);
    assert!(pass.has_bind_group(1));
}

#[test]
fn scene_without_light_node_skips_light_stage() {
    let mut pass = PhongPass::new(&config(), 640, 480);
    let plan = pass.draw(&vec![node(&[6], 1)]);
    assert_eq!(plan.commands[0], RenderCommand::SetPipeline { pipeline: PipelineKind::Lit });
    assert!(!plan
        .commands
        .contains(&RenderCommand::SetPipeline { pipeline: PipelineKind::Light }));
}

#[test]
fn resize_regenerates_depth_target() {
    let mut pass = PhongPass::new(&config(), 640, 480);
    assert!(pass.resize(800, 600));
    assert_eq!(pass.depth_extent(), Extent { width: 800, height: 600 });
    assert!(!pass.resize(0, 0));
    assert_eq!(pass.depth_extent(), Extent { width: 800, height: 600 });
    assert!(!pass.resize(0, 300));
    assert_eq!(pass.depth_extent(), Extent { width: 800, height: 600 });
}

#[test]
fn surface_extent_ignores_zero_size() {
    let mut size = Extent { width: 640, height: 480 };
    assert!(size.resize(800, 600));
    assert_eq!(size, Extent { width: 800, height: 600 });
    assert!(!size.resize(0, 0));
    assert_eq!(size, Extent { width: 800, height: 600 });
}

#[test]
fn two_node_scene_end_to_end() {
    let mut pass = PhongPass::new(&config(), 640, 480);
    let nodes = vec![node(&[6], 100), node(&[36], 2)];
    let plan = pass.draw(&nodes);
    let instance_buffers: Vec<(usize, usize)> = plan
        .resources
        .iter()
        .filter_map(|op| match op {
            ResourceOp::CreateInstanceBuffer { node, instance_count } => {
                Some((*node, *instance_count))
            }
            _ => None,
        })
        .collect();
    assert_eq!(instance_buffers, vec![(0, 100), (1, 2)]);
    assert_eq!(pass.instance_buffer_len(0), Some(100));
    assert_eq!(pass.instance_buffer_len(1), Some(2));
    assert_eq!(pass.instance_buffer_len(2), None);
    assert_eq!(pass.uniform_pool().update_uniform(0), Some(0));
    assert_eq!(pass.uniform_pool().update_uniform(1), Some(1));
}
