use vstd::prelude::*;

use crate::layout::LOCALS_SIZE;
use crate::pool::UniformPool;
use crate::scene::{Mesh, Node};

verus! {

/// Scene index of the node drawn through the light-visualization pipeline
/// unless another is designated.
pub const DEFAULT_LIGHT_NODE: usize = 1;

/// Lighting configuration of the pass.
pub struct PhongConfig {
    pub max_lights: usize,
    pub ambient: [u32; 4],
    pub wireframe: bool,
}

/// How the lit pipeline assembles primitives.
#[derive(Clone, Copy, PartialEq, Eq, Structural, Debug)]
pub enum PrimitiveTopology {
    TriangleList,
    LineList,
}

impl PhongConfig {
    /// Lines in wireframe mode, filled triangles otherwise.
    pub fn topology(&self) -> (r: PrimitiveTopology)
        ensures
            r == (if self.wireframe {
                PrimitiveTopology::LineList
            } else {
                PrimitiveTopology::TriangleList
            }),
    {
        if self.wireframe {
            PrimitiveTopology::LineList
        } else {
            PrimitiveTopology::TriangleList
        }
    }
}

/// Width and height of a render target, in pixels.
#[derive(Clone, Copy, PartialEq, Eq, Structural, Debug)]
pub struct Extent {
    pub width: u32,
    pub height: u32,
}

/// The two pipelines of the pass.
#[derive(Clone, Copy, PartialEq, Eq, Structural, Debug)]
pub enum PipelineKind {
    /// Renders a marker at the light's position.
    Light,
    /// The lit Phong pipeline.
    Lit,
}

/// A device resource that must exist before the frame's commands run.
#[derive(Clone, Copy, PartialEq, Eq, Structural, Debug)]
pub enum ResourceOp {
    /// Replace the uniform pool's buffers with `count` new ones.
    AllocUniformBuffers { count: usize },
    /// Bind node `node`'s uniform slot and its first material's diffuse
    /// texture into a local bind group.
    CreateLocalBindGroup { node: usize },
    /// Upload node `node`'s `instance_count` instances into an instance buffer.
    CreateInstanceBuffer { node: usize, instance_count: usize },
}

/// One command recorded into the frame's render pass.
#[derive(Clone, Copy, PartialEq, Eq, Structural, Debug)]
pub enum RenderCommand {
    SetPipeline { pipeline: PipelineKind },
    /// Bind the global bind group (camera, light, sampler) at group 0.
    SetGlobalBindGroup,
    /// Bind node `node`'s local bind group at group 1.
    SetLocalBindGroup { node: usize },
    /// Bind node `node`'s instance buffer at vertex slot 1.
    SetInstanceBuffer { node: usize },
    /// Bind mesh `mesh` of node `node`: its vertex buffer at slot 0 and its
    /// index buffer.
    SetMeshBuffers { node: usize, mesh: usize },
    /// Draw `index_count` indices over `instance_count` instances.
    DrawIndexed { index_count: u32, instance_count: u32 },
}

/// What one frame needs: resources to create first, then the commands of the
/// render pass, in order.
pub struct FramePlan {
    pub resources: Vec<ResourceOp>,
    pub commands: Vec<RenderCommand>,
}

/// The Phong pass: a light-visualization stage for the designated light node
/// followed by the lit stage for every node. It owns the uniform pool and
/// the caches of per-node bind groups and instance buffers.
pub struct PhongPass {
    uniform_pool: UniformPool,
    local_bind_groups: Vec<bool>,
    instance_buffers: Vec<Option<usize>>,
    light_node: usize,
    depth_extent: Extent,
    wireframe: bool,
}

/// Commands that draw mesh `mesh` of node `node`.
pub open spec fn mesh_draw(
    node: usize,
    mesh: int,
    index_count: u32,
    instance_count: u32,
    bind_globals: bool,
) -> Seq<RenderCommand> {
    seq![RenderCommand::SetMeshBuffers { node, mesh: mesh as usize }] + (if bind_globals {
        seq![RenderCommand::SetGlobalBindGroup, RenderCommand::SetLocalBindGroup { node }]
    } else {
        seq![RenderCommand::SetLocalBindGroup { node }]
    }) + seq![RenderCommand::DrawIndexed { index_count, instance_count }]
}

/// Commands that draw the first `upto` meshes of a node, in order.
pub open spec fn meshes_draw<B>(
    node: usize,
    meshes: Seq<Mesh<B>>,
    instance_count: u32,
    bind_globals: bool,
    upto: nat,
) -> Seq<RenderCommand>
    decreases upto,
{
    if upto == 0 || upto > meshes.len() {
        seq![]
    } else {
        meshes_draw(node, meshes, instance_count, bind_globals, (upto - 1) as nat) + mesh_draw(
            node,
            upto - 1,
            meshes[upto - 1].num_elements,
            instance_count,
            bind_globals,
        )
    }
}

/// Commands that draw every mesh of `n`, the node at index `node`, over all
/// its instances.
pub open spec fn node_draw<B, T, V, L, I>(
    node: usize,
    n: Node<B, T, V, L, I>,
    bind_globals: bool,
) -> Seq<RenderCommand> {
    meshes_draw(
        node,
        n.model.meshes@,
        n.instances@.len() as u32,
        bind_globals,
        n.model.meshes@.len(),
    )
}

/// The lit stage for the first `upto` nodes: each binds its instance buffer
/// and draws its meshes.
pub open spec fn lit_draws<B, T, V, L, I>(
    nodes: Seq<Node<B, T, V, L, I>>,
    upto: nat,
) -> Seq<RenderCommand>
    decreases upto,
{
    if upto == 0 || upto > nodes.len() {
        seq![]
    } else {
        lit_draws(nodes, (upto - 1) as nat) + seq![
            RenderCommand::SetInstanceBuffer { node: (upto - 1) as usize },
        ] + node_draw((upto - 1) as usize, nodes[upto - 1], false)
    }
}

/// The light stage: the light pipeline, then the light node drawn with both
/// bind groups; nothing when the scene has no such node.
pub open spec fn light_stage<B, T, V, L, I>(
    light_node: usize,
    nodes: Seq<Node<B, T, V, L, I>>,
) -> Seq<RenderCommand> {
    if light_node < nodes.len() {
        seq![RenderCommand::SetPipeline { pipeline: PipelineKind::Light }] + node_draw(
            light_node,
            nodes[light_node as int],
            true,
        )
    } else {
        seq![]
    }
}

/// Every command of a frame: the light stage, then the lit pipeline with the
/// global bind group bound once, then every node in list order.
pub open spec fn frame_commands<B, T, V, L, I>(
    light_node: usize,
    nodes: Seq<Node<B, T, V, L, I>>,
) -> Seq<RenderCommand> {
    light_stage(light_node, nodes) + seq![
        RenderCommand::SetPipeline { pipeline: PipelineKind::Lit },
        RenderCommand::SetGlobalBindGroup,
    ] + lit_draws(nodes, nodes.len())
}

/// The resources node `node` still needs.
pub open spec fn node_setup(
    node: usize,
    has_bind_group: bool,
    has_instance_buffer: bool,
    instance_count: nat,
) -> Seq<ResourceOp> {
    (if has_bind_group {
        seq![]
    } else {
        seq![ResourceOp::CreateLocalBindGroup { node }]
    }) + (if has_instance_buffer {
        seq![]
    } else {
        seq![ResourceOp::CreateInstanceBuffer { node, instance_count: instance_count as usize }]
    })
}

impl PhongPass {
    /// Whether node `i` has a local bind group bound to the current uniform
    /// buffers.
    pub closed spec fn bind_group_cached(&self, i: int) -> bool {
        0 <= i < self.local_bind_groups@.len() && self.local_bind_groups@[i]
    }

    /// The instance count uploaded into node `i`'s instance buffer, if it
    /// has one.
    pub closed spec fn instance_buffer(&self, i: int) -> Option<usize> {
        if 0 <= i < self.instance_buffers@.len() {
            self.instance_buffers@[i]
        } else {
            None
        }
    }

    pub closed spec fn pool(&self) -> UniformPool {
        self.uniform_pool
    }

    pub closed spec fn light_node_spec(&self) -> usize {
        self.light_node
    }

    pub closed spec fn depth_extent_spec(&self) -> Extent {
        self.depth_extent
    }

    pub closed spec fn wireframe_spec(&self) -> bool {
        self.wireframe
    }

    /// Whether a draw over `node_count` nodes from this state reallocates the
    /// uniform pool.
    pub open spec fn reallocates(&self, node_count: nat) -> bool {
        self.pool().buffer_count_spec() < node_count
    }

    /// Whether node `i` keeps its bind group through a draw of `node_count`
    /// nodes: reallocating the pool invalidates every bind group.
    pub open spec fn keeps_bind_group(&self, node_count: nat, i: int) -> bool {
        !self.reallocates(node_count) && self.bind_group_cached(i)
    }

    /// The creations that a draw over `nodes` makes for its first `upto`
    /// nodes, in node order.
    pub open spec fn creations<B, T, V, L, I>(
        &self,
        nodes: Seq<Node<B, T, V, L, I>>,
        upto: nat,
    ) -> Seq<ResourceOp>
        decreases upto,
    {
        if upto == 0 || upto > nodes.len() {
            seq![]
        } else {
            let i = upto - 1;
            self.creations(nodes, (upto - 1) as nat) + node_setup(
                i as usize,
                self.keeps_bind_group(nodes.len(), i),
                self.instance_buffer(i) is Some,
                nodes[i].instances@.len(),
            )
        }
    }

    /// Every resource operation of a draw over `nodes` from this state.
    pub open spec fn setup_ops<B, T, V, L, I>(
        &self,
        nodes: Seq<Node<B, T, V, L, I>>,
    ) -> Seq<ResourceOp> {
        (if self.reallocates(nodes.len()) {
            seq![ResourceOp::AllocUniformBuffers { count: nodes.len() as usize }]
        } else {
            seq![]
        }) + self.creations(nodes, nodes.len())
    }

    /// The state after a draw over `nodes` from `self`: the pool has a slot
    /// per node, every node has a bind group and an instance buffer, cached
    /// instance buffers are kept, and bind groups of nodes beyond the list
    /// survive only when the pool was not reallocated.
    pub open spec fn drawn<B, T, V, L, I>(
        &self,
        post: PhongPass,
        nodes: Seq<Node<B, T, V, L, I>>,
    ) -> bool {
        let n = nodes.len();
        &&& post.pool().buffer_count_spec() == (if self.reallocates(n) {
            n
        } else {
            self.pool().buffer_count_spec()
        })
        &&& post.pool().label_spec() == self.pool().label_spec()
        &&& post.pool().size_spec() == self.pool().size_spec()
        &&& forall|i: int| 0 <= i < n ==> #[trigger] post.bind_group_cached(i)
        &&& forall|i: int|
            0 <= i < n ==> #[trigger] post.instance_buffer(i) == (match self.instance_buffer(i) {
                Some(c) => Some(c),
                None => Some(nodes[i].instances@.len() as usize),
            })
        &&& forall|i: int| i >= n ==> #[trigger] post.bind_group_cached(i) == self.keeps_bind_group(n, i)
        &&& forall|i: int| i >= n ==> #[trigger] post.instance_buffer(i) == self.instance_buffer(i)
        &&& post.light_node_spec() == self.light_node_spec()
        &&& post.depth_extent_spec() == self.depth_extent_spec()
        &&& post.wireframe_spec() == self.wireframe_spec()
    }
}

/// Extends `v` with `fill` up to length `n`; a longer `v` is left as it is.
fn pad_to<X: Copy>(v: &mut Vec<X>, n: usize, fill: X)
    ensures
        final(v)@.len() == (if old(v)@.len() < n { n as int } else { old(v)@.len() as int }),
        forall|k: int| 0 <= k < old(v)@.len() ==> #[trigger] final(v)@[k] == old(v)@[k],
        forall|k: int| old(v)@.len() <= k < final(v)@.len() ==> #[trigger] final(v)@[k] == fill,
{
    while v.len() < n
        invariant
            old(v)@.len() <= v@.len(),
            v@.len() <= (if old(v)@.len() < n { n as int } else { old(v)@.len() as int }),
            forall|k: int| 0 <= k < old(v)@.len() ==> #[trigger] v@[k] == old(v)@[k],
            forall|k: int| old(v)@.len() <= k < v@.len() ==> #[trigger] v@[k] == fill,
        decreases n - v@.len(),
    {
        v.push(fill);
    }
}

/// Appends the commands that draw every mesh of `node`, the node at index
/// `index`.
fn record_node_draw<B, T, V, L, I>(
    commands: &mut Vec<RenderCommand>,
    index: usize,
    node: &Node<B, T, V, L, I>,
    bind_globals: bool,
)
    requires
        node.wf(),
    ensures
        final(commands)@ == old(commands)@ + node_draw(index, *node, bind_globals),
{
    let instance_count = node.instances.len() as u32;
    let meshes = &node.model.meshes;
    let mut j: usize = 0;
    while j < meshes.len()
        invariant
            j <= meshes@.len(),
            meshes == &node.model.meshes,
            instance_count == node.instances@.len() as u32,
            commands@ == old(commands)@ + meshes_draw(
                index,
                meshes@,
                instance_count,
                bind_globals,
                j as nat,
            ),
        decreases meshes@.len() - j,
    {
        let ghost before = commands@;
        commands.push(RenderCommand::SetMeshBuffers { node: index, mesh: j });
        if bind_globals {
            commands.push(RenderCommand::SetGlobalBindGroup);
        }
        commands.push(RenderCommand::SetLocalBindGroup { node: index });
        commands.push(
            RenderCommand::DrawIndexed { index_count: meshes[j].num_elements, instance_count },
        );
        assert(commands@ =~= before + mesh_draw(
            index,
            j as int,
            meshes@[j as int].num_elements,
            instance_count,
            bind_globals,
        ));
        j = j + 1;
        assert(commands@ =~= old(commands)@ + meshes_draw(
            index,
            meshes@,
            instance_count,
            bind_globals,
            j as nat,
        ));
    }
}

impl PhongPass {
    /// A pass with an empty uniform pool, empty caches, node
    /// `DEFAULT_LIGHT_NODE` as the light source and a depth target of
    /// `width` by `height`.
    pub fn new(phong_config: &PhongConfig, width: u32, height: u32) -> (r: PhongPass)
        ensures
            r.pool().label_spec() == "[Phong] Locals"@,
            r.pool().size_spec() == LOCALS_SIZE,
            r.pool().buffer_count_spec() == 0,
            forall|i: int| !#[trigger] r.bind_group_cached(i),
            forall|i: int| #[trigger] r.instance_buffer(i) is None,
            r.light_node_spec() == DEFAULT_LIGHT_NODE,
            r.depth_extent_spec() == (Extent { width, height }),
            r.wireframe_spec() == phong_config.wireframe,
    {
        PhongPass {
            uniform_pool: UniformPool::new("[Phong] Locals", LOCALS_SIZE),
            local_bind_groups: Vec::new(),
            instance_buffers: Vec::new(),
            light_node: DEFAULT_LIGHT_NODE,
            depth_extent: Extent { width, height },
            wireframe: phong_config.wireframe,
        }
    }

    /// Plans one frame over `nodes`: grows the uniform pool to a slot per
    /// node (reallocating it wholesale, which drops every bind group),
    /// creates the bind groups and instance buffers that are missing, then
    /// records the light stage and the lit stage.
    pub fn draw<B, T, V, L, I>(&mut self, nodes: &Vec<Node<B, T, V, L, I>>) -> (r: FramePlan)
        requires
            forall|i: int| 0 <= i < nodes@.len() ==> #[trigger] nodes@[i].wf(),
        ensures
            old(self).drawn(*final(self), nodes@),
            final(self).pool().buffer_count_spec() >= nodes@.len(),
            r.resources@ == old(self).setup_ops(nodes@),
            r.commands@ == frame_commands(old(self).light_node_spec(), nodes@),
    {
        let ghost pre = *self;
        let n = nodes.len();
        let mut resources: Vec<ResourceOp> = Vec::new();
        let realloc = self.uniform_pool.buffer_count() < n;
        if realloc {
            self.uniform_pool.alloc_buffers(n);
            resources.push(ResourceOp::AllocUniformBuffers { count: n });
            // bind groups refer to the discarded buffers
            self.local_bind_groups = Vec::new();
        }
        let ghost prefix = resources@;
        pad_to(&mut self.local_bind_groups, n, false);
        pad_to(&mut self.instance_buffers, n, None);
        let mut i: usize = 0;
        while i < n
            invariant
                n == nodes@.len(),
                i <= n,
                self.uniform_pool == (if realloc { self.uniform_pool } else { pre.uniform_pool }),
                self.uniform_pool.buffer_count_spec() == (if realloc {
                    n as nat
                } else {
                    pre.uniform_pool.buffer_count_spec()
                }),
                self.uniform_pool.label_spec() == pre.uniform_pool.label_spec(),
                self.uniform_pool.size_spec() == pre.uniform_pool.size_spec(),
                realloc == pre.reallocates(n as nat),
                self.light_node == pre.light_node,
                self.depth_extent == pre.depth_extent,
                self.wireframe == pre.wireframe,
                forall|k: int| 0 <= k < nodes@.len() ==> #[trigger] nodes@[k].wf(),
                self.local_bind_groups@.len() >= n,
                !realloc ==> self.local_bind_groups@.len() >= pre.local_bind_groups@.len(),
                self.instance_buffers@.len() >= n,
                self.instance_buffers@.len() >= pre.instance_buffers@.len(),
                forall|k: int| 0 <= k < i ==> #[trigger] self.local_bind_groups@[k],
                forall|k: int|
                    i <= k < self.local_bind_groups@.len() ==> #[trigger] self.local_bind_groups@[k]
                        == pre.keeps_bind_group(n as nat, k),
                forall|k: int|
                    0 <= k < i ==> #[trigger] self.instance_buffers@[k] == (match pre.instance_buffer(
                        k,
                    ) {
                        Some(c) => Some(c),
                        None => Some(nodes@[k].instances@.len() as usize),
                    }),
                forall|k: int|
                    i <= k < self.instance_buffers@.len() ==> #[trigger] self.instance_buffers@[k]
                        == pre.instance_buffer(k),
                resources@ == prefix + pre.creations(nodes@, i as nat),
            decreases n - i,
        {
            let ghost before = resources@;
            let has_bind_group = self.local_bind_groups[i];
            if !has_bind_group {
                self.local_bind_groups.set(i, true);
                resources.push(ResourceOp::CreateLocalBindGroup { node: i });
            }
            let has_instance_buffer = self.instance_buffers[i].is_some();
            if !has_instance_buffer {
                let count = nodes[i].instances.len();
                self.instance_buffers.set(i, Some(count));
                resources.push(ResourceOp::CreateInstanceBuffer { node: i, instance_count: count });
            }
            assert(resources@ =~= before + node_setup(
                i,
                has_bind_group,
                has_instance_buffer,
                nodes@[i as int].instances@.len(),
            ));
            i = i + 1;
            assert(resources@ =~= prefix + pre.creations(nodes@, i as nat));
        }
        assert(resources@ =~= pre.setup_ops(nodes@));

        let mut commands: Vec<RenderCommand> = Vec::new();
        if self.light_node < n {
            commands.push(RenderCommand::SetPipeline { pipeline: PipelineKind::Light });
            record_node_draw(&mut commands, self.light_node, &nodes[self.light_node], true);
        }
        assert(commands@ =~= light_stage(pre.light_node, nodes@));
        commands.push(RenderCommand::SetPipeline { pipeline: PipelineKind::Lit });
        commands.push(RenderCommand::SetGlobalBindGroup);
        let ghost lit_prefix = commands@;
        let mut i: usize = 0;
        while i < n
            invariant
                n == nodes@.len(),
                i <= n,
                forall|k: int| 0 <= k < nodes@.len() ==> #[trigger] nodes@[k].wf(),
                commands@ == lit_prefix + lit_draws(nodes@, i as nat),
            decreases n - i,
        {
            commands.push(RenderCommand::SetInstanceBuffer { node: i });
            record_node_draw(&mut commands, i, &nodes[i], false);
            i = i + 1;
            assert(commands@ =~= lit_prefix + lit_draws(nodes@, i as nat));
        }
        FramePlan { resources, commands }
    }
}

impl Extent {
    /// Takes the new size when both dimensions are non-zero; a zero
    /// dimension (a minimised window) leaves the extent unchanged.
    pub fn resize(&mut self, width: u32, height: u32) -> (r: bool)
        ensures
            r == (width > 0 && height > 0),
            *final(self) == (if r { Extent { width, height } } else { *old(self) }),
    {
        if width > 0 && height > 0 {
            self.width = width;
            self.height = height;
            true
        } else {
            false
        }
    }
}

impl PhongPass {
    /// Regenerates the depth target at the new size, unless a dimension is
    /// zero. Nothing else of the pass changes.
    pub fn resize(&mut self, width: u32, height: u32) -> (r: bool)
        ensures
            r == (width > 0 && height > 0),
            final(self).depth_extent_spec() == (if r {
                Extent { width, height }
            } else {
                old(self).depth_extent_spec()
            }),
            final(self).pool() == old(self).pool(),
            forall|i: int| #[trigger] final(self).bind_group_cached(i) == old(self).bind_group_cached(i),
            forall|i: int| #[trigger] final(self).instance_buffer(i) == old(self).instance_buffer(i),
            final(self).light_node_spec() == old(self).light_node_spec(),
            final(self).wireframe_spec() == old(self).wireframe_spec(),
    {
        self.depth_extent.resize(width, height)
    }

    /// Designates node `node` as the light source.
    pub fn set_light_node(&mut self, node: usize)
        ensures
            final(self).light_node_spec() == node,
            final(self).depth_extent_spec() == old(self).depth_extent_spec(),
            final(self).pool() == old(self).pool(),
            forall|i: int| #[trigger] final(self).bind_group_cached(i) == old(self).bind_group_cached(i),
            forall|i: int| #[trigger] final(self).instance_buffer(i) == old(self).instance_buffer(i),
            final(self).wireframe_spec() == old(self).wireframe_spec(),
    {
        self.light_node = node;
    }

    pub fn light_node(&self) -> (r: usize)
        ensures
            r == self.light_node_spec(),
    {
        self.light_node
    }

    pub fn depth_extent(&self) -> (r: Extent)
        ensures
            r == self.depth_extent_spec(),
    {
        self.depth_extent
    }

    pub fn wireframe(&self) -> (r: bool)
        ensures
            r == self.wireframe_spec(),
    {
        self.wireframe
    }

    pub fn uniform_pool(&self) -> (r: &UniformPool)
        ensures
            *r == self.pool(),
    {
        &self.uniform_pool
    }

    /// Whether node `node` has a live local bind group.
    pub fn has_bind_group(&self, node: usize) -> (r: bool)
        ensures
            r == self.bind_group_cached(node as int),
    {
        node < self.local_bind_groups.len() && self.local_bind_groups[node]
    }

    /// The instance count held by node `node`'s instance buffer, if any.
    pub fn instance_buffer_len(&self, node: usize) -> (r: Option<usize>)
        ensures
            r == self.instance_buffer(node as int),
    {
        if node < self.instance_buffers.len() {
            self.instance_buffers[node]
        } else {
            None
        }
    }
}

proof fn lemma_creations_empty<B, T, V, L, I>(
    pass: PhongPass,
    nodes: Seq<Node<B, T, V, L, I>>,
    upto: nat,
)
    requires
        !pass.reallocates(nodes.len()),
        forall|i: int| 0 <= i < nodes.len() ==> #[trigger] pass.bind_group_cached(i),
        forall|i: int| 0 <= i < nodes.len() ==> #[trigger] pass.instance_buffer(i) is Some,
    ensures
        pass.creations(nodes, upto) =~= Seq::<ResourceOp>::empty(),
    decreases upto,
{
    if upto > 0 && upto <= nodes.len() {
        lemma_creations_empty(pass, nodes, (upto - 1) as nat);
        assert(pass.bind_group_cached(upto - 1));
        assert(pass.instance_buffer(upto - 1) is Some);
    }
}

/// Drawing an unchanged node list a second time creates nothing: the uniform
/// pool is not reallocated, no bind group or instance buffer is made, and
/// every cached entry is left as it was.
pub proof fn redraw_creates_nothing<B, T, V, L, I>(
    first: PhongPass,
    second: PhongPass,
    third: PhongPass,
    nodes: Seq<Node<B, T, V, L, I>>,
)
    requires
        first.drawn(second, nodes),
        second.drawn(third, nodes),
    ensures
        second.setup_ops(nodes) == Seq::<ResourceOp>::empty(),
        third.pool().buffer_count_spec() == second.pool().buffer_count_spec(),
        forall|i: int| #[trigger] third.bind_group_cached(i) == second.bind_group_cached(i),
        forall|i: int| #[trigger] third.instance_buffer(i) == second.instance_buffer(i),
{
    assert forall|i: int| 0 <= i < nodes.len() implies #[trigger] second.instance_buffer(i) is Some by {
        assert(second.instance_buffer(i) == (match first.instance_buffer(i) {
            Some(c) => Some(c),
            None => Some(nodes[i].instances@.len() as usize),
        }));
    }
    lemma_creations_empty(second, nodes, nodes.len());
    assert(second.setup_ops(nodes) =~= Seq::<ResourceOp>::empty());
    assert forall|i: int| #[trigger] third.bind_group_cached(i) == second.bind_group_cached(i) by {
        if 0 <= i < nodes.len() {
            assert(second.bind_group_cached(i));
        }
    }
    assert forall|i: int| #[trigger] third.instance_buffer(i) == second.instance_buffer(i) by {
        if 0 <= i < nodes.len() {
            assert(second.instance_buffer(i) is Some);
        }
    }
}

/// Whether command `c` names only nodes of `nodes` and meshes of those nodes.
pub open spec fn command_in_scene<B, T, V, L, I>(
    c: RenderCommand,
    nodes: Seq<Node<B, T, V, L, I>>,
) -> bool {
    match c {
        RenderCommand::SetLocalBindGroup { node } => node < nodes.len(),
        RenderCommand::SetInstanceBuffer { node } => node < nodes.len(),
        RenderCommand::SetMeshBuffers { node, mesh } => node < nodes.len() && mesh
            < nodes[node as int].model.meshes@.len(),
        _ => true,
    }
}

/// Whether the resources that command `c` binds exist in `pass`.
pub open spec fn command_resources_live(c: RenderCommand, pass: PhongPass) -> bool {
    match c {
        RenderCommand::SetLocalBindGroup { node } => pass.bind_group_cached(node as int),
        RenderCommand::SetInstanceBuffer { node } => pass.instance_buffer(node as int) is Some,
        _ => true,
    }
}

proof fn lemma_meshes_draw_targets<B>(
    node: usize,
    meshes: Seq<Mesh<B>>,
    instance_count: u32,
    bind_globals: bool,
    upto: nat,
)
    ensures
        forall|k: int|
            0 <= k < meshes_draw(node, meshes, instance_count, bind_globals, upto).len() ==> {
                let c = #[trigger] meshes_draw(node, meshes, instance_count, bind_globals, upto)[k];
                &&& c matches RenderCommand::SetLocalBindGroup { node: n } ==> n == node
                &&& c matches RenderCommand::SetMeshBuffers { node: n, mesh: m } ==> n == node && m
                    < upto && m < meshes.len()
                &&& c !is SetInstanceBuffer
            },
    decreases upto,
{
    if upto > 0 && upto <= meshes.len() {
        lemma_meshes_draw_targets(node, meshes, instance_count, bind_globals, (upto - 1) as nat);
    }
}

proof fn lemma_lit_draws_in_scene<B, T, V, L, I>(nodes: Seq<Node<B, T, V, L, I>>, upto: nat)
    requires
        upto <= nodes.len(),
        nodes.len() <= usize::MAX,
    ensures
        forall|k: int|
            0 <= k < lit_draws(nodes, upto).len() ==> {
                let c = #[trigger] lit_draws(nodes, upto)[k];
                &&& command_in_scene(c, nodes)
                &&& c matches RenderCommand::SetLocalBindGroup { node: n } ==> n < upto
                &&& c matches RenderCommand::SetInstanceBuffer { node: n } ==> n < upto
            },
    decreases upto,
{
    if upto > 0 {
        let i = (upto - 1) as usize;
        lemma_lit_draws_in_scene(nodes, (upto - 1) as nat);
        lemma_meshes_draw_targets(
            i,
            nodes[i as int].model.meshes@,
            nodes[i as int].instances@.len() as u32,
            false,
            nodes[i as int].model.meshes@.len(),
        );
        let prev = lit_draws(nodes, (upto - 1) as nat);
        let tail = node_draw(i, nodes[upto - 1], false);
        let all = lit_draws(nodes, upto);
        let mid = prev + seq![RenderCommand::SetInstanceBuffer { node: i }];
        assert(all == mid + tail);
        assert forall|k: int| 0 <= k < all.len() implies {
            let c = #[trigger] all[k];
            &&& command_in_scene(c, nodes)
            &&& c matches RenderCommand::SetLocalBindGroup { node: n } ==> n < upto
            &&& c matches RenderCommand::SetInstanceBuffer { node: n } ==> n < upto
        } by {
            if k < prev.len() {
                assert(all[k] == mid[k]);
                assert(mid[k] == prev[k]);
            } else if k > prev.len() {
                assert(all[k] == tail[k - mid.len()]);
            }
        }
    }
}

/// Once a frame's resources exist, every bind group and instance buffer its
/// commands bind exists too, and every mesh they draw belongs to the scene.
pub proof fn frame_uses_live_resources<B, T, V, L, I>(
    pre: PhongPass,
    post: PhongPass,
    nodes: Seq<Node<B, T, V, L, I>>,
)
    requires
        nodes.len() <= usize::MAX,
        pre.drawn(post, nodes),
    ensures
        forall|k: int|
            0 <= k < frame_commands(pre.light_node_spec(), nodes).len() ==> {
                let c = #[trigger] frame_commands(pre.light_node_spec(), nodes)[k];
                command_in_scene(c, nodes) && command_resources_live(c, post)
            },
{
    let light = pre.light_node_spec();
    lemma_lit_draws_in_scene(nodes, nodes.len());
    if light < nodes.len() {
        lemma_meshes_draw_targets(
            light,
            nodes[light as int].model.meshes@,
            nodes[light as int].instances@.len() as u32,
            true,
            nodes[light as int].model.meshes@.len(),
        );
    }
    let cmds = frame_commands(light, nodes);
    let head = light_stage(light, nodes) + seq![
        RenderCommand::SetPipeline { pipeline: PipelineKind::Lit },
        RenderCommand::SetGlobalBindGroup,
    ];
    assert forall|k: int| 0 <= k < cmds.len() implies {
        let c = #[trigger] cmds[k];
        command_in_scene(c, nodes) && command_resources_live(c, post)
    } by {
        if k < head.len() {
            if light < nodes.len() && 1 <= k < head.len() - 2 {
                assert(cmds[k] == node_draw(light, nodes[light as int], true)[k - 1]);
            }
        } else {
            assert(cmds[k] == lit_draws(nodes, nodes.len())[k - head.len()]);
        }
    }
}

} // verus!
