//! Scene bookkeeping for a forward Phong renderer: what the frame graph
//! allocates, caches and records each frame, the keyframe sampler that
//! drives per-node uniforms, and the input state of the orbit camera.
//! The graphics device itself is driven by the caller, which executes the
//! plans produced here.
pub mod animation;
pub mod camera;
pub mod frame;
pub mod layout;
pub mod pass;
pub mod pool;
pub mod primitives;
pub mod scene;

pub use animation::{AnimationClip, Keyframes};
pub use camera::{
    CameraController, CameraMove, ElementState, MouseButton, MouseTracking, VirtualKeyCode,
};
pub use frame::{recover, FrameAction, FrameCounter, SurfaceError};
pub use layout::{
    global_bindings, instance_layout, local_bindings, model_vertex_layout, BindingEntry,
    BindingType, ShaderStages, VertexAttribute, VertexBufferLayout, VertexFormat, VertexStepMode,
    GLOBALS_SIZE, INSTANCE_FIRST_LOCATION, INSTANCE_RAW_SIZE, LIGHT_UNIFORM_SIZE, LOCALS_SIZE,
    MODEL_VERTEX_SIZE,
};
pub use pass::{
    Extent, FramePlan, PhongConfig, PhongPass, PipelineKind, PrimitiveTopology, RenderCommand,
    ResourceOp, DEFAULT_LIGHT_NODE,
};
pub use pool::UniformPool;
pub use primitives::{cube_indices, plane_indices, sphere_indices, PrimitiveMesh};
pub use scene::{Material, Mesh, Model, Node};
