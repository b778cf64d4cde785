use vstd::prelude::*;

use crate::animation::AnimationClip;

verus! {

/// A drawable sub-mesh: its vertex and index buffers, how many indices it
/// draws, and which of the model's materials it uses.
pub struct Mesh<B> {
    pub name: String,
    pub vertex_buffer: B,
    pub index_buffer: B,
    pub num_elements: u32,
    pub material: usize,
}

/// A named material with its diffuse texture.
pub struct Material<T> {
    pub name: String,
    pub diffuse_texture: T,
}

/// An immutable asset: meshes, the materials they refer to, and animation
/// clips.
pub struct Model<B, T, V> {
    pub meshes: Vec<Mesh<B>>,
    pub materials: Vec<Material<T>>,
    pub animations: Vec<AnimationClip<V>>,
}

/// A renderable scene entity: a model, the per-node uniform block `locals`,
/// and the instances it is drawn at. `parent` names a parent node; the scene
/// is flat and does not compose transforms through it.
pub struct Node<B, T, V, L, I> {
    pub parent: u32,
    pub locals: L,
    pub model: Model<B, T, V>,
    pub instances: Vec<I>,
}

impl<B, T, V> Model<B, T, V> {
    /// Every mesh names an existing material, there is a first material to
    /// texture the node with, and every clip is well formed.
    pub open spec fn wf(&self) -> bool {
        &&& self.materials@.len() > 0
        &&& forall|j: int|
            0 <= j < self.meshes@.len() ==> #[trigger] self.meshes@[j].material
                < self.materials@.len()
        &&& forall|k: int| 0 <= k < self.animations@.len() ==> #[trigger] self.animations@[k].wf()
    }
}

impl<B, T, V, L, I> Node<B, T, V, L, I> {
    /// A node is drawable when its model is well formed and its instance
    /// count fits a draw call's 32-bit instance range.
    pub open spec fn wf(&self) -> bool {
        &&& self.model.wf()
        &&& self.instances@.len() <= u32::MAX
    }

    /// The translation that the node's first animation clip holds at time
    /// `t` (microseconds since playback began), if it has such a clip.
    pub fn animated_translation(&self, t: u64) -> (r: Option<&V>)
        requires
            self.wf(),
        ensures
            self.model.animations@.len() == 0 ==> r is None,
            self.model.animations@.len() > 0 ==> r == self.model.animations@[0].sample_spec(t),
    {
        if self.model.animations.len() == 0 {
            None
        } else {
            self.model.animations[0].sample(t)
        }
    }
}

} // verus!
