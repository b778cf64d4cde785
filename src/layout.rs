use vstd::prelude::*;

verus! {

/// Byte size of a model vertex: position (three 32-bit floats), texture
/// coordinates (two) and normal (three).
pub const MODEL_VERTEX_SIZE: u64 = 32;

/// Byte size of an instance as uploaded: a 4x4 model matrix of 32-bit floats.
pub const INSTANCE_RAW_SIZE: u64 = 64;

/// Byte size of the global uniform block: eye position, view-projection
/// matrix and ambient term, all in 16-byte slots.
pub const GLOBALS_SIZE: u64 = 96;

/// Byte size of the light uniform block: position and colour, each padded to
/// a 16-byte slot.
pub const LIGHT_UNIFORM_SIZE: u64 = 32;

/// Byte size of the per-node uniform block: position, colour, normal and
/// light factor, four floats each.
pub const LOCALS_SIZE: u64 = 64;

/// First shader location of the instance matrix columns.
pub const INSTANCE_FIRST_LOCATION: u32 = 5;

#[derive(Clone, Copy, PartialEq, Eq, Structural, Debug)]
pub enum VertexFormat {
    Float32x2,
    Float32x3,
    Float32x4,
}

#[derive(Clone, Copy, PartialEq, Eq, Structural, Debug)]
pub enum VertexStepMode {
    Vertex,
    Instance,
}

#[derive(Clone, Copy, PartialEq, Eq, Structural, Debug)]
pub struct VertexAttribute {
    pub offset: u64,
    pub shader_location: u32,
    pub format: VertexFormat,
}

/// How a vertex buffer is laid out: the distance between consecutive
/// elements, whether it advances per vertex or per instance, and where each
/// attribute sits in an element.
pub struct VertexBufferLayout {
    pub array_stride: u64,
    pub step_mode: VertexStepMode,
    pub attributes: Vec<VertexAttribute>,
}

#[derive(Clone, Copy, PartialEq, Eq, Structural, Debug)]
pub enum ShaderStages {
    VertexFragment,
    Fragment,
}

#[derive(Clone, Copy, PartialEq, Eq, Structural, Debug)]
pub enum BindingType {
    /// A uniform buffer of at least `min_binding_size` bytes.
    UniformBuffer { min_binding_size: u64 },
    /// A filtering sampler.
    Sampler,
    /// A filterable two-dimensional float texture.
    Texture2d,
}

#[derive(Clone, Copy, PartialEq, Eq, Structural, Debug)]
pub struct BindingEntry {
    pub binding: u32,
    pub visibility: ShaderStages,
    pub ty: BindingType,
}

pub open spec fn format_size(f: VertexFormat) -> nat {
    match f {
        VertexFormat::Float32x2 => 8,
        VertexFormat::Float32x3 => 12,
        VertexFormat::Float32x4 => 16,
    }
}

/// The attributes are packed one after another from the start of the
/// element, with no gap, and fill it exactly.
pub open spec fn packed(stride: u64, attrs: Seq<VertexAttribute>) -> bool {
    &&& attrs.len() > 0
    &&& attrs[0].offset == 0
    &&& forall|k: int|
        0 <= k < attrs.len() - 1 ==> #[trigger] attrs[k + 1].offset == attrs[k].offset
            + format_size(attrs[k].format)
    &&& attrs[attrs.len() - 1].offset + format_size(attrs[attrs.len() - 1].format) == stride
}

/// Layout of a model vertex buffer: position at location 0, texture
/// coordinates at 1, normal at 2.
pub fn model_vertex_layout() -> (r: VertexBufferLayout)
    ensures
        r.array_stride == MODEL_VERTEX_SIZE,
        r.step_mode == VertexStepMode::Vertex,
        r.attributes@ == seq![
            VertexAttribute { offset: 0, shader_location: 0, format: VertexFormat::Float32x3 },
            VertexAttribute { offset: 12, shader_location: 1, format: VertexFormat::Float32x2 },
            VertexAttribute { offset: 20, shader_location: 2, format: VertexFormat::Float32x3 },
        ],
        packed(r.array_stride, r.attributes@),
{
    let attributes = vec![
        VertexAttribute { offset: 0, shader_location: 0, format: VertexFormat::Float32x3 },
        VertexAttribute { offset: 12, shader_location: 1, format: VertexFormat::Float32x2 },
        VertexAttribute { offset: 20, shader_location: 2, format: VertexFormat::Float32x3 },
    ];
    let r = VertexBufferLayout {
        array_stride: MODEL_VERTEX_SIZE,
        step_mode: VertexStepMode::Vertex,
        attributes,
    };
    assert(r.attributes@ =~= seq![
        VertexAttribute { offset: 0, shader_location: 0, format: VertexFormat::Float32x3 },
        VertexAttribute { offset: 12, shader_location: 1, format: VertexFormat::Float32x2 },
        VertexAttribute { offset: 20, shader_location: 2, format: VertexFormat::Float32x3 },
    ]);
    r
}

/// Layout of an instance buffer: the four columns of the model matrix at
/// consecutive locations from `INSTANCE_FIRST_LOCATION`, advancing once per
/// instance.
pub fn instance_layout() -> (r: VertexBufferLayout)
    ensures
        r.array_stride == INSTANCE_RAW_SIZE,
        r.step_mode == VertexStepMode::Instance,
        r.attributes@.len() == 4,
        forall|k: int|
            0 <= k < 4 ==> #[trigger] r.attributes@[k] == (VertexAttribute {
                offset: (16 * k) as u64,
                shader_location: (INSTANCE_FIRST_LOCATION + k) as u32,
                format: VertexFormat::Float32x4,
            }),
        packed(r.array_stride, r.attributes@),
{
    let mut attributes: Vec<VertexAttribute> = Vec::new();
    let mut k: u32 = 0;
    while k < 4
        invariant
            k <= 4,
            attributes@.len() == k,
            forall|j: int|
                0 <= j < k ==> #[trigger] attributes@[j] == (VertexAttribute {
                    offset: (16 * j) as u64,
                    shader_location: (INSTANCE_FIRST_LOCATION + j) as u32,
                    format: VertexFormat::Float32x4,
                }),
        decreases 4 - k,
    {
        attributes.push(
            VertexAttribute {
                offset: 16 * k as u64,
                shader_location: INSTANCE_FIRST_LOCATION + k,
                format: VertexFormat::Float32x4,
            },
        );
        k = k + 1;
    }
    VertexBufferLayout {
        array_stride: INSTANCE_RAW_SIZE,
        step_mode: VertexStepMode::Instance,
        attributes,
    }
}

/// The global bind group layout: global uniforms at binding 0, the light at
/// binding 1, both seen by both stages, and the texture sampler at binding 2
/// for the fragment stage.
pub fn global_bindings() -> (r: Vec<BindingEntry>)
    ensures
        r@ == seq![
            BindingEntry {
                binding: 0,
                visibility: ShaderStages::VertexFragment,
                ty: BindingType::UniformBuffer { min_binding_size: GLOBALS_SIZE },
            },
            BindingEntry {
                binding: 1,
                visibility: ShaderStages::VertexFragment,
                ty: BindingType::UniformBuffer { min_binding_size: LIGHT_UNIFORM_SIZE },
            },
            BindingEntry { binding: 2, visibility: ShaderStages::Fragment, ty: BindingType::Sampler },
        ],
{
    let r = vec![
        BindingEntry {
            binding: 0,
            visibility: ShaderStages::VertexFragment,
            ty: BindingType::UniformBuffer { min_binding_size: GLOBALS_SIZE },
        },
        BindingEntry {
            binding: 1,
            visibility: ShaderStages::VertexFragment,
            ty: BindingType::UniformBuffer { min_binding_size: LIGHT_UNIFORM_SIZE },
        },
        BindingEntry { binding: 2, visibility: ShaderStages::Fragment, ty: BindingType::Sampler },
    ];
    assert(r@ =~= seq![
        BindingEntry {
            binding: 0,
            visibility: ShaderStages::VertexFragment,
            ty: BindingType::UniformBuffer { min_binding_size: GLOBALS_SIZE },
        },
        BindingEntry {
            binding: 1,
            visibility: ShaderStages::VertexFragment,
            ty: BindingType::UniformBuffer { min_binding_size: LIGHT_UNIFORM_SIZE },
        },
        BindingEntry { binding: 2, visibility: ShaderStages::Fragment, ty: BindingType::Sampler },
    ]);
    r
}

/// The local bind group layout: the node's uniforms at binding 0 for both
/// stages and its diffuse texture at binding 1 for the fragment stage.
pub fn local_bindings() -> (r: Vec<BindingEntry>)
    ensures
        r@ == seq![
            BindingEntry {
                binding: 0,
                visibility: ShaderStages::VertexFragment,
                ty: BindingType::UniformBuffer { min_binding_size: LOCALS_SIZE },
            },
            BindingEntry {
                binding: 1,
                visibility: ShaderStages::Fragment,
                ty: BindingType::Texture2d,
            },
        ],
{
    let r = vec![
        BindingEntry {
            binding: 0,
            visibility: ShaderStages::VertexFragment,
            ty: BindingType::UniformBuffer { min_binding_size: LOCALS_SIZE },
        },
        BindingEntry { binding: 1, visibility: ShaderStages::Fragment, ty: BindingType::Texture2d },
    ];
    assert(r@ =~= seq![
        BindingEntry {
            binding: 0,
            visibility: ShaderStages::VertexFragment,
            ty: BindingType::UniformBuffer { min_binding_size: LOCALS_SIZE },
        },
        BindingEntry { binding: 1, visibility: ShaderStages::Fragment, ty: BindingType::Texture2d },
    ]);
    r
}

} // verus!
