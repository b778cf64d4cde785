use vstd::prelude::*;

use crate::scene::{Material, Mesh, Model};

verus! {

/// Index list of a unit cube: two triangles for each of its six faces, four
/// vertices per face.
pub fn cube_indices() -> (r: Vec<u32>)
    ensures
        r@ == seq![
            0u32, 1, 2, 0, 2, 3,
            4, 5, 6, 4, 6, 7,
            8, 9, 10, 8, 10, 11,
            12, 13, 14, 12, 14, 15,
            16, 17, 18, 16, 18, 19,
            20, 21, 22, 20, 22, 23,
        ],
{
    let r = vec![
        0, 1, 2, 0, 2, 3,
        4, 5, 6, 4, 6, 7,
        8, 9, 10, 8, 10, 11,
        12, 13, 14, 12, 14, 15,
        16, 17, 18, 16, 18, 19,
        20, 21, 22, 20, 22, 23,
    ];
    assert(r@ =~= seq![
        0u32, 1, 2, 0, 2, 3,
        4, 5, 6, 4, 6, 7,
        8, 9, 10, 8, 10, 11,
        12, 13, 14, 12, 14, 15,
        16, 17, 18, 16, 18, 19,
        20, 21, 22, 20, 22, 23,
    ]);
    r
}

/// Index list of a single quad: two triangles over its four vertices.
pub fn plane_indices() -> (r: Vec<u32>)
    ensures
        r@ == seq![0u32, 1, 2, 0, 2, 3],
{
    let r = vec![0, 1, 2, 0, 2, 3];
    assert(r@ =~= seq![0u32, 1, 2, 0, 2, 3]);
    r
}

/// The triangles of cell `j` in ring `i` of a sphere with `sectors` sectors
/// and `stacks` stacks. With `k1` the cell's top-left vertex and `k2` the one
/// below it, the upper triangle is left out on the first ring and the lower
/// one on the ring before last.
pub open spec fn sphere_cell(sectors: nat, stacks: nat, i: nat, j: nat) -> Seq<u32> {
    let k1 = i * (sectors + 1) + j;
    let k2 = k1 + sectors + 1;
    (if i != 0 {
        seq![k1 as u32, k2 as u32, (k1 + 1) as u32]
    } else {
        seq![]
    }) + (if i + 1 != stacks {
        seq![(k1 + 1) as u32, k2 as u32, (k2 + 1) as u32]
    } else {
        seq![]
    })
}

/// The first `j` cells of ring `i`.
pub open spec fn sphere_ring(sectors: nat, stacks: nat, i: nat, j: nat) -> Seq<u32>
    decreases j,
{
    if j == 0 {
        seq![]
    } else {
        sphere_ring(sectors, stacks, i, (j - 1) as nat) + sphere_cell(
            sectors,
            stacks,
            i,
            (j - 1) as nat,
        )
    }
}

/// The first `i` rings, each of `sectors + 1` cells.
pub open spec fn sphere_rings(sectors: nat, stacks: nat, i: nat) -> Seq<u32>
    decreases i,
{
    if i == 0 {
        seq![]
    } else {
        sphere_rings(sectors, stacks, (i - 1) as nat) + sphere_ring(
            sectors,
            stacks,
            (i - 1) as nat,
            sectors + 1,
        )
    }
}

/// Index list of a UV sphere over `stacks + 1` rings of `sectors + 1`
/// vertices each, walking every ring cell by cell.
pub fn sphere_indices(sector_count: u32, stack_count: u32) -> (r: Vec<u32>)
    requires
        stack_count > 0,
        (stack_count as int + 2) * (sector_count as int + 1) <= u32::MAX,
    ensures
        r@ == sphere_rings(sector_count as nat, stack_count as nat, stack_count as nat + 1),
{
    let ghost sectors = sector_count as nat;
    let ghost stacks = stack_count as nat;
    assert(stack_count as int + 2 <= (stack_count as int + 2) * (sector_count as int + 1)
        && sector_count as int + 1 <= (stack_count as int + 2) * (sector_count as int + 1))
        by (nonlinear_arith);
    let mut indices: Vec<u32> = Vec::new();
    let mut i: u32 = 0;
    while i <= stack_count
        invariant
            i <= stack_count + 1,
            stack_count > 0,
            (stack_count as int + 2) * (sector_count as int + 1) <= u32::MAX,
            stack_count as int + 2 <= u32::MAX,
            sector_count as int + 1 <= u32::MAX,
            indices@ == sphere_rings(sectors, stacks, i as nat),
            sectors == sector_count as nat,
            stacks == stack_count as nat,
        decreases stack_count + 1 - i,
    {
        assert((i as int + 2) * (sector_count as int + 1) <= (stack_count as int + 2) * (
        sector_count as int + 1)) by (nonlinear_arith)
            requires
                i <= stack_count,
        ;
        assert(i as int * (sector_count as int + 1) <= (i as int + 2) * (sector_count as int + 1))
            by (nonlinear_arith);
        let row = i * (sector_count + 1);
        let ghost ring_start = indices@;
        let mut j: u32 = 0;
        while j <= sector_count
            invariant
                i <= stack_count,
                j <= sector_count + 1,
                stack_count > 0,
                (i as int + 2) * (sector_count as int + 1) <= u32::MAX,
                row as int == i as int * (sector_count as int + 1),
                indices@ == ring_start + sphere_ring(sectors, stacks, i as nat, j as nat),
                sectors == sector_count as nat,
                stacks == stack_count as nat,
            decreases sector_count + 1 - j,
        {
            assert((i as int + 2) * (sector_count as int + 1) == i as int * (sector_count as int
                + 1) + 2 * (sector_count as int + 1)) by (nonlinear_arith);
            let k1 = row + j;
            let k2 = k1 + sector_count + 1;
            let ghost before = indices@;
            if i != 0 {
                indices.push(k1);
                indices.push(k2);
                indices.push(k1 + 1);
            }
            if i != stack_count - 1 {
                indices.push(k1 + 1);
                indices.push(k2);
                indices.push(k2 + 1);
            }
            assert(indices@ =~= before + sphere_cell(sectors, stacks, i as nat, j as nat));
            j = j + 1;
            assert(indices@ =~= ring_start + sphere_ring(sectors, stacks, i as nat, j as nat));
        }
        i = i + 1;
        assert(indices@ =~= sphere_rings(sectors, stacks, i as nat));
    }
    indices
}

/// A generated shape wrapped as a model: one mesh drawing all its indices
/// with one material.
pub struct PrimitiveMesh<B, T, V> {
    pub model: Model<B, T, V>,
}

impl<B, T, V> PrimitiveMesh<B, T, V> {
    /// Wraps the uploaded vertex and index buffers of a shape, drawing
    /// `num_indices` indices, with `diffuse_texture` as its only material.
    pub fn new(diffuse_texture: T, vertex_buffer: B, index_buffer: B, num_indices: usize) -> (r:
        PrimitiveMesh<B, T, V>)
        requires
            num_indices <= u32::MAX,
        ensures
            r.model.wf(),
            r.model.materials@.len() == 1,
            r.model.materials@[0].name@ == "Cube"@,
            r.model.materials@[0].diffuse_texture == diffuse_texture,
            r.model.meshes@.len() == 1,
            r.model.meshes@[0].name@ == "Cube"@,
            r.model.meshes@[0].vertex_buffer == vertex_buffer,
            r.model.meshes@[0].index_buffer == index_buffer,
            r.model.meshes@[0].num_elements == num_indices,
            r.model.meshes@[0].material == 0,
            r.model.animations@.len() == 0,
    {
        let primitive_type = "Cube";
        let mut materials: Vec<Material<T>> = Vec::new();
        materials.push(Material { name: primitive_type.to_string(), diffuse_texture });
        let mut meshes: Vec<Mesh<B>> = Vec::new();
        meshes.push(
            Mesh {
                name: primitive_type.to_string(),
                vertex_buffer,
                index_buffer,
                num_elements: num_indices as u32,
                material: 0,
            },
        );
        PrimitiveMesh { model: Model { meshes, materials, animations: Vec::new() } }
    }
}

} // verus!
