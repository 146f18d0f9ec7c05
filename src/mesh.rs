//! Layout checks of a loaded mesh and the per-vertex triangle counts by which the
//! accumulated tangents and bitangents are averaged.
//!
//! A mesh arrives as flat arrays: three position components and two texture coordinates
//! per vertex, optionally three normal components per vertex, and a triangle list of
//! vertex indices. The tangent frame of each triangle is added to each of its three
//! vertices, and afterwards each vertex's sums are divided by the number of triangle
//! corners that refer to it; a vertex that no triangle refers to keeps a zero frame.
use vstd::prelude::*;

verus! {

#[derive(Clone, Copy, Debug, PartialEq, Eq, Structural)]
pub enum MeshError {
    /// Fewer than two texture coordinates per vertex.
    TexCoordsTooShort,
    /// Normals are given, but fewer than three components per vertex.
    NormalsTooShort,
    /// The index list does not split into whole triangles.
    IndicesNotTriangles,
    /// A triangle refers to a vertex that does not exist.
    IndexOutOfRange,
    /// The mesh refers to a material that the model does not have.
    MaterialOutOfRange,
}

/// How many entries of `indices` name vertex `v`: the number of triangle corners at `v`.
pub open spec fn incidence(indices: Seq<u32>, v: int) -> nat
    decreases indices.len(),
{
    if indices.len() == 0 {
        0
    } else {
        incidence(indices.drop_last(), v) + if indices.last() == v {
            1nat
        } else {
            0nat
        }
    }
}

pub open spec fn all_below(indices: Seq<u32>, n: int) -> bool {
    forall|j: int| 0 <= j < indices.len() ==> indices[j] < n
}

/// The number of vertices that a flat position array of `positions_len` components holds.
pub open spec fn vertex_count_of(positions_len: int) -> int {
    positions_len / 3
}

/// The result of checking a mesh's flat arrays, index list and material against each other.
pub open spec fn mesh_check(
    positions_len: int,
    texcoords_len: int,
    normals_len: int,
    indices: Seq<u32>,
    material_id: Option<usize>,
    material_count: int,
) -> Result<(), MeshError> {
    let n = vertex_count_of(positions_len);
    let material = match material_id {
        Some(m) => m as int,
        None => 0,
    };
    if texcoords_len < 2 * n {
        Err(MeshError::TexCoordsTooShort)
    } else if normals_len != 0 && normals_len < 3 * n {
        Err(MeshError::NormalsTooShort)
    } else if indices.len() % 3 != 0 {
        Err(MeshError::IndicesNotTriangles)
    } else if !all_below(indices, n) {
        Err(MeshError::IndexOutOfRange)
    } else if material >= material_count {
        Err(MeshError::MaterialOutOfRange)
    } else {
        Ok(())
    }
}

/// A mesh whose arrays were found consistent: its vertex count, the triangle count of
/// each vertex, and the index of its material in the model's material list.
pub struct MeshLayout {
    pub vertex_count: usize,
    pub triangle_counts: Vec<usize>,
    pub material: usize,
}

impl MeshLayout {
    /// The counts are those of `indices`, one per vertex, and the material exists.
    pub open spec fn describes(&self, indices: Seq<u32>, material_count: int) -> bool {
        &&& self.triangle_counts@.len() == self.vertex_count
        &&& forall|v: int|
            0 <= v < self.vertex_count ==> self.triangle_counts@[v] == incidence(indices, v)
        &&& self.material < material_count
    }
}

proof fn lemma_incidence_bounded(indices: Seq<u32>, v: int)
    ensures
        incidence(indices, v) <= indices.len(),
    decreases indices.len(),
{
    if indices.len() > 0 {
        lemma_incidence_bounded(indices.drop_last(), v);
    }
}

proof fn lemma_incidence_append(a: Seq<u32>, b: Seq<u32>, v: int)
    ensures
        incidence(a + b, v) == incidence(a, v) + incidence(b, v),
    decreases b.len(),
{
    if b.len() == 0 {
        assert(a + b =~= a);
    } else {
        assert((a + b).drop_last() =~= a + b.drop_last());
        lemma_incidence_append(a, b.drop_last(), v);
    }
}

/// The triangle of a triangle list with number `t`: its three indices.
pub open spec fn triangle_at(indices: Seq<u32>, t: int) -> Seq<u32> {
    indices.subrange(3 * t, 3 * t + 3)
}

/// A lone triangle with three distinct corners gives each corner a triangle count of one:
/// the divisor of each of its vertices' summed tangent frames is one.
pub proof fn lemma_single_triangle_counts(a: u32, b: u32, c: u32)
    requires
        a != b,
        b != c,
        a != c,
    ensures
        incidence(seq![a, b, c], a as int) == 1,
        incidence(seq![a, b, c], b as int) == 1,
        incidence(seq![a, b, c], c as int) == 1,
{
    let s = seq![a, b, c];
    assert(s.drop_last() =~= seq![a, b]);
    assert(seq![a, b].drop_last() =~= seq![a]);
    assert(seq![a].drop_last() =~= Seq::<u32>::empty());
    reveal_with_fuel(incidence, 4);
}

/// When each of the `k` triangles of a list names vertex `v` exactly once, the triangle
/// count at `v`, the divisor of its summed tangent frames, is `k`.
pub proof fn lemma_shared_vertex_count(indices: Seq<u32>, v: int)
    requires
        indices.len() % 3 == 0,
        forall|t: int| 0 <= t < indices.len() / 3 ==> incidence(#[trigger] triangle_at(indices, t), v) == 1,
    ensures
        incidence(indices, v) == indices.len() / 3,
    decreases indices.len(),
{
    if indices.len() > 0 {
        let k = indices.len() / 3;
        let front = indices.subrange(0, indices.len() - 3);
        let back = indices.subrange(indices.len() - 3, indices.len() as int);
        assert(indices =~= front + back);
        assert(back =~= triangle_at(indices, k - 1));
        assert forall|t: int| 0 <= t < front.len() / 3 implies incidence(#[trigger] triangle_at(front, t), v) == 1 by {
            assert(triangle_at(front, t) =~= triangle_at(indices, t));
        }
        lemma_shared_vertex_count(front, v);
        lemma_incidence_append(front, back, v);
    }
}

/// Whether every index names one of `vertex_count` vertices.
pub fn indices_in_range(indices: &Vec<u32>, vertex_count: usize) -> (r: bool)
    ensures
        r == all_below(indices@, vertex_count as int),
{
    let mut j: usize = 0;
    while j < indices.len()
        invariant
            j <= indices.len(),
            forall|k: int| 0 <= k < j ==> indices@[k] < vertex_count,
        decreases indices.len() - j,
    {
        if indices[j] as usize >= vertex_count {
            return false;
        }
        j = j + 1;
    }
    true
}

/// The triangle count of each of `vertex_count` vertices: how many entries of `indices`
/// name it. A triangle that names one vertex twice counts twice there.
pub fn triangle_counts(indices: &Vec<u32>, vertex_count: usize) -> (r: Vec<usize>)
    requires
        all_below(indices@, vertex_count as int),
    ensures
        r@.len() == vertex_count,
        forall|v: int| 0 <= v < vertex_count ==> r@[v] == incidence(indices@, v),
{
    let mut counts: Vec<usize> = Vec::new();
    let mut v: usize = 0;
    while v < vertex_count
        invariant
            v <= vertex_count,
            counts@.len() == v,
            forall|u: int| 0 <= u < v ==> counts@[u] == 0,
        decreases vertex_count - v,
    {
        counts.push(0);
        v = v + 1;
    }
    let mut j: usize = 0;
    while j < indices.len()
        invariant
            j <= indices.len(),
            counts@.len() == vertex_count,
            all_below(indices@, vertex_count as int),
            forall|u: int|
                0 <= u < vertex_count ==> counts@[u] == incidence(indices@.subrange(0, j as int), u),
        decreases indices.len() - j,
    {
        let i = indices[j] as usize;
        let ghost before = indices@.subrange(0, j as int);
        let ghost after = indices@.subrange(0, j + 1);
        assert(after.drop_last() =~= before);
        proof {
            lemma_incidence_bounded(before, i as int);
        }
        let c = counts[i];
        counts.set(i, c + 1);
        assert forall|u: int| 0 <= u < vertex_count implies counts@[u] == incidence(after, u) by {
            assert(after.last() == indices@[j as int]);
        }
        j = j + 1;
    }
    assert(indices@.subrange(0, j as int) =~= indices@);
    counts
}

/// Checks a mesh's flat arrays against each other and counts the triangles at each
/// vertex. The vertex count is the number of whole position triples; texture coordinates
/// must cover every vertex, and so must normals unless there are none; the index list
/// must be whole triangles of existing vertices; a mesh without a material id uses the
/// first material, which must exist.
pub fn check_mesh(
    positions_len: usize,
    texcoords_len: usize,
    normals_len: usize,
    indices: &Vec<u32>,
    material_id: Option<usize>,
    material_count: usize,
) -> (r: Result<MeshLayout, MeshError>)
    ensures
        match r {
            Ok(layout) => {
                &&& mesh_check(
                    positions_len as int,
                    texcoords_len as int,
                    normals_len as int,
                    indices@,
                    material_id,
                    material_count as int,
                ) == Ok::<(), MeshError>(())
                &&& layout.vertex_count == vertex_count_of(positions_len as int)
                &&& layout.material == match material_id {
                    Some(m) => m,
                    None => 0,
                }
                &&& layout.describes(indices@, material_count as int)
            },
            Err(e) => mesh_check(
                positions_len as int,
                texcoords_len as int,
                normals_len as int,
                indices@,
                material_id,
                material_count as int,
            ) == Err::<(), MeshError>(e),
        },
{
    let n = positions_len / 3;
    let material = match material_id {
        Some(m) => m,
        None => 0,
    };
    if texcoords_len / 2 < n {
        return Err(MeshError::TexCoordsTooShort);
    }
    if normals_len != 0 && normals_len / 3 < n {
        return Err(MeshError::NormalsTooShort);
    }
    if indices.len() % 3 != 0 {
        return Err(MeshError::IndicesNotTriangles);
    }
    if !indices_in_range(indices, n) {
        return Err(MeshError::IndexOutOfRange);
    }
    if material >= material_count {
        return Err(MeshError::MaterialOutOfRange);
    }
    let counts = triangle_counts(indices, n);
    Ok(MeshLayout { vertex_count: n, triangle_counts: counts, material })
}

} // verus!
