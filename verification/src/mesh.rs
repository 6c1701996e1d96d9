//! The triangulated surface mesh and its axis-aligned bounding box.
//!
//! A mesh is an ordered sequence of vertices on an integer coordinate grid
//! and an ordered sequence of triangular faces, each a triple of indices
//! into the vertex sequence. Winding order is significant: it encodes the
//! orientation used by the signed-volume computation. The validating
//! constructor is the only way to build a mesh, so every mesh in verified
//! code has in-bounds face indices, grid-bounded coordinates, and a face
//! count small enough that the volume summation cannot overflow.

use crate::WeightError;
use vstd::prelude::*;

verus! {

/// Largest magnitude of a vertex coordinate on the grid.
pub const COORD_LIMIT: i64 = 1_000_000;

/// Largest number of faces a mesh may have.
pub const MAX_FACES: usize = 1_000_000_000;

/// A vertex: a 3-component coordinate on the integer grid.
#[derive(Clone, Copy, Debug, PartialEq, Eq, Structural)]
pub struct Vertex {
    pub x: i64,
    pub y: i64,
    pub z: i64,
}

/// A triangular face: three indices into the vertex sequence, in winding
/// order.
#[derive(Clone, Copy, Debug, PartialEq, Eq, Structural)]
pub struct Triangle {
    pub v0: usize,
    pub v1: usize,
    pub v2: usize,
}

/// Every coordinate of `v` has magnitude at most [`COORD_LIMIT`].
pub open spec fn vertex_in_grid(v: Vertex) -> bool {
    &&& -COORD_LIMIT <= v.x <= COORD_LIMIT
    &&& -COORD_LIMIT <= v.y <= COORD_LIMIT
    &&& -COORD_LIMIT <= v.z <= COORD_LIMIT
}

/// Every index of `t` references one of `n` vertices.
pub open spec fn face_in_bounds(t: Triangle, n: nat) -> bool {
    t.v0 < n && t.v1 < n && t.v2 < n
}

/// The component-wise minimum and maximum over all vertices of a mesh.
#[derive(Clone, Copy, Debug, PartialEq, Eq, Structural)]
pub struct BoundingBox {
    pub min_x: i64,
    pub min_y: i64,
    pub min_z: i64,
    pub max_x: i64,
    pub max_y: i64,
    pub max_z: i64,
}

/// The least value of `f` over a non-empty vertex sequence.
pub open spec fn seq_min(vs: Seq<Vertex>, f: spec_fn(Vertex) -> int) -> int
    decreases vs.len(),
{
    if vs.len() <= 1 {
        f(vs[0])
    } else {
        let m = seq_min(vs.drop_last(), f);
        if f(vs.last()) < m {
            f(vs.last())
        } else {
            m
        }
    }
}

/// The greatest value of `f` over a non-empty vertex sequence.
pub open spec fn seq_max(vs: Seq<Vertex>, f: spec_fn(Vertex) -> int) -> int
    decreases vs.len(),
{
    if vs.len() <= 1 {
        f(vs[0])
    } else {
        let m = seq_max(vs.drop_last(), f);
        if f(vs.last()) > m {
            f(vs.last())
        } else {
            m
        }
    }
}

pub open spec fn min_x(vs: Seq<Vertex>) -> int {
    seq_min(vs, |v: Vertex| v.x as int)
}

pub open spec fn min_y(vs: Seq<Vertex>) -> int {
    seq_min(vs, |v: Vertex| v.y as int)
}

pub open spec fn min_z(vs: Seq<Vertex>) -> int {
    seq_min(vs, |v: Vertex| v.z as int)
}

pub open spec fn max_x(vs: Seq<Vertex>) -> int {
    seq_max(vs, |v: Vertex| v.x as int)
}

pub open spec fn max_y(vs: Seq<Vertex>) -> int {
    seq_max(vs, |v: Vertex| v.y as int)
}

pub open spec fn max_z(vs: Seq<Vertex>) -> int {
    seq_max(vs, |v: Vertex| v.z as int)
}

/// The current size of the mesh along the x axis.
pub open spec fn extent_x(vs: Seq<Vertex>) -> int {
    max_x(vs) - min_x(vs)
}

/// The current size of the mesh along the y axis.
pub open spec fn extent_y(vs: Seq<Vertex>) -> int {
    max_y(vs) - min_y(vs)
}

/// The current size of the mesh along the z axis.
pub open spec fn extent_z(vs: Seq<Vertex>) -> int {
    max_z(vs) - min_z(vs)
}

/// Over a non-empty sequence of grid vertices, each component-wise
/// minimum and maximum lies on the grid, and the minimum does not exceed
/// the maximum.
pub proof fn lemma_grid_box_bounds(vs: Seq<Vertex>)
    requires
        vs.len() > 0,
        forall|i: int| 0 <= i < vs.len() ==> vertex_in_grid(#[trigger] vs[i]),
    ensures
        -COORD_LIMIT <= min_x(vs) <= max_x(vs) <= COORD_LIMIT,
        -COORD_LIMIT <= min_y(vs) <= max_y(vs) <= COORD_LIMIT,
        -COORD_LIMIT <= min_z(vs) <= max_z(vs) <= COORD_LIMIT,
    decreases vs.len(),
{
    assert(vertex_in_grid(vs[vs.len() - 1]));
    if vs.len() > 1 {
        assert(forall|i: int|
            0 <= i < vs.drop_last().len() ==> #[trigger] vs.drop_last()[i] == vs[i]);
        lemma_grid_box_bounds(vs.drop_last());
    } else {
        assert(vertex_in_grid(vs[0]));
    }
}

/// An immutable triangulated surface mesh with validated structure.
#[derive(Clone, Debug)]
pub struct Mesh {
    vertices: Vec<Vertex>,
    faces: Vec<Triangle>,
}

impl Mesh {
    /// The vertex sequence.
    pub closed spec fn vertices(&self) -> Seq<Vertex> {
        self.vertices@
    }

    /// The face sequence.
    pub closed spec fn faces(&self) -> Seq<Triangle> {
        self.faces@
    }

    /// Structural validity: grid-bounded coordinates, in-bounds face
    /// indices, and a bounded face count.
    pub open spec fn wf(&self) -> bool {
        &&& forall|i: int|
            0 <= i < self.vertices().len() ==> vertex_in_grid(#[trigger] self.vertices()[i])
        &&& forall|i: int|
            0 <= i < self.faces().len() ==> face_in_bounds(
                #[trigger] self.faces()[i],
                self.vertices().len(),
            )
        &&& self.faces().len() <= MAX_FACES
    }

    /// Validating constructor: accepts the vertex and face sequences
    /// exactly when every coordinate is on the grid, every face index is
    /// in bounds, and the face count is within the supported limit;
    /// rejects them with [`WeightError::InvalidMesh`] otherwise.
    pub fn new(vertices: Vec<Vertex>, faces: Vec<Triangle>) -> (r: Result<Mesh, WeightError>)
        ensures
            r is Ok <==> {
                &&& forall|i: int|
                    0 <= i < vertices@.len() ==> vertex_in_grid(#[trigger] vertices@[i])
                &&& forall|i: int|
                    0 <= i < faces@.len() ==> face_in_bounds(#[trigger] faces@[i], vertices@.len())
                &&& faces@.len() <= MAX_FACES
            },
            r matches Ok(m) ==> m.wf() && m.vertices() == vertices@ && m.faces() == faces@,
            r is Err ==> r == Err::<Mesh, WeightError>(WeightError::InvalidMesh),
    {
        if faces.len() > MAX_FACES {
            return Err(WeightError::InvalidMesh);
        }
        let n = vertices.len();
        let mut i: usize = 0;
        while i < vertices.len()
            invariant
                0 <= i <= vertices@.len(),
                forall|j: int| 0 <= j < i ==> vertex_in_grid(#[trigger] vertices@[j]),
            decreases vertices@.len() - i,
        {
            let v = vertices[i];
            if v.x < -COORD_LIMIT || v.x > COORD_LIMIT || v.y < -COORD_LIMIT || v.y > COORD_LIMIT
                || v.z < -COORD_LIMIT || v.z > COORD_LIMIT {
                return Err(WeightError::InvalidMesh);
            }
            i = i + 1;
        }
        let mut k: usize = 0;
        while k < faces.len()
            invariant
                0 <= k <= faces@.len(),
                n == vertices@.len(),
                forall|j: int| 0 <= j < k ==> face_in_bounds(#[trigger] faces@[j], vertices@.len()),
            decreases faces@.len() - k,
        {
            let t = faces[k];
            if t.v0 >= n || t.v1 >= n || t.v2 >= n {
                return Err(WeightError::InvalidMesh);
            }
            k = k + 1;
        }
        Ok(Mesh { vertices, faces })
    }

    /// Read access to the vertices.
    pub fn vertex_slice(&self) -> (v: &Vec<Vertex>)
        ensures
            v@ == self.vertices(),
    {
        &self.vertices
    }

    /// Read access to the faces.
    pub fn face_slice(&self) -> (f: &Vec<Triangle>)
        ensures
            f@ == self.faces(),
    {
        &self.faces
    }

    /// The component-wise minimum and maximum over all vertices, or `None`
    /// for a mesh without vertices.
    pub fn bounding_box(&self) -> (r: Option<BoundingBox>)
        requires
            self.wf(),
        ensures
            r is Some <==> self.vertices().len() > 0,
            r matches Some(b) ==> {
                &&& b.min_x as int == min_x(self.vertices())
                &&& b.min_y as int == min_y(self.vertices())
                &&& b.min_z as int == min_z(self.vertices())
                &&& b.max_x as int == max_x(self.vertices())
                &&& b.max_y as int == max_y(self.vertices())
                &&& b.max_z as int == max_z(self.vertices())
            },
    {
        let vs = &self.vertices;
        if vs.len() == 0 {
            return None;
        }
        let first = vs[0];
        let mut b = BoundingBox {
            min_x: first.x,
            min_y: first.y,
            min_z: first.z,
            max_x: first.x,
            max_y: first.y,
            max_z: first.z,
        };
        let ghost s = self.vertices();
        proof {
            assert(s.take(1)[0] == s[0]);
        }
        let mut i: usize = 1;
        while i < vs.len()
            invariant
                1 <= i <= s.len(),
                s == self.vertices(),
                vs@ == s,
                b.min_x as int == min_x(s.take(i as int)),
                b.min_y as int == min_y(s.take(i as int)),
                b.min_z as int == min_z(s.take(i as int)),
                b.max_x as int == max_x(s.take(i as int)),
                b.max_y as int == max_y(s.take(i as int)),
                b.max_z as int == max_z(s.take(i as int)),
            decreases s.len() - i,
        {
            let v = vs[i];
            proof {
                let t = s.take(i + 1 as int);
                assert(t.drop_last() =~= s.take(i as int));
                assert(t.last() == s[i as int]);
            }
            if v.x < b.min_x {
                b.min_x = v.x;
            }
            if v.y < b.min_y {
                b.min_y = v.y;
            }
            if v.z < b.min_z {
                b.min_z = v.z;
            }
            if v.x > b.max_x {
                b.max_x = v.x;
            }
            if v.y > b.max_y {
                b.max_y = v.y;
            }
            if v.z > b.max_z {
                b.max_z = v.z;
            }
            i = i + 1;
        }
        proof {
            assert(s.take(s.len() as int) =~= s);
        }
        Some(b)
    }
}

} // verus!
