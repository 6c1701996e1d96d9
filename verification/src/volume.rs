//! The volume estimator: enclosed volume by signed-tetrahedron summation.
//!
//! For each face `(v0, v1, v2)` the signed volume of the tetrahedron
//! spanned by the triangle and the coordinate origin is one sixth of the
//! scalar triple product `v0 · (v1 × v2)`, expanded as a six-term
//! determinant. The per-face contributions are summed in face order and
//! the absolute value of the total is the enclosed volume: for a closed,
//! consistently wound surface the signed tetrahedra telescope to the true
//! volume whatever the reference origin, and the absolute value discards
//! the global orientation.

use crate::mesh::{face_in_bounds, vertex_in_grid, Mesh, Triangle, Vertex, COORD_LIMIT};
use crate::rational::{Frac, Rat};
use vstd::arithmetic::mul::{
    group_mul_is_distributive, lemma_mul_basics, lemma_mul_is_associative,
    lemma_mul_is_commutative, lemma_mul_is_distributive_add,
};
use vstd::prelude::*;

verus! {

/// A point or displacement with unbounded integer components.
pub struct Vec3 {
    pub x: int,
    pub y: int,
    pub z: int,
}

/// The vertex as a mathematical point.
pub open spec fn point_of(v: Vertex) -> Vec3 {
    Vec3 { x: v.x as int, y: v.y as int, z: v.z as int }
}

/// The vertex sequence as a sequence of mathematical points.
pub open spec fn points_of(vs: Seq<Vertex>) -> Seq<Vec3> {
    Seq::new(vs.len(), |i: int| point_of(vs[i]))
}

/// Component-wise vector sum.
pub open spec fn add3(a: Vec3, b: Vec3) -> Vec3 {
    Vec3 { x: a.x + b.x, y: a.y + b.y, z: a.z + b.z }
}

/// The zero vector.
pub open spec fn zero3() -> Vec3 {
    Vec3 { x: 0, y: 0, z: 0 }
}

/// The cross product `a × b`.
pub open spec fn cross(a: Vec3, b: Vec3) -> Vec3 {
    Vec3 {
        x: a.y * b.z - a.z * b.y,
        y: a.z * b.x - a.x * b.z,
        z: a.x * b.y - a.y * b.x,
    }
}

/// The dot product `a · b`.
pub open spec fn dot(a: Vec3, b: Vec3) -> int {
    a.x * b.x + a.y * b.y + a.z * b.z
}

/// Six times the signed volume of the tetrahedron spanned by the origin
/// and the triangle `(a, b, c)`: the scalar triple product `a · (b × c)`,
/// written as the six-term determinant the summation uses.
pub open spec fn det6(a: Vec3, b: Vec3, c: Vec3) -> int {
    -(c.x * b.y * a.z) + b.x * c.y * a.z + c.x * a.y * b.z - a.x * c.y * b.z - b.x * a.y * c.z
        + a.x * b.y * c.z
}

/// Six times the signed tetrahedron volume contributed by one face.
pub open spec fn face_det(ps: Seq<Vec3>, t: Triangle) -> int {
    det6(ps[t.v0 as int], ps[t.v1 as int], ps[t.v2 as int])
}

/// Six times the signed volume total, summed in face order.
pub open spec fn signed_sum6(ps: Seq<Vec3>, fs: Seq<Triangle>) -> int
    decreases fs.len(),
{
    if fs.len() == 0 {
        0
    } else {
        signed_sum6(ps, fs.drop_last()) + face_det(ps, fs.last())
    }
}

/// The absolute value.
pub open spec fn abs_int(x: int) -> int {
    if x < 0 {
        -x
    } else {
        x
    }
}

/// Six times the enclosed volume: the magnitude of the signed total.
pub open spec fn volume6(ps: Seq<Vec3>, fs: Seq<Triangle>) -> int {
    abs_int(signed_sum6(ps, fs))
}

/// The enclosed volume of a mesh, in cubes of the grid unit.
pub open spec fn mesh_volume(m: Mesh) -> Frac {
    Frac { num: volume6(points_of(m.vertices()), m.faces()), den: 6 }
}

/// Every face of `fs` references one of `n` vertices.
pub open spec fn faces_in_bounds(fs: Seq<Triangle>, n: nat) -> bool {
    forall|i: int| 0 <= i < fs.len() ==> face_in_bounds(#[trigger] fs[i], n)
}

/// Bound on the magnitude of one face determinant over grid vertices:
/// six times the cube of [`COORD_LIMIT`].
pub const DET_BOUND: i128 = 6_000_000_000_000_000_000;

/// `|a * b| <= ba * bb` whenever `|a| <= ba` and `|b| <= bb`.
proof fn lemma_mul_bound(a: int, b: int, ba: int, bb: int)
    by (nonlinear_arith)
    requires
        -ba <= a <= ba,
        -bb <= b <= bb,
    ensures
        -(ba * bb) <= a * b <= ba * bb,
{
}

/// The product of three grid coordinates, computed exactly in 128 bits.
fn grid_prod(x: i64, y: i64, z: i64) -> (p: i128)
    requires
        -COORD_LIMIT <= x <= COORD_LIMIT,
        -COORD_LIMIT <= y <= COORD_LIMIT,
        -COORD_LIMIT <= z <= COORD_LIMIT,
    ensures
        p as int == x * y * z,
        -1_000_000_000_000_000_000 <= p <= 1_000_000_000_000_000_000,
{
    proof {
        lemma_mul_bound(x as int, y as int, COORD_LIMIT as int, COORD_LIMIT as int);
        lemma_mul_bound(
            (x as int) * (y as int),
            z as int,
            1_000_000_000_000,
            COORD_LIMIT as int,
        );
    }
    (x as i128) * (y as i128) * (z as i128)
}

/// Six times the signed tetrahedron determinant of one face of a
/// well-formed mesh, computed exactly in 128 bits.
fn face_det6(a: Vertex, b: Vertex, c: Vertex) -> (d: i128)
    requires
        vertex_in_grid(a),
        vertex_in_grid(b),
        vertex_in_grid(c),
    ensures
        d as int == det6(point_of(a), point_of(b), point_of(c)),
        -DET_BOUND <= d <= DET_BOUND,
{
    let v321 = grid_prod(c.x, b.y, a.z);
    let v231 = grid_prod(b.x, c.y, a.z);
    let v312 = grid_prod(c.x, a.y, b.z);
    let v132 = grid_prod(a.x, c.y, b.z);
    let v213 = grid_prod(b.x, a.y, c.z);
    let v123 = grid_prod(a.x, b.y, c.z);
    -v321 + v231 + v312 - v132 - v213 + v123
}

/// The enclosed volume of the mesh: the magnitude of the sum over all
/// faces of the signed tetrahedron volumes, a non-negative rational.
pub fn calculate_volume(mesh: &Mesh) -> (r: Rat)
    requires
        mesh.wf(),
    ensures
        r.wf(),
        r@ == mesh_volume(*mesh),
        r@.num >= 0,
{
    let vs = mesh.vertex_slice();
    let fs = mesh.face_slice();
    let ghost ps = points_of(mesh.vertices());
    let mut acc: i128 = 0;
    let mut i: usize = 0;
    while i < fs.len()
        invariant
            0 <= i <= fs@.len(),
            vs@ == mesh.vertices(),
            fs@ == mesh.faces(),
            mesh.wf(),
            ps == points_of(mesh.vertices()),
            acc as int == signed_sum6(ps, mesh.faces().take(i as int)),
            -(i as int) * DET_BOUND <= acc as int <= (i as int) * DET_BOUND,
        decreases fs@.len() - i,
    {
        let t = fs[i];
        proof {
            assert(face_in_bounds(mesh.faces()[i as int], mesh.vertices().len()));
        }
        let a = vs[t.v0];
        let b = vs[t.v1];
        let c = vs[t.v2];
        let d = face_det6(a, b, c);
        proof {
            let pre = mesh.faces().take(i as int);
            let cur = mesh.faces().take(i + 1 as int);
            assert(cur.drop_last() =~= pre);
            assert(cur.last() == mesh.faces()[i as int]);
            assert(face_det(ps, mesh.faces()[i as int]) == d as int);
        }
        acc = acc + d;
        i = i + 1;
    }
    proof {
        assert(mesh.faces().take(mesh.faces().len() as int) =~= mesh.faces());
    }
    let v6 = if acc < 0 {
        -acc
    } else {
        acc
    };
    Rat::new(v6, 6)
}

/// Volume non-negativity: the enclosed volume is never negative,
/// whatever the mesh.
pub proof fn lemma_volume_nonnegative(ps: Seq<Vec3>, fs: Seq<Triangle>)
    ensures
        volume6(ps, fs) >= 0,
{
}

/// The face with reversed winding order.
pub open spec fn reversed(t: Triangle) -> Triangle {
    Triangle { v0: t.v0, v1: t.v2, v2: t.v1 }
}

/// Every face with reversed winding order.
pub open spec fn reversed_faces(fs: Seq<Triangle>) -> Seq<Triangle> {
    Seq::new(fs.len(), |i: int| reversed(fs[i]))
}

/// Reversing the winding of every face negates the signed total.
proof fn lemma_reversed_negates(ps: Seq<Vec3>, fs: Seq<Triangle>)
    ensures
        signed_sum6(ps, reversed_faces(fs)) == -signed_sum6(ps, fs),
    decreases fs.len(),
{
    if fs.len() == 0 {
        assert(reversed_faces(fs) =~= Seq::<Triangle>::empty());
    } else {
        lemma_reversed_negates(ps, fs.drop_last());
        assert(reversed_faces(fs).drop_last() =~= reversed_faces(fs.drop_last()));
        assert(reversed_faces(fs).last() == reversed(fs.last()));
    }
}

/// Orientation independence: reversing the winding order of every face
/// leaves the enclosed volume unchanged — the sign of the total flips and
/// is then discarded by the absolute value.
pub proof fn lemma_orientation_independence(ps: Seq<Vec3>, fs: Seq<Triangle>)
    ensures
        volume6(ps, reversed_faces(fs)) == volume6(ps, fs),
{
    lemma_reversed_negates(ps, fs);
}

/// Orientation independence at the mesh level: a mesh with the same
/// vertices and every face rewound has the same volume.
pub proof fn lemma_mesh_orientation_independence(m1: Mesh, m2: Mesh)
    requires
        m2.vertices() == m1.vertices(),
        m2.faces() == reversed_faces(m1.faces()),
    ensures
        mesh_volume(m2) == mesh_volume(m1),
{
    lemma_orientation_independence(points_of(m1.vertices()), m1.faces());
}

/// Every point translated by the displacement `t`.
pub open spec fn translate(ps: Seq<Vec3>, t: Vec3) -> Seq<Vec3> {
    Seq::new(ps.len(), |i: int| add3(ps[i], t))
}

/// The doubled area vector of one face:
/// `v0 × v1 + v1 × v2 + v2 × v0`.
pub open spec fn face_cross(ps: Seq<Vec3>, f: Triangle) -> Vec3 {
    add3(
        cross(ps[f.v0 as int], ps[f.v1 as int]),
        add3(cross(ps[f.v1 as int], ps[f.v2 as int]), cross(ps[f.v2 as int], ps[f.v0 as int])),
    )
}

/// The sum over all faces of the doubled area vectors. On a closed,
/// consistently wound surface every directed edge occurs together with
/// its reverse, so the cross terms cancel and this sum is zero.
pub open spec fn area_vector_sum(ps: Seq<Vec3>, fs: Seq<Triangle>) -> Vec3
    decreases fs.len(),
{
    if fs.len() == 0 {
        zero3()
    } else {
        add3(area_vector_sum(ps, fs.drop_last()), face_cross(ps, fs.last()))
    }
}

/// The determinant is linear in its first argument.
proof fn lemma_det6_linear_a(a: Vec3, s: Vec3, b: Vec3, c: Vec3)
    ensures
        det6(add3(a, s), b, c) == det6(a, b, c) + det6(s, b, c),
{
    broadcast use group_mul_is_distributive;

}

/// The determinant is linear in its second argument.
proof fn lemma_det6_linear_b(a: Vec3, b: Vec3, s: Vec3, c: Vec3)
    ensures
        det6(a, add3(b, s), c) == det6(a, b, c) + det6(a, s, c),
{
    broadcast use group_mul_is_distributive;

}

/// The determinant is linear in its third argument.
proof fn lemma_det6_linear_c(a: Vec3, b: Vec3, c: Vec3, s: Vec3)
    ensures
        det6(a, b, add3(c, s)) == det6(a, b, c) + det6(a, b, s),
{
    broadcast use group_mul_is_distributive;

}

/// A determinant with a repeated argument vanishes: its six terms cancel
/// in pairs.
proof fn lemma_det6_degenerate(t: Vec3, x: Vec3)
    ensures
        det6(t, t, x) == 0,
        det6(t, x, t) == 0,
        det6(x, t, t) == 0,
{
}

/// The determinant is the offset dotted with a cross product, for an
/// offset in each of the three positions.
proof fn lemma_det6_as_dot(a: Vec3, b: Vec3, c: Vec3, t: Vec3)
    ensures
        det6(t, b, c) == dot(t, cross(b, c)),
        det6(a, t, c) == dot(t, cross(c, a)),
        det6(a, b, t) == dot(t, cross(a, b)),
{
    broadcast use group_mul_is_distributive, lemma_mul_is_associative, lemma_mul_is_commutative;

}

/// The dot product distributes over vector addition.
proof fn lemma_dot_add(t: Vec3, u: Vec3, v: Vec3)
    ensures
        dot(t, add3(u, v)) == dot(t, u) + dot(t, v),
{
    lemma_mul_is_distributive_add(t.x, u.x, v.x);
    lemma_mul_is_distributive_add(t.y, u.y, v.y);
    lemma_mul_is_distributive_add(t.z, u.z, v.z);
}

/// Translating the three corners of a tetrahedron by `t` changes its
/// determinant by `t` dotted with the doubled area vector of the face.
proof fn lemma_det6_translate(a: Vec3, b: Vec3, c: Vec3, t: Vec3)
    ensures
        det6(add3(a, t), add3(b, t), add3(c, t)) == det6(a, b, c) + dot(
            t,
            add3(cross(a, b), add3(cross(b, c), cross(c, a))),
        ),
{
    let bt = add3(b, t);
    let ct = add3(c, t);
    lemma_det6_linear_a(a, t, bt, ct);
    lemma_det6_linear_b(a, b, t, ct);
    lemma_det6_linear_c(a, b, c, t);
    lemma_det6_linear_c(a, t, c, t);
    lemma_det6_linear_b(t, b, t, ct);
    lemma_det6_linear_c(t, b, c, t);
    lemma_det6_degenerate(t, a);
    lemma_det6_degenerate(t, b);
    lemma_det6_degenerate(t, ct);
    lemma_det6_as_dot(a, b, c, t);
    lemma_dot_add(t, cross(b, c), cross(c, a));
    lemma_dot_add(t, cross(a, b), add3(cross(b, c), cross(c, a)));
}

/// Translating every point shifts the signed total by `t` dotted with
/// the summed area vectors.
proof fn lemma_translate_sum(ps: Seq<Vec3>, fs: Seq<Triangle>, t: Vec3)
    requires
        faces_in_bounds(fs, ps.len()),
    ensures
        signed_sum6(translate(ps, t), fs) == signed_sum6(ps, fs) + dot(t, area_vector_sum(ps, fs)),
    decreases fs.len(),
{
    let tps = translate(ps, t);
    if fs.len() == 0 {
        lemma_mul_basics(t.x);
        lemma_mul_basics(t.y);
        lemma_mul_basics(t.z);
        assert(dot(t, zero3()) == 0);
    } else {
        assert(faces_in_bounds(fs.drop_last(), ps.len())) by {
            assert(forall|i: int|
                0 <= i < fs.drop_last().len() ==> #[trigger] fs.drop_last()[i] == fs[i]);
        }
        lemma_translate_sum(ps, fs.drop_last(), t);
        let f = fs.last();
        assert(face_in_bounds(fs[fs.len() - 1], ps.len()));
        lemma_det6_translate(ps[f.v0 as int], ps[f.v1 as int], ps[f.v2 as int], t);
        assert(tps[f.v0 as int] == add3(ps[f.v0 as int], t));
        assert(tps[f.v1 as int] == add3(ps[f.v1 as int], t));
        assert(tps[f.v2 as int] == add3(ps[f.v2 as int], t));
        lemma_dot_add(t, area_vector_sum(ps, fs.drop_last()), face_cross(ps, f));
        assert(signed_sum6(tps, fs) == signed_sum6(tps, fs.drop_last()) + face_det(tps, f));
        assert(face_det(tps, f) == det6(
            add3(ps[f.v0 as int], t),
            add3(ps[f.v1 as int], t),
            add3(ps[f.v2 as int], t),
        ));
        assert(area_vector_sum(ps, fs) == add3(
            area_vector_sum(ps, fs.drop_last()),
            face_cross(ps, f),
        ));
        assert(face_det(tps, f) == face_det(ps, f) + dot(t, face_cross(ps, f)));
        assert(signed_sum6(ps, fs) == signed_sum6(ps, fs.drop_last()) + face_det(ps, f));
    }
}

/// Origin independence: translating every vertex by a constant offset
/// leaves the enclosed volume unchanged, provided the surface is closed —
/// closedness enters as the hypothesis that the summed area vectors
/// cancel, which holds whenever every directed edge occurs together with
/// its reverse.
pub proof fn lemma_origin_independence(ps: Seq<Vec3>, fs: Seq<Triangle>, t: Vec3)
    requires
        faces_in_bounds(fs, ps.len()),
        area_vector_sum(ps, fs) == zero3(),
    ensures
        volume6(translate(ps, t), fs) == volume6(ps, fs),
{
    lemma_translate_sum(ps, fs, t);
    lemma_mul_basics(t.x);
    lemma_mul_basics(t.y);
    lemma_mul_basics(t.z);
    assert(dot(t, zero3()) == 0);
}

/// Origin independence at the mesh level: a well-formed mesh whose
/// vertices are all shifted by the same offset, with the faces kept, has
/// the same volume — again provided the summed area vectors cancel.
pub proof fn lemma_mesh_origin_independence(m1: Mesh, m2: Mesh, t: Vec3)
    requires
        m1.wf(),
        m2.faces() == m1.faces(),
        m2.vertices().len() == m1.vertices().len(),
        forall|i: int|
            0 <= i < m1.vertices().len() ==> point_of(#[trigger] m2.vertices()[i]) == add3(
                point_of(m1.vertices()[i]),
                t,
            ),
        area_vector_sum(points_of(m1.vertices()), m1.faces()) == zero3(),
    ensures
        mesh_volume(m2) == mesh_volume(m1),
{
    let ps = points_of(m1.vertices());
    assert(points_of(m2.vertices()) =~= translate(ps, t));
    assert(faces_in_bounds(m1.faces(), ps.len())) by {
        assert(forall|i: int|
            0 <= i < m1.faces().len() ==> face_in_bounds(#[trigger] m1.faces()[i],
            m1.vertices().len()));
    }
    lemma_origin_independence(ps, m1.faces(), t);
}

} // verus!
