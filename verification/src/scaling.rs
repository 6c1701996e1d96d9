//! The scale adjuster: the volume after fitting the mesh to target
//! dimensions.
//!
//! The mesh's axis-aligned bounding box gives its current extent along
//! each axis; the target dimensions divided by the current extents give
//! three independent linear scale factors, and the volume scales with
//! their product. A mesh without vertices or with a zero extent along
//! some axis has no defined scale factor and is rejected with a distinct
//! error rather than clamped.

use crate::mesh::{extent_x, extent_y, extent_z, lemma_grid_box_bounds, Mesh};
use crate::rational::{
    fits_i128, frac_lt, frac_mul, frac_wf, lemma_frac_mul_lt_left, lemma_frac_mul_lt_right,
    lemma_frac_mul_wf, Frac, Rat,
};
use crate::WeightError;
use vstd::arithmetic::mul::lemma_mul_strictly_positive;
use vstd::prelude::*;

verus! {

/// The per-axis scale factor: a target dimension divided by the current
/// extent `c` along that axis.
pub open spec fn axis_factor(target: Frac, c: int) -> Frac {
    Frac { num: target.num, den: target.den * c }
}

/// The scale factors are undefined: the mesh has no vertices, or some
/// current extent is zero.
pub open spec fn scale_degenerate(m: Mesh) -> bool {
    ||| m.vertices().len() == 0
    ||| extent_x(m.vertices()) == 0
    ||| extent_y(m.vertices()) == 0
    ||| extent_z(m.vertices()) == 0
}

/// The exact scaled volume: the original volume multiplied by the three
/// per-axis scale factors in axis order.
pub open spec fn scaled_volume_frac(v: Frac, tx: Frac, ty: Frac, tz: Frac, m: Mesh) -> Frac {
    frac_mul(
        frac_mul(
            frac_mul(v, axis_factor(tx, extent_x(m.vertices()))),
            axis_factor(ty, extent_y(m.vertices())),
        ),
        axis_factor(tz, extent_z(m.vertices())),
    )
}

/// Every intermediate product of the scaling computation fits in 128
/// bits.
pub open spec fn scale_fits(v: Frac, tx: Frac, ty: Frac, tz: Frac, m: Mesh) -> bool {
    let fx = axis_factor(tx, extent_x(m.vertices()));
    let fy = axis_factor(ty, extent_y(m.vertices()));
    let fz = axis_factor(tz, extent_z(m.vertices()));
    let m1 = frac_mul(v, fx);
    let m2 = frac_mul(m1, fy);
    &&& fits_i128(fx.den)
    &&& fits_i128(fy.den)
    &&& fits_i128(fz.den)
    &&& fits_i128(v.num * fx.num)
    &&& fits_i128(v.den * fx.den)
    &&& fits_i128(m1.num * fy.num)
    &&& fits_i128(m1.den * fy.den)
    &&& fits_i128(m2.num * fz.num)
    &&& fits_i128(m2.den * fz.den)
}

/// The volume the mesh would have after independent per-axis scaling to
/// the target dimensions. Degenerate geometry is reported exactly when
/// the mesh has no vertices or a zero extent; with defined scale factors
/// the result is the exact product, or an overflow error when it cannot
/// be carried in 128 bits.
pub fn scale_volume(
    original_volume: &Rat,
    desired_x: &Rat,
    desired_y: &Rat,
    desired_z: &Rat,
    mesh: &Mesh,
) -> (r: Result<Rat, WeightError>)
    requires
        original_volume.wf(),
        desired_x.wf(),
        desired_y.wf(),
        desired_z.wf(),
        mesh.wf(),
    ensures
        scale_degenerate(*mesh) <==> r == Err::<Rat, WeightError>(WeightError::DegenerateGeometry),
        !scale_degenerate(*mesh) ==> (r is Ok <==> scale_fits(
            original_volume@,
            desired_x@,
            desired_y@,
            desired_z@,
            *mesh,
        )),
        r matches Ok(v) ==> v.wf() && v@ == scaled_volume_frac(
            original_volume@,
            desired_x@,
            desired_y@,
            desired_z@,
            *mesh,
        ),
        !scale_degenerate(*mesh) && r is Err ==> r == Err::<Rat, WeightError>(
            WeightError::ArithmeticOverflow,
        ),
{
    let bb = match mesh.bounding_box() {
        Some(b) => b,
        None => {
            return Err(WeightError::DegenerateGeometry);
        },
    };
    proof {
        lemma_grid_box_bounds(mesh.vertices());
    }
    let cx = bb.max_x - bb.min_x;
    let cy = bb.max_y - bb.min_y;
    let cz = bb.max_z - bb.min_z;
    if cx == 0 || cy == 0 || cz == 0 {
        return Err(WeightError::DegenerateGeometry);
    }
    let fx = match desired_x.den.checked_mul(cx as i128) {
        Some(d) => {
            proof {
                lemma_mul_strictly_positive(desired_x.den as int, cx as int);
            }
            Rat { num: desired_x.num, den: d }
        },
        None => {
            return Err(WeightError::ArithmeticOverflow);
        },
    };
    let fy = match desired_y.den.checked_mul(cy as i128) {
        Some(d) => {
            proof {
                lemma_mul_strictly_positive(desired_y.den as int, cy as int);
            }
            Rat { num: desired_y.num, den: d }
        },
        None => {
            return Err(WeightError::ArithmeticOverflow);
        },
    };
    let fz = match desired_z.den.checked_mul(cz as i128) {
        Some(d) => {
            proof {
                lemma_mul_strictly_positive(desired_z.den as int, cz as int);
            }
            Rat { num: desired_z.num, den: d }
        },
        None => {
            return Err(WeightError::ArithmeticOverflow);
        },
    };
    let m1 = match original_volume.checked_mul(&fx) {
        Some(v) => v,
        None => {
            return Err(WeightError::ArithmeticOverflow);
        },
    };
    let m2 = match m1.checked_mul(&fy) {
        Some(v) => v,
        None => {
            return Err(WeightError::ArithmeticOverflow);
        },
    };
    let m3 = match m2.checked_mul(&fz) {
        Some(v) => v,
        None => {
            return Err(WeightError::ArithmeticOverflow);
        },
    };
    Ok(m3)
}

/// Scale monotonicity along the x axis: with a positive original volume,
/// positive current extents and positive other targets, strictly
/// increasing the x target strictly increases the scaled volume.
pub proof fn lemma_scale_monotone_x(v: Frac, tx1: Frac, tx2: Frac, ty: Frac, tz: Frac, m: Mesh)
    requires
        frac_wf(v),
        frac_wf(tx1),
        frac_wf(tx2),
        frac_wf(ty),
        frac_wf(tz),
        v.num > 0,
        ty.num > 0,
        tz.num > 0,
        extent_x(m.vertices()) > 0,
        extent_y(m.vertices()) > 0,
        extent_z(m.vertices()) > 0,
        frac_lt(tx1, tx2),
    ensures
        frac_lt(
            scaled_volume_frac(v, tx1, ty, tz, m),
            scaled_volume_frac(v, tx2, ty, tz, m),
        ),
{
    let cx = extent_x(m.vertices());
    let cy = extent_y(m.vertices());
    let cz = extent_z(m.vertices());
    let fx1 = axis_factor(tx1, cx);
    let fx2 = axis_factor(tx2, cx);
    let fy = axis_factor(ty, cy);
    let fz = axis_factor(tz, cz);
    lemma_mul_strictly_positive(tx1.den, cx);
    lemma_mul_strictly_positive(tx2.den, cx);
    lemma_mul_strictly_positive(ty.den, cy);
    lemma_mul_strictly_positive(tz.den, cz);
    assert(frac_lt(fx1, fx2)) by {
        lemma_mul_strictly_positive(tx1.den, cx);
        lemma_mul_strictly_positive(tx2.den, cx);
        vstd::arithmetic::mul::lemma_mul_strict_inequality(
            tx1.num * tx2.den,
            tx2.num * tx1.den,
            cx,
        );
        vstd::arithmetic::mul::lemma_mul_is_associative(tx1.num, tx2.den, cx);
        vstd::arithmetic::mul::lemma_mul_is_associative(tx2.num, tx1.den, cx);
        vstd::arithmetic::mul::lemma_mul_is_commutative(tx1.num * tx2.den, cx);
        vstd::arithmetic::mul::lemma_mul_is_commutative(tx2.num * tx1.den, cx);
    }
    lemma_frac_mul_lt_left(v, fx1, fx2);
    lemma_frac_mul_wf(v, fx1);
    lemma_frac_mul_wf(v, fx2);
    lemma_frac_mul_lt_right(frac_mul(v, fx1), frac_mul(v, fx2), fy);
    lemma_frac_mul_wf(frac_mul(v, fx1), fy);
    lemma_frac_mul_wf(frac_mul(v, fx2), fy);
    lemma_frac_mul_lt_right(
        frac_mul(frac_mul(v, fx1), fy),
        frac_mul(frac_mul(v, fx2), fy),
        fz,
    );
}

/// Scale monotonicity along the y axis.
pub proof fn lemma_scale_monotone_y(v: Frac, tx: Frac, ty1: Frac, ty2: Frac, tz: Frac, m: Mesh)
    requires
        frac_wf(v),
        frac_wf(tx),
        frac_wf(ty1),
        frac_wf(ty2),
        frac_wf(tz),
        v.num > 0,
        tx.num > 0,
        tz.num > 0,
        extent_x(m.vertices()) > 0,
        extent_y(m.vertices()) > 0,
        extent_z(m.vertices()) > 0,
        frac_lt(ty1, ty2),
    ensures
        frac_lt(
            scaled_volume_frac(v, tx, ty1, tz, m),
            scaled_volume_frac(v, tx, ty2, tz, m),
        ),
{
    let cx = extent_x(m.vertices());
    let cy = extent_y(m.vertices());
    let cz = extent_z(m.vertices());
    let fx = axis_factor(tx, cx);
    let fy1 = axis_factor(ty1, cy);
    let fy2 = axis_factor(ty2, cy);
    let fz = axis_factor(tz, cz);
    lemma_mul_strictly_positive(tx.den, cx);
    lemma_mul_strictly_positive(ty1.den, cy);
    lemma_mul_strictly_positive(ty2.den, cy);
    lemma_mul_strictly_positive(tz.den, cz);
    assert(frac_lt(fy1, fy2)) by {
        lemma_mul_strictly_positive(ty1.den, cy);
        lemma_mul_strictly_positive(ty2.den, cy);
        vstd::arithmetic::mul::lemma_mul_strict_inequality(
            ty1.num * ty2.den,
            ty2.num * ty1.den,
            cy,
        );
        vstd::arithmetic::mul::lemma_mul_is_associative(ty1.num, ty2.den, cy);
        vstd::arithmetic::mul::lemma_mul_is_associative(ty2.num, ty1.den, cy);
        vstd::arithmetic::mul::lemma_mul_is_commutative(ty1.num * ty2.den, cy);
        vstd::arithmetic::mul::lemma_mul_is_commutative(ty2.num * ty1.den, cy);
    }
    lemma_frac_mul_wf(v, fx);
    assert(frac_mul(v, fx).num > 0) by {
        lemma_mul_strictly_positive(v.num, fx.num);
    }
    lemma_frac_mul_lt_left(frac_mul(v, fx), fy1, fy2);
    lemma_frac_mul_wf(frac_mul(v, fx), fy1);
    lemma_frac_mul_wf(frac_mul(v, fx), fy2);
    lemma_frac_mul_lt_right(
        frac_mul(frac_mul(v, fx), fy1),
        frac_mul(frac_mul(v, fx), fy2),
        fz,
    );
}

/// Scale monotonicity along the z axis.
pub proof fn lemma_scale_monotone_z(v: Frac, tx: Frac, ty: Frac, tz1: Frac, tz2: Frac, m: Mesh)
    requires
        frac_wf(v),
        frac_wf(tx),
        frac_wf(ty),
        frac_wf(tz1),
        frac_wf(tz2),
        v.num > 0,
        tx.num > 0,
        ty.num > 0,
        extent_x(m.vertices()) > 0,
        extent_y(m.vertices()) > 0,
        extent_z(m.vertices()) > 0,
        frac_lt(tz1, tz2),
    ensures
        frac_lt(
            scaled_volume_frac(v, tx, ty, tz1, m),
            scaled_volume_frac(v, tx, ty, tz2, m),
        ),
{
    let cx = extent_x(m.vertices());
    let cy = extent_y(m.vertices());
    let cz = extent_z(m.vertices());
    let fx = axis_factor(tx, cx);
    let fy = axis_factor(ty, cy);
    let fz1 = axis_factor(tz1, cz);
    let fz2 = axis_factor(tz2, cz);
    lemma_mul_strictly_positive(tx.den, cx);
    lemma_mul_strictly_positive(ty.den, cy);
    lemma_mul_strictly_positive(tz1.den, cz);
    lemma_mul_strictly_positive(tz2.den, cz);
    assert(frac_lt(fz1, fz2)) by {
        lemma_mul_strictly_positive(tz1.den, cz);
        lemma_mul_strictly_positive(tz2.den, cz);
        vstd::arithmetic::mul::lemma_mul_strict_inequality(
            tz1.num * tz2.den,
            tz2.num * tz1.den,
            cz,
        );
        vstd::arithmetic::mul::lemma_mul_is_associative(tz1.num, tz2.den, cz);
        vstd::arithmetic::mul::lemma_mul_is_associative(tz2.num, tz1.den, cz);
        vstd::arithmetic::mul::lemma_mul_is_commutative(tz1.num * tz2.den, cz);
        vstd::arithmetic::mul::lemma_mul_is_commutative(tz2.num * tz1.den, cz);
    }
    lemma_frac_mul_wf(v, fx);
    assert(frac_mul(v, fx).num > 0) by {
        lemma_mul_strictly_positive(v.num, fx.num);
    }
    lemma_frac_mul_wf(frac_mul(v, fx), fy);
    assert(frac_mul(frac_mul(v, fx), fy).num > 0) by {
        lemma_mul_strictly_positive(frac_mul(v, fx).num, fy.num);
    }
    lemma_frac_mul_lt_left(frac_mul(frac_mul(v, fx), fy), fz1, fz2);
}

} // verus!
