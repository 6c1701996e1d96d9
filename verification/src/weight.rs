//! The weight estimator: mass in grams from a scaled volume, an infill
//! fraction, and a material density.
//!
//! The shell/infill decomposition model: a fixed fraction of the total
//! volume — a shell percentage derived from a 0.8 mm shell thickness
//! divided by an empirical constant 10, plus a 15 % solid-layer factor —
//! is always fully solid; of the remaining fraction only the infill
//! percentage is material. The volume arrives in cubic millimetres and is
//! converted to cubic centimetres, so that multiplying by a density in
//! grams per cubic centimetre yields grams. The constants are empirical
//! and preserved exactly.

use crate::material::{density_frac, Material};
use crate::mesh::Mesh;
use crate::rational::{
    fits_i128, frac_add, frac_le, frac_lt, frac_mul, frac_of_int, frac_sub, frac_wf,
    lemma_frac_add_le, lemma_frac_add_lt, lemma_frac_add_wf, lemma_frac_mul_le_left,
    lemma_frac_mul_le_right, lemma_frac_mul_lt_left, lemma_frac_mul_lt_right, lemma_frac_mul_wf,
    Frac, Rat,
};
use crate::scaling::{scale_degenerate, scale_fits, scale_volume, scaled_volume_frac};
use crate::volume::{calculate_volume, mesh_volume};
use crate::WeightError;
use vstd::arithmetic::mul::{lemma_mul_nonnegative, lemma_mul_strictly_positive};
use vstd::prelude::*;

verus! {

/// The shell thickness in millimetres: two 0.4 mm perimeters.
pub open spec fn shell_thickness() -> Frac {
    Frac { num: 8, den: 10 }
}

/// The shell volume percentage: the shell thickness divided by the
/// empirical constant 10.
pub open spec fn shell_volume_percentage() -> Frac {
    frac_mul(shell_thickness(), Frac { num: 1, den: 10 })
}

/// The fraction of volume attributed to solid top and bottom layers.
pub open spec fn solid_layers_factor() -> Frac {
    Frac { num: 15, den: 100 }
}

/// The fraction of the volume that is always fully solid.
pub open spec fn fixed_solid_fraction() -> Frac {
    frac_add(shell_volume_percentage(), solid_layers_factor())
}

/// The fraction of the volume that is infill space.
pub open spec fn infill_space_fraction() -> Frac {
    frac_sub(frac_of_int(1), fixed_solid_fraction())
}

/// The estimated mass in grams: the effective solid volume in cubic
/// centimetres times the density, where the effective volume is the
/// always-solid fraction of the volume plus the infill percentage of the
/// remaining fraction.
pub open spec fn weight_model(v: Frac, p: Frac, d: Frac) -> Frac {
    let vc = frac_mul(v, Frac { num: 1, den: 1000 });
    let s1 = frac_mul(fixed_solid_fraction(), vc);
    let s2 = frac_mul(
        frac_mul(infill_space_fraction(), vc),
        frac_mul(p, Frac { num: 1, den: 100 }),
    );
    frac_mul(frac_add(s1, s2), d)
}

/// The infill percentage lies outside the interval [0, 100].
pub open spec fn infill_out_of_range(p: Frac) -> bool {
    p.num < 0 || p.num > 100 * p.den
}

/// Every intermediate product of the weight computation fits in 128
/// bits.
pub open spec fn weight_fits(v: Frac, p: Frac, d: Frac) -> bool {
    let vc = frac_mul(v, Frac { num: 1, den: 1000 });
    let s1 = frac_mul(fixed_solid_fraction(), vc);
    let rv = frac_mul(infill_space_fraction(), vc);
    let pc = frac_mul(p, Frac { num: 1, den: 100 });
    let s2 = frac_mul(rv, pc);
    &&& fits_i128(v.den * 1000)
    &&& fits_i128(2300 * vc.num)
    &&& fits_i128(10000 * vc.den)
    &&& fits_i128(7700 * vc.num)
    &&& fits_i128(p.den * 100)
    &&& fits_i128(rv.num * pc.num)
    &&& fits_i128(rv.den * pc.den)
    &&& fits_i128(s1.num * s2.den)
    &&& fits_i128(s2.num * s1.den)
    &&& fits_i128(s1.num * s2.den + s2.num * s1.den)
    &&& fits_i128(s1.den * s2.den)
    &&& fits_i128(frac_add(s1, s2).num * d.num)
    &&& fits_i128(frac_add(s1, s2).den * d.den)
}

/// Whether the infill percentage lies in [0, 100].
pub fn infill_in_range(p: &Rat) -> (b: bool)
    requires
        p.wf(),
    ensures
        b == !infill_out_of_range(p@),
{
    if p.num < 0 {
        return false;
    }
    let hundred: i128 = 100;
    match hundred.checked_mul(p.den) {
        Some(h) => p.num <= h,
        None => true,
    }
}

/// The estimated weight in grams of a print with the given scaled volume
/// in cubic millimetres, infill percentage, and material density in
/// grams per cubic centimetre. An infill percentage outside [0, 100] is
/// rejected with a distinct error; otherwise the result is the exact
/// value of the shell/infill model, or an overflow error when it cannot
/// be carried in 128 bits.
pub fn calculate_weight(volume_mm3: &Rat, infill_percentage: &Rat, material_density: &Rat) -> (r:
    Result<Rat, WeightError>)
    requires
        volume_mm3.wf(),
        infill_percentage.wf(),
        material_density.wf(),
    ensures
        infill_out_of_range(infill_percentage@) <==> r == Err::<Rat, WeightError>(
            WeightError::OutOfRangeInfill,
        ),
        !infill_out_of_range(infill_percentage@) ==> (r is Ok <==> weight_fits(
            volume_mm3@,
            infill_percentage@,
            material_density@,
        )),
        r matches Ok(w) ==> w.wf() && w@ == weight_model(
            volume_mm3@,
            infill_percentage@,
            material_density@,
        ),
        !infill_out_of_range(infill_percentage@) && r is Err ==> r == Err::<Rat, WeightError>(
            WeightError::ArithmeticOverflow,
        ),
{
    if !infill_in_range(infill_percentage) {
        return Err(WeightError::OutOfRangeInfill);
    }
    let vc = match volume_mm3.checked_mul(&Rat::new(1, 1000)) {
        Some(v) => v,
        None => {
            return Err(WeightError::ArithmeticOverflow);
        },
    };
    let fixed = Rat::new(2300, 10000);
    let rem = Rat::new(7700, 10000);
    proof {
        assert(fixed@ == fixed_solid_fraction());
        assert(rem@ == infill_space_fraction());
    }
    let s1 = match fixed.checked_mul(&vc) {
        Some(v) => v,
        None => {
            return Err(WeightError::ArithmeticOverflow);
        },
    };
    let rv = match rem.checked_mul(&vc) {
        Some(v) => v,
        None => {
            return Err(WeightError::ArithmeticOverflow);
        },
    };
    let pc = match infill_percentage.checked_mul(&Rat::new(1, 100)) {
        Some(v) => v,
        None => {
            return Err(WeightError::ArithmeticOverflow);
        },
    };
    let s2 = match rv.checked_mul(&pc) {
        Some(v) => v,
        None => {
            return Err(WeightError::ArithmeticOverflow);
        },
    };
    let eff = match s1.checked_add(&s2) {
        Some(v) => v,
        None => {
            return Err(WeightError::ArithmeticOverflow);
        },
    };
    match eff.checked_mul(material_density) {
        Some(w) => Ok(w),
        None => Err(WeightError::ArithmeticOverflow),
    }
}

/// The whole pipeline on a parsed mesh: enclosed volume, rescaling to the
/// target dimensions, then the shell/infill weight model with the
/// material's density. The infill percentage is validated first, as the
/// surrounding layers do; then degenerate geometry, then overflow.
pub fn calculate_weight_from_mesh(
    mesh: &Mesh,
    desired_x: &Rat,
    desired_y: &Rat,
    desired_z: &Rat,
    infill_percentage: &Rat,
    material: Material,
) -> (r: Result<Rat, WeightError>)
    requires
        mesh.wf(),
        desired_x.wf(),
        desired_y.wf(),
        desired_z.wf(),
        infill_percentage.wf(),
    ensures
        infill_out_of_range(infill_percentage@) <==> r == Err::<Rat, WeightError>(
            WeightError::OutOfRangeInfill,
        ),
        !infill_out_of_range(infill_percentage@) ==> (scale_degenerate(*mesh) <==> r == Err::<
            Rat,
            WeightError,
        >(WeightError::DegenerateGeometry)),
        r matches Ok(w) ==> w.wf() && w@ == weight_model(
            scaled_volume_frac(mesh_volume(*mesh), desired_x@, desired_y@, desired_z@, *mesh),
            infill_percentage@,
            density_frac(material),
        ),
        !infill_out_of_range(infill_percentage@) && !scale_degenerate(*mesh) && scale_fits(
            mesh_volume(*mesh),
            desired_x@,
            desired_y@,
            desired_z@,
            *mesh,
        ) && weight_fits(
            scaled_volume_frac(mesh_volume(*mesh), desired_x@, desired_y@, desired_z@, *mesh),
            infill_percentage@,
            density_frac(material),
        ) ==> r is Ok,
        r == Err::<Rat, WeightError>(WeightError::ArithmeticOverflow) ==> !infill_out_of_range(
            infill_percentage@,
        ) && !scale_degenerate(*mesh) && !(scale_fits(
            mesh_volume(*mesh),
            desired_x@,
            desired_y@,
            desired_z@,
            *mesh,
        ) && weight_fits(
            scaled_volume_frac(mesh_volume(*mesh), desired_x@, desired_y@, desired_z@, *mesh),
            infill_percentage@,
            density_frac(material),
        )),
{
    if !infill_in_range(infill_percentage) {
        return Err(WeightError::OutOfRangeInfill);
    }
    let original_volume = calculate_volume(mesh);
    let scaled = match scale_volume(&original_volume, desired_x, desired_y, desired_z, mesh) {
        Ok(s) => s,
        Err(e) => {
            return Err(e);
        },
    };
    let density = material.density();
    calculate_weight(&scaled, infill_percentage, &density)
}

/// Weight monotonicity: for a fixed non-negative volume and non-negative
/// density, the modelled weight is non-decreasing in the infill
/// percentage.
pub proof fn lemma_weight_monotone(v: Frac, p1: Frac, p2: Frac, d: Frac)
    requires
        frac_wf(v),
        frac_wf(p1),
        frac_wf(p2),
        frac_wf(d),
        v.num >= 0,
        d.num >= 0,
        frac_le(p1, p2),
    ensures
        frac_le(weight_model(v, p1, d), weight_model(v, p2, d)),
{
    let k1000 = Frac { num: 1, den: 1000 };
    let k100 = Frac { num: 1, den: 100 };
    let vc = frac_mul(v, k1000);
    let fixed = fixed_solid_fraction();
    let rem = infill_space_fraction();
    let s1 = frac_mul(fixed, vc);
    let rv = frac_mul(rem, vc);
    let pc1 = frac_mul(p1, k100);
    let pc2 = frac_mul(p2, k100);
    lemma_frac_mul_wf(v, k1000);
    lemma_frac_mul_wf(fixed, vc);
    lemma_frac_mul_wf(rem, vc);
    lemma_frac_mul_wf(p1, k100);
    lemma_frac_mul_wf(p2, k100);
    lemma_frac_mul_le_right(p1, p2, k100);
    lemma_mul_nonnegative(v.num, 1);
    lemma_mul_nonnegative(rem.num, vc.num);
    lemma_frac_mul_le_left(rv, pc1, pc2);
    lemma_frac_mul_wf(rv, pc1);
    lemma_frac_mul_wf(rv, pc2);
    lemma_frac_add_wf(s1, frac_mul(rv, pc1));
    lemma_frac_add_wf(s1, frac_mul(rv, pc2));
    lemma_frac_add_le(s1, frac_mul(rv, pc1), frac_mul(rv, pc2));
    lemma_frac_mul_le_right(
        frac_add(s1, frac_mul(rv, pc1)),
        frac_add(s1, frac_mul(rv, pc2)),
        d,
    );
}

/// Strict weight monotonicity: with a positive volume and a positive
/// density, the modelled weight strictly increases with the infill
/// percentage — the always-solid fraction is below one, so the infill
/// term never vanishes.
pub proof fn lemma_weight_strictly_monotone(v: Frac, p1: Frac, p2: Frac, d: Frac)
    requires
        frac_wf(v),
        frac_wf(p1),
        frac_wf(p2),
        frac_wf(d),
        v.num > 0,
        d.num > 0,
        frac_lt(p1, p2),
    ensures
        frac_lt(weight_model(v, p1, d), weight_model(v, p2, d)),
{
    let k1000 = Frac { num: 1, den: 1000 };
    let k100 = Frac { num: 1, den: 100 };
    let vc = frac_mul(v, k1000);
    let fixed = fixed_solid_fraction();
    let rem = infill_space_fraction();
    let s1 = frac_mul(fixed, vc);
    let rv = frac_mul(rem, vc);
    let pc1 = frac_mul(p1, k100);
    let pc2 = frac_mul(p2, k100);
    lemma_frac_mul_wf(v, k1000);
    lemma_frac_mul_wf(fixed, vc);
    lemma_frac_mul_wf(rem, vc);
    lemma_frac_mul_wf(p1, k100);
    lemma_frac_mul_wf(p2, k100);
    lemma_frac_mul_lt_right(p1, p2, k100);
    lemma_mul_strictly_positive(v.num, 1);
    lemma_mul_strictly_positive(rem.num, vc.num);
    lemma_frac_mul_lt_left(rv, pc1, pc2);
    lemma_frac_mul_wf(rv, pc1);
    lemma_frac_mul_wf(rv, pc2);
    lemma_frac_add_wf(s1, frac_mul(rv, pc1));
    lemma_frac_add_wf(s1, frac_mul(rv, pc2));
    lemma_frac_add_lt(s1, frac_mul(rv, pc1), frac_mul(rv, pc2));
    lemma_frac_mul_lt_right(
        frac_add(s1, frac_mul(rv, pc1)),
        frac_add(s1, frac_mul(rv, pc2)),
        d,
    );
}

} // verus!
