//! Materials and their densities.
//!
//! A closed enumeration of printable materials, each with a fixed density
//! in grams per cubic centimetre. A material is resolved from its name
//! case-insensitively; an unrecognized or absent name resolves to PLA.

use crate::rational::{Frac, Rat};
use vstd::prelude::*;
use vstd::string::StrSliceExecFns;

verus! {

/// The closed set of supported materials.
#[derive(Clone, Copy, Debug, PartialEq, Eq, Structural)]
pub enum Material {
    Pla,
    Abs,
    Petg,
    Tpu,
}

/// The density of each material in grams per cubic centimetre.
pub open spec fn density_frac(m: Material) -> Frac {
    match m {
        Material::Pla => Frac { num: 124, den: 100 },
        Material::Abs => Frac { num: 104, den: 100 },
        Material::Petg => Frac { num: 127, den: 100 },
        Material::Tpu => Frac { num: 121, den: 100 },
    }
}

/// An ASCII capital letter mapped to its lower-case form; any other
/// character kept.
pub open spec fn lower_char(c: char) -> char {
    if 'A' <= c && c <= 'Z' {
        (((c as u8) + 32) as char)
    } else {
        c
    }
}

/// Every character mapped to its ASCII lower-case form.
pub open spec fn lower_seq(s: Seq<char>) -> Seq<char> {
    s.map_values(|c: char| lower_char(c))
}

/// The material a name resolves to: the known names, compared without
/// regard to ASCII case; everything else defaults to PLA.
pub open spec fn material_of(s: Seq<char>) -> Material {
    if lower_seq(s) == "abs"@ {
        Material::Abs
    } else if lower_seq(s) == "petg"@ {
        Material::Petg
    } else if lower_seq(s) == "tpu"@ {
        Material::Tpu
    } else {
        Material::Pla
    }
}

/// Lower-cases one ASCII capital; keeps every other character.
fn lower_char_exec(c: char) -> (r: char)
    ensures
        r == lower_char(c),
{
    if 'A' <= c && c <= 'Z' {
        (((c as u8) + 32) as char)
    } else {
        c
    }
}

/// Whether `name`, lower-cased, is exactly `target`.
fn matches_lower(name: &str, target: &str) -> (b: bool)
    ensures
        b == (lower_seq(name@) == target@),
{
    let n = name.unicode_len();
    if n != target.unicode_len() {
        proof {
            assert(lower_seq(name@).len() == name@.len());
        }
        return false;
    }
    let mut i: usize = 0;
    while i < n
        invariant
            0 <= i <= n,
            n == name@.len(),
            n == target@.len(),
            forall|j: int| 0 <= j < i ==> lower_seq(name@)[j] == target@[j],
        decreases n - i,
    {
        let c = lower_char_exec(name.get_char(i));
        let t = target.get_char(i);
        if c != t {
            proof {
                assert(lower_seq(name@)[i as int] != target@[i as int]);
            }
            return false;
        }
        proof {
            assert(lower_seq(name@)[i as int] == target@[i as int]);
        }
        i = i + 1;
    }
    proof {
        assert(lower_seq(name@) =~= target@);
    }
    true
}

impl Material {
    /// The density constant for this material.
    pub fn density(&self) -> (d: Rat)
        ensures
            d.wf(),
            d@ == density_frac(*self),
    {
        match self {
            Material::Pla => Rat::new(124, 100),
            Material::Abs => Rat::new(104, 100),
            Material::Petg => Rat::new(127, 100),
            Material::Tpu => Rat::new(121, 100),
        }
    }

    /// The material a name resolves to, without regard to ASCII case; an
    /// unrecognized name resolves to PLA.
    pub fn from_name(name: &str) -> (m: Material)
        ensures
            m == material_of(name@),
    {
        if matches_lower(name, "abs") {
            Material::Abs
        } else if matches_lower(name, "petg") {
            Material::Petg
        } else if matches_lower(name, "tpu") {
            Material::Tpu
        } else {
            Material::Pla
        }
    }

    /// As [`Material::from_name`]; an absent name resolves to PLA.
    pub fn from_optional_name(name: Option<&str>) -> (m: Material)
        ensures
            match name {
                Some(s) => m == material_of(s@),
                None => m == Material::Pla,
            },
    {
        match name {
            Some(s) => Material::from_name(s),
            None => Material::Pla,
        }
    }
}

} // verus!
