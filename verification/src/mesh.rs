//! The mesh descriptor: a closed sum over the two spatial discretizations,
//! answering the zone count and the minimum cell spacing.
//!
//! Spacings and face coordinates are IEEE-754 double-precision values,
//! carried as their bit patterns.  Ordering and minimum selection over
//! such values is plain integer logic on the bit patterns and is verified
//! here; only the subtraction of adjacent face coordinates is delegated to
//! an outside softfloat implementation.

use vstd::prelude::*;

verus! {

/// The sign bit of a double's bit pattern.
pub const SIGN_BIT: u64 = 0x8000_0000_0000_0000;

/// The exponent mask: patterns whose magnitude exceeds it are NaNs.
pub const EXP_MASK: u64 = 0x7ff0_0000_0000_0000;

/// The bit pattern of the largest finite double.
pub const F64_MAX_BITS: u64 = 0x7fef_ffff_ffff_ffff;

/// Magnitude part of a double's bit pattern.
pub open spec fn bits_abs(b: u64) -> u64 {
    if b >= SIGN_BIT {
        (b - SIGN_BIT) as u64
    } else {
        b
    }
}

pub open spec fn is_nan_bits(b: u64) -> bool {
    bits_abs(b) > EXP_MASK
}

pub open spec fn is_finite_bits(b: u64) -> bool {
    bits_abs(b) < EXP_MASK
}

/// The value order of non-NaN doubles: bit patterns compare as
/// sign-magnitude integers (the two zeros share the key 0).
pub open spec fn key(b: u64) -> int {
    if b >= SIGN_BIT {
        -((b - SIGN_BIT) as int)
    } else {
        b as int
    }
}

/// IEEE `<` over bit patterns: false when either operand is a NaN.
pub open spec fn lt_bits(a: u64, b: u64) -> bool {
    !is_nan_bits(a) && !is_nan_bits(b) && key(a) < key(b)
}

/// The minimum as the `min` of doubles takes it: a NaN operand is ignored,
/// otherwise the operand with the smaller value; on a tie the first.
pub open spec fn min_bits(a: u64, b: u64) -> u64 {
    if is_nan_bits(b) {
        a
    } else if is_nan_bits(a) {
        b
    } else if key(a) <= key(b) {
        a
    } else {
        b
    }
}

fn nan_bits_exec(b: u64) -> (r: bool)
    ensures
        r == is_nan_bits(b),
{
    let m = if b >= SIGN_BIT {
        b - SIGN_BIT
    } else {
        b
    };
    m > EXP_MASK
}

fn key_exec(b: u64) -> (r: i128)
    ensures
        r as int == key(b),
{
    if b >= SIGN_BIT {
        -((b - SIGN_BIT) as i128)
    } else {
        b as i128
    }
}

/// Compares two doubles, given as bit patterns, as `<` compares them.
pub fn f64_bits_lt(a: u64, b: u64) -> (r: bool)
    ensures
        r == lt_bits(a, b),
{
    if nan_bits_exec(a) || nan_bits_exec(b) {
        false
    } else {
        key_exec(a) < key_exec(b)
    }
}

/// The minimum of two doubles, given as bit patterns.
pub fn f64_bits_min(a: u64, b: u64) -> (r: u64)
    ensures
        r == min_bits(a, b),
{
    if nan_bits_exec(b) {
        a
    } else if nan_bits_exec(a) {
        b
    } else if !(key_exec(b) < key_exec(a)) {
        a
    } else {
        b
    }
}

/// What subtracting double `b` from double `a` yields, over bit patterns.
pub uninterp spec fn f64_sub_bits(a: u64, b: u64) -> u64;

/// Relies on rustc_apfloat's `Double::sub_r`, IEEE-754 binary64
/// subtraction with round-to-nearest-even: the result depends on the
/// operand bit patterns alone.
#[verifier::external_body]
fn sub_bits(a: u64, b: u64) -> (r: u64)
    ensures
        r == f64_sub_bits(a, b),
{
    let x = <rustc_apfloat::ieee::Double as rustc_apfloat::Float>::from_bits(a as u128);
    let y = <rustc_apfloat::ieee::Double as rustc_apfloat::Float>::from_bits(b as u128);
    let d = <rustc_apfloat::ieee::Double as rustc_apfloat::Float>::sub_r(
        x,
        y,
        rustc_apfloat::Round::NearestTiesToEven,
    ).value;
    <rustc_apfloat::ieee::Double as rustc_apfloat::Float>::to_bits(d) as u64
}

/// A 2-D uniform grid descriptor: cell counts and spacings (as double bit
/// patterns) along two axes.
#[derive(Debug, Clone, Copy, PartialEq, Eq, Structural)]
pub struct StructuredMesh {
    pub ni: usize,
    pub nj: usize,
    pub dx_bits: u64,
    pub dy_bits: u64,
}

/// The spatial discretization: either a uniform 2-D grid or an ordered
/// sequence of 1-D face coordinates.
#[derive(Debug, Clone)]
pub enum Mesh {
    Structured(StructuredMesh),
    FacePositions1D(Vec<u64>),
}

/// Folds the minimum over the gaps between adjacent faces, from gap `j` on.
pub open spec fn min_gap_from(faces: Seq<u64>, j: int, acc: u64) -> u64
    decreases faces.len() - j,
{
    if j < 0 || j + 1 >= faces.len() {
        acc
    } else {
        min_gap_from(faces, j + 1, min_bits(acc, f64_sub_bits(faces[j + 1], faces[j])))
    }
}

impl Mesh {
    /// Validity: a face list holds at least two finite, strictly
    /// increasing coordinates; a grid's zone count fits the machine.
    pub open spec fn wf(self) -> bool {
        match self {
            Mesh::Structured(s) => s.ni * s.nj <= usize::MAX,
            Mesh::FacePositions1D(f) => f@.len() >= 2 && (forall|i: int|
                0 <= i < f@.len() ==> is_finite_bits(#[trigger] f@[i])) && (forall|i: int|
                0 <= i < f@.len() - 1 ==> key(#[trigger] f@[i]) < key(f@[i + 1])),
        }
    }

    /// The zone count this mesh describes.
    pub open spec fn zones_spec(self) -> int {
        match self {
            Mesh::Structured(s) => s.ni * s.nj,
            Mesh::FacePositions1D(f) => f@.len() - 1,
        }
    }

    /// The minimum cell spacing, as the solver computes it: the smaller
    /// axis spacing of a grid, or the least adjacent face gap, starting
    /// from the largest finite double.
    pub open spec fn min_spacing_spec(self) -> u64 {
        match self {
            Mesh::Structured(s) => min_bits(s.dx_bits, s.dy_bits),
            Mesh::FacePositions1D(f) => min_gap_from(f@, 0, F64_MAX_BITS),
        }
    }

    /// Returns the number of zones: the product of the axis cell counts
    /// for a grid, one less than the face count for a face list.
    pub fn num_total_zones(&self) -> (r: usize)
        requires
            self.wf(),
        ensures
            r == self.zones_spec(),
    {
        match self {
            Mesh::Structured(s) => s.ni * s.nj,
            Mesh::FacePositions1D(f) => f.len() - 1,
        }
    }

    /// Returns the minimum cell spacing as a double bit pattern.
    pub fn min_spacing(&self) -> (r: u64)
        requires
            self.wf(),
        ensures
            r == self.min_spacing_spec(),
    {
        match self {
            Mesh::Structured(s) => f64_bits_min(s.dx_bits, s.dy_bits),
            Mesh::FacePositions1D(f) => {
                let mut acc: u64 = F64_MAX_BITS;
                let mut j: usize = 0;
                let n = f.len();
                while j + 1 < n
                    invariant
                        n == f@.len(),
                        n >= 2,
                        0 <= j < n,
                        min_gap_from(f@, 0, F64_MAX_BITS) == min_gap_from(f@, j as int, acc),
                    decreases f@.len() - j,
                {
                    let gap = sub_bits(f[j + 1], f[j]);
                    acc = f64_bits_min(acc, gap);
                    j = j + 1;
                }
                acc
            },
        }
    }
}

/// Law: a grid's minimum spacing is always one of its two axis spacings,
/// so a grid whose spacings are positive finite values reports a positive
/// finite minimum spacing.
pub proof fn lemma_structured_min_spacing_is_an_axis(s: StructuredMesh)
    ensures
        Mesh::Structured(s).min_spacing_spec() == s.dx_bits || Mesh::Structured(s).min_spacing_spec()
            == s.dy_bits,
        (is_finite_bits(s.dx_bits) && is_finite_bits(s.dy_bits) && key(s.dx_bits) > 0 && key(
            s.dy_bits,
        ) > 0) ==> is_finite_bits(Mesh::Structured(s).min_spacing_spec()) && key(
            Mesh::Structured(s).min_spacing_spec(),
        ) > 0,
{
}

fn vec_u64_eq(a: &Vec<u64>, b: &Vec<u64>) -> (r: bool)
    ensures
        r == (a@ == b@),
{
    if a.len() != b.len() {
        return false;
    }
    let mut i: usize = 0;
    while i < a.len()
        invariant
            a@.len() == b@.len(),
            0 <= i <= a@.len(),
            forall|j: int| 0 <= j < i ==> a@[j] == b@[j],
        decreases a@.len() - i,
    {
        if a[i] != b[i] {
            return false;
        }
        i = i + 1;
    }
    proof {
        assert(a@ =~= b@);
    }
    true
}

impl PartialEq for Mesh {
    fn eq(&self, other: &Self) -> (r: bool) {
        match (self, other) {
            (Mesh::Structured(a), Mesh::Structured(b)) => a == b,
            (Mesh::FacePositions1D(a), Mesh::FacePositions1D(b)) => vec_u64_eq(a, b),
            _ => false,
        }
    }
}

impl vstd::std_specs::cmp::PartialEqSpecImpl for Mesh {
    open spec fn obeys_eq_spec() -> bool {
        true
    }

    open spec fn eq_spec(&self, other: &Self) -> bool {
        match (self, other) {
            (Mesh::Structured(a), Mesh::Structured(b)) => a == b,
            (Mesh::FacePositions1D(a), Mesh::FacePositions1D(b)) => a@ == b@,
            _ => false,
        }
    }
}

} // verus!
