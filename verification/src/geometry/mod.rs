//! Spatial coordinates and robot poses, in fixed point.
//!
//! A length is a whole number of hundredths of a millimetre, an angle a whole
//! number of hundredths of a degree. On the wire the robot speaks metres and
//! radians with five places; a length of `10^-5` m is one hundredth of a
//! millimetre, so only angles need converting.
use vstd::prelude::*;
use crate::number::magnitude;
use crate::number::magnitude_of;

pub mod joint;
pub mod transform;
pub use joint::JointCoord;
pub use transform::Transform;

verus! {

/// The circle constant, times `10^15`.
pub const PI_E15: u128 = 3_141_592_653_589_793;

/// One hundred and eighty, times `10^12`: hundredths of a degree, times
/// `PI_E15` and divided by this, are radians in units of `10^-5`.
pub const HALF_TURN_E12: u128 = 180_000_000_000_000;

/// `v * num / den`, rounded to the nearest whole number, halves away from
/// zero.
pub open spec fn scale_rounded(v: int, num: nat, den: nat) -> int {
    if v < 0 {
        -(((magnitude(v) * num + den / 2) / den) as int)
    } else {
        ((magnitude(v) * num + den / 2) / den) as int
    }
}

/// Hundredths of a degree as `10^-5` rad.
pub open spec fn deg_to_rad_spec(deg: int) -> int {
    scale_rounded(deg, PI_E15 as nat, HALF_TURN_E12 as nat)
}

/// `10^-5` rad as hundredths of a degree.
pub open spec fn rad_to_deg_spec(rad: int) -> int {
    scale_rounded(rad, HALF_TURN_E12 as nat, PI_E15 as nat)
}

/// `v * num / den` rounded to the nearest, where it fits.
fn scale(v: i64, num: u128, den: u128) -> (r: Option<i64>)
    requires
        0 < den <= 4_000_000_000_000_000,
        num <= 4_000_000_000_000_000,
    ensures
        match r {
            Some(s) => s == scale_rounded(v as int, num as nat, den as nat),
            None => !(i64::MIN < scale_rounded(v as int, num as nat, den as nat) <= i64::MAX),
        },
{
    let m: u128 = magnitude_of(v) as u128;
    assert(m * num <= 18446744073709551615 * 4_000_000_000_000_000) by (nonlinear_arith)
        requires
            m <= 18446744073709551615,
            num <= 4_000_000_000_000_000,
    ;
    let q: u128 = (m * num + den / 2) / den;
    if q > 9223372036854775807 {
        None
    } else if v < 0 {
        let s: i64 = q as i64;
        Some(-s)
    } else {
        Some(q as i64)
    }
}

/// Converts hundredths of a degree to `10^-5` rad, rounding to the nearest.
/// `None` where the result does not fit.
pub fn deg_to_rad(deg: i64) -> (r: Option<i64>)
    ensures
        match r {
            Some(rad) => rad == deg_to_rad_spec(deg as int),
            None => !(i64::MIN < deg_to_rad_spec(deg as int) <= i64::MAX),
        },
{
    scale(deg, PI_E15, HALF_TURN_E12)
}

/// Converts `10^-5` rad to hundredths of a degree, rounding to the nearest.
pub fn rad_to_deg(rad: i64) -> (deg: i64)
    ensures
        deg == rad_to_deg_spec(rad as int),
{
    let m: u128 = magnitude_of(rad) as u128;
    let q: u128 = (m * HALF_TURN_E12 + PI_E15 / 2) / PI_E15;
    if rad < 0 {
        let s: i64 = q as i64;
        -s
    } else {
        q as i64
    }
}

} // verus!
