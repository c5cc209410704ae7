//! The motion parameters of the arm.
use vstd::prelude::*;
use crate::geometry::deg_to_rad;
use crate::geometry::deg_to_rad_spec;

verus! {

/// `v`, brought into `lo ..= hi`.
pub open spec fn clamped(v: int, lo: int, hi: int) -> int {
    if v < lo {
        lo
    } else if v > hi {
        hi
    } else {
        v
    }
}

/// Brings `v` into `lo ..= hi`.
fn clamp(v: i64, lo: i64, hi: i64) -> (r: i64)
    requires
        lo <= hi,
    ensures
        r == clamped(v as int, lo as int, hi as int),
        lo <= r <= hi,
{
    if v < lo {
        lo
    } else if v > hi {
        hi
    } else {
        v
    }
}

/// What a speed or an acceleration is stored as: the percentage, given in
/// hundredths and clamped, as a fraction in units of `10^-5`.
pub open spec fn stored_percent(percent: int) -> int {
    clamped(percent, MotionParam::MIN_PRECENT as int, MotionParam::MAX_PRECENT as int) * 10
}

/// What a length is stored as: hundredths of a millimetre, clamped, which
/// are metres in units of `10^-5`.
pub open spec fn stored_length(mm: int) -> int {
    clamped(mm, MotionParam::MIN_LENGHT as int, MotionParam::MAX_LENGHT as int)
}

/// What an angle is stored as: hundredths of a degree, clamped, as radians in
/// units of `10^-5`.
pub open spec fn stored_angle(deg: int) -> int {
    deg_to_rad_spec(clamped(deg, MotionParam::MIN_ANGLE as int, MotionParam::MAX_ANGLE as int))
}

/// Whether `v` is a stored fraction: from one to a hundred percent.
pub open spec fn is_fraction(v: int) -> bool {
    1_000 <= v <= 100_000
}

/// Whether `v` is a stored length: from a millimetre to a metre.
pub open spec fn is_length(v: int) -> bool {
    100 <= v <= 100_000
}

/// Whether `v` is a stored angle: from one degree to two turns.
pub open spec fn is_angle(v: int) -> bool {
    1_745 <= v <= 1_256_637
}

/// The six motion parameters. One that is set is stored in SI units of
/// `10^-5`, as the robot takes it, and lies within its range. One that is
/// not set holds no number; the robot is told nothing of it and keeps the
/// value it has.
#[derive(Debug, Clone, Copy)]
pub struct MotionParam {
    speed: Option<i64>,
    accel: Option<i64>,
    blend_linear: Option<i64>,
    blend_angular: Option<i64>,
    tcp_speed_linear: Option<i64>,
    tcp_speed_angular: Option<i64>,
}

/// The six values of a `MotionParam`: for each parameter the number stored,
/// or `None` where it is not set.
pub struct MotionValues {
    pub speed: Option<int>,
    pub accel: Option<int>,
    pub blend_linear: Option<int>,
    pub blend_angular: Option<int>,
    pub tcp_speed_linear: Option<int>,
    pub tcp_speed_angular: Option<int>,
}

/// `v` as a mathematical integer, where there is one.
pub open spec fn stored(v: Option<i64>) -> Option<int> {
    match v {
        Some(n) => Some(n as int),
        None => None,
    }
}

impl MotionValues {
    /// Whether each value that is set lies within its range.
    pub open spec fn in_range(self) -> bool {
        &&& self.speed matches Some(v) ==> is_fraction(v)
        &&& self.accel matches Some(v) ==> is_fraction(v)
        &&& self.blend_linear matches Some(v) ==> is_length(v)
        &&& self.blend_angular matches Some(v) ==> is_angle(v)
        &&& self.tcp_speed_linear matches Some(v) ==> is_length(v)
        &&& self.tcp_speed_angular matches Some(v) ==> is_angle(v)
    }

    /// None of the six set.
    pub open spec fn unset() -> Self {
        MotionValues {
            speed: None,
            accel: None,
            blend_linear: None,
            blend_angular: None,
            tcp_speed_linear: None,
            tcp_speed_angular: None,
        }
    }
}

impl View for MotionParam {
    type V = MotionValues;

    closed spec fn view(&self) -> MotionValues {
        MotionValues {
            speed: stored(self.speed),
            accel: stored(self.accel),
            blend_linear: stored(self.blend_linear),
            blend_angular: stored(self.blend_angular),
            tcp_speed_linear: stored(self.tcp_speed_linear),
            tcp_speed_angular: stored(self.tcp_speed_angular),
        }
    }
}

/// Whatever is given to a setter, what it stores is within the range of
/// its parameter: a fraction from one to a hundred percent, a length from a
/// millimetre to a metre, an angle from the radians of one degree to those
/// of two turns.
pub proof fn lemma_stored_in_range(given: int)
    ensures
        1_000 <= stored_percent(given) <= 100_000,
        100 <= stored_length(given) <= 100_000,
        1_745 <= stored_angle(given) <= 1_256_637,
{
}

impl MotionParam {
    /// The least percentage, in hundredths.
    pub const MIN_PRECENT: i64 = 100;

    /// The greatest percentage, in hundredths.
    pub const MAX_PRECENT: i64 = 10_000;

    /// The least length, in hundredths of a millimetre.
    pub const MIN_LENGHT: i64 = 100;

    /// The greatest length, in hundredths of a millimetre.
    pub const MAX_LENGHT: i64 = 100_000;

    /// The least angle, in hundredths of a degree.
    pub const MIN_ANGLE: i64 = 100;

    /// The greatest angle, in hundredths of a degree.
    pub const MAX_ANGLE: i64 = 72_000;

    #[verifier::type_invariant]
    spec fn well_formed(self) -> bool {
        self@.in_range()
    }

    /// The parameters with none set.
    pub fn new() -> (r: MotionParam)
        ensures
            r@ == MotionValues::unset(),
    {
        MotionParam {
            speed: None,
            accel: None,
            blend_linear: None,
            blend_angular: None,
            tcp_speed_linear: None,
            tcp_speed_angular: None,
        }
    }

    /// Sets the joint speed from a percentage in hundredths, clamped to
    /// `MIN_PRECENT ..= MAX_PRECENT`.
    pub fn set_speed(self, percent: i64) -> (r: MotionParam)
        ensures
            r@ == (MotionValues { speed: Some(stored_percent(percent as int)), ..self@ }),
            r@.speed matches Some(v) && 1_000 <= v <= 100_000,
    {
        proof {
            use_type_invariant(&self);
        }
        let c = clamp(percent, Self::MIN_PRECENT, Self::MAX_PRECENT);
        MotionParam { speed: Some(c * 10), ..self }
    }

    /// Sets the joint acceleration from a percentage in hundredths, clamped
    /// to `MIN_PRECENT ..= MAX_PRECENT`.
    pub fn set_accel(self, percent: i64) -> (r: MotionParam)
        ensures
            r@ == (MotionValues { accel: Some(stored_percent(percent as int)), ..self@ }),
            r@.accel matches Some(v) && 1_000 <= v <= 100_000,
    {
        proof {
            use_type_invariant(&self);
        }
        let c = clamp(percent, Self::MIN_PRECENT, Self::MAX_PRECENT);
        MotionParam { accel: Some(c * 10), ..self }
    }

    /// Sets the linear blend from hundredths of a millimetre, clamped to
    /// `MIN_LENGHT ..= MAX_LENGHT`.
    pub fn set_blend_linear(self, mm: i64) -> (r: MotionParam)
        ensures
            r@ == (MotionValues { blend_linear: Some(stored_length(mm as int)), ..self@ }),
            r@.blend_linear matches Some(v) && 100 <= v <= 100_000,
    {
        proof {
            use_type_invariant(&self);
        }
        let c = clamp(mm, Self::MIN_LENGHT, Self::MAX_LENGHT);
        MotionParam { blend_linear: Some(c), ..self }
    }

    /// Sets the angular blend from hundredths of a degree, clamped to
    /// `MIN_ANGLE ..= MAX_ANGLE`.
    pub fn set_blend_angular(self, deg: i64) -> (r: MotionParam)
        ensures
            r@ == (MotionValues { blend_angular: Some(stored_angle(deg as int)), ..self@ }),
            r@.blend_angular matches Some(v) && 1_745 <= v <= 1_256_637,
    {
        proof {
            use_type_invariant(&self);
        }
        let c = clamp(deg, Self::MIN_ANGLE, Self::MAX_ANGLE);
        match deg_to_rad(c) {
            Some(rad) => MotionParam { blend_angular: Some(rad), ..self },
            None => self,
        }
    }

    /// Sets the limit of the tool's linear speed from hundredths of a
    /// millimetre a second, clamped to `MIN_LENGHT ..= MAX_LENGHT`.
    pub fn set_tcp_speed_linear(self, mm: i64) -> (r: MotionParam)
        ensures
            r@ == (MotionValues { tcp_speed_linear: Some(stored_length(mm as int)), ..self@ }),
            r@.tcp_speed_linear matches Some(v) && 100 <= v <= 100_000,
    {
        proof {
            use_type_invariant(&self);
        }
        let c = clamp(mm, Self::MIN_LENGHT, Self::MAX_LENGHT);
        MotionParam { tcp_speed_linear: Some(c), ..self }
    }

    /// Sets the limit of the tool's angular speed from hundredths of a
    /// degree a second, clamped to `MIN_ANGLE ..= MAX_ANGLE`.
    pub fn set_tcp_speed_angular(self, deg: i64) -> (r: MotionParam)
        ensures
            r@ == (MotionValues { tcp_speed_angular: Some(stored_angle(deg as int)), ..self@ }),
            r@.tcp_speed_angular matches Some(v) && 1_745 <= v <= 1_256_637,
    {
        proof {
            use_type_invariant(&self);
        }
        let c = clamp(deg, Self::MIN_ANGLE, Self::MAX_ANGLE);
        match deg_to_rad(c) {
            Some(rad) => MotionParam { tcp_speed_angular: Some(rad), ..self },
            None => self,
        }
    }

    /// The six values: speed, acceleration, linear and angular blend, linear
    /// and angular limit of the tool's speed; `None` for one that is not
    /// set.
    pub fn values(&self) -> (v: [Option<i64>; 6])
        ensures
            stored(v[0]) == self@.speed,
            stored(v[1]) == self@.accel,
            stored(v[2]) == self@.blend_linear,
            stored(v[3]) == self@.blend_angular,
            stored(v[4]) == self@.tcp_speed_linear,
            stored(v[5]) == self@.tcp_speed_angular,
            self@.in_range(),
    {
        proof {
            use_type_invariant(self);
        }
        [
            self.speed,
            self.accel,
            self.blend_linear,
            self.blend_angular,
            self.tcp_speed_linear,
            self.tcp_speed_angular,
        ]
    }
}

impl Default for MotionParam {
    fn default() -> (r: MotionParam)
        ensures
            r@ == MotionValues::unset(),
    {
        MotionParam::new()
    }
}

} // verus!
