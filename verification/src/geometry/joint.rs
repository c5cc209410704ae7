//! Joint coordinates.
use vstd::prelude::*;

verus! {

/// The six joint angles of the arm, each in hundredths of a degree.
#[derive(Debug, Clone, Copy, PartialEq, Eq, Structural)]
pub struct JointCoord {
    pub j1: i64,
    pub j2: i64,
    pub j3: i64,
    pub j4: i64,
    pub j5: i64,
    pub j6: i64,
}

/// Whether `a + b` fits a 64-bit integer.
pub open spec fn sum_fits(a: i64, b: i64) -> bool {
    i64::MIN <= a + b <= i64::MAX
}

impl JointCoord {
    /// All joints at zero.
    pub fn identity() -> (r: Self)
        ensures
            r == Self::new_spec(0, 0, 0, 0, 0, 0),
    {
        JointCoord::new(0, 0, 0, 0, 0, 0)
    }

    /// The coordinate with the six angles given.
    pub open spec fn new_spec(j1: i64, j2: i64, j3: i64, j4: i64, j5: i64, j6: i64) -> Self {
        JointCoord { j1, j2, j3, j4, j5, j6 }
    }

    /// A coordinate from its six angles.
    pub fn new(j1_deg: i64, j2_deg: i64, j3_deg: i64, j4_deg: i64, j5_deg: i64, j6_deg: i64) -> (r:
        Self)
        ensures
            r == Self::new_spec(j1_deg, j2_deg, j3_deg, j4_deg, j5_deg, j6_deg),
    {
        JointCoord { j1: j1_deg, j2: j2_deg, j3: j3_deg, j4: j4_deg, j5: j5_deg, j6: j6_deg }
    }

    /// Joint 1 at `degree`, the others at zero.
    pub fn from_j1(degree: i64) -> (r: Self)
        ensures
            r == Self::new_spec(degree, 0, 0, 0, 0, 0),
    {
        JointCoord::identity().set_j1(degree)
    }

    /// Joint 2 at `degree`, the others at zero.
    pub fn from_j2(degree: i64) -> (r: Self)
        ensures
            r == Self::new_spec(0, degree, 0, 0, 0, 0),
    {
        JointCoord::identity().set_j2(degree)
    }

    /// Joint 3 at `degree`, the others at zero.
    pub fn from_j3(degree: i64) -> (r: Self)
        ensures
            r == Self::new_spec(0, 0, degree, 0, 0, 0),
    {
        JointCoord::identity().set_j3(degree)
    }

    /// Joint 4 at `degree`, the others at zero.
    pub fn from_j4(degree: i64) -> (r: Self)
        ensures
            r == Self::new_spec(0, 0, 0, degree, 0, 0),
    {
        JointCoord::identity().set_j4(degree)
    }

    /// Joint 5 at `degree`, the others at zero.
    pub fn from_j5(degree: i64) -> (r: Self)
        ensures
            r == Self::new_spec(0, 0, 0, 0, degree, 0),
    {
        JointCoord::identity().set_j5(degree)
    }

    /// Joint 6 at `degree`, the others at zero.
    pub fn from_j6(degree: i64) -> (r: Self)
        ensures
            r == Self::new_spec(0, 0, 0, 0, 0, degree),
    {
        JointCoord::identity().set_j6(degree)
    }

    /// This coordinate with joint 1 at `degree`.
    pub fn set_j1(self, degree: i64) -> (r: Self)
        ensures
            r == (JointCoord { j1: degree, ..self }),
    {
        JointCoord { j1: degree, ..self }
    }

    /// This coordinate with joint 2 at `degree`.
    pub fn set_j2(self, degree: i64) -> (r: Self)
        ensures
            r == (JointCoord { j2: degree, ..self }),
    {
        JointCoord { j2: degree, ..self }
    }

    /// This coordinate with joint 3 at `degree`.
    pub fn set_j3(self, degree: i64) -> (r: Self)
        ensures
            r == (JointCoord { j3: degree, ..self }),
    {
        JointCoord { j3: degree, ..self }
    }

    /// This coordinate with joint 4 at `degree`.
    pub fn set_j4(self, degree: i64) -> (r: Self)
        ensures
            r == (JointCoord { j4: degree, ..self }),
    {
        JointCoord { j4: degree, ..self }
    }

    /// This coordinate with joint 5 at `degree`.
    pub fn set_j5(self, degree: i64) -> (r: Self)
        ensures
            r == (JointCoord { j5: degree, ..self }),
    {
        JointCoord { j5: degree, ..self }
    }

    /// This coordinate with joint 6 at `degree`.
    pub fn set_j6(self, degree: i64) -> (r: Self)
        ensures
            r == (JointCoord { j6: degree, ..self }),
    {
        JointCoord { j6: degree, ..self }
    }

    /// Whether every joint of `self` can take the turn of the same joint of
    /// `rhs` without leaving the 64-bit range.
    pub open spec fn can_add(self, rhs: Self) -> bool {
        &&& sum_fits(self.j1, rhs.j1)
        &&& sum_fits(self.j2, rhs.j2)
        &&& sum_fits(self.j3, rhs.j3)
        &&& sum_fits(self.j4, rhs.j4)
        &&& sum_fits(self.j5, rhs.j5)
        &&& sum_fits(self.j6, rhs.j6)
    }

    /// The joint-wise sum.
    pub open spec fn plus(self, rhs: Self) -> Self {
        JointCoord {
            j1: (self.j1 + rhs.j1) as i64,
            j2: (self.j2 + rhs.j2) as i64,
            j3: (self.j3 + rhs.j3) as i64,
            j4: (self.j4 + rhs.j4) as i64,
            j5: (self.j5 + rhs.j5) as i64,
            j6: (self.j6 + rhs.j6) as i64,
        }
    }

    /// Whether the turn of every joint of `rhs` can be taken off the same
    /// joint of `self` without leaving the 64-bit range.
    pub open spec fn can_subtract(self, rhs: Self) -> bool {
        &&& i64::MIN <= self.j1 - rhs.j1 <= i64::MAX
        &&& i64::MIN <= self.j2 - rhs.j2 <= i64::MAX
        &&& i64::MIN <= self.j3 - rhs.j3 <= i64::MAX
        &&& i64::MIN <= self.j4 - rhs.j4 <= i64::MAX
        &&& i64::MIN <= self.j5 - rhs.j5 <= i64::MAX
        &&& i64::MIN <= self.j6 - rhs.j6 <= i64::MAX
    }

    /// The joint-wise difference.
    pub open spec fn minus(self, rhs: Self) -> Self {
        JointCoord {
            j1: (self.j1 - rhs.j1) as i64,
            j2: (self.j2 - rhs.j2) as i64,
            j3: (self.j3 - rhs.j3) as i64,
            j4: (self.j4 - rhs.j4) as i64,
            j5: (self.j5 - rhs.j5) as i64,
            j6: (self.j6 - rhs.j6) as i64,
        }
    }

    /// Whether every joint can change sign within the 64-bit range.
    pub open spec fn can_negate(self) -> bool {
        &&& self.j1 > i64::MIN
        &&& self.j2 > i64::MIN
        &&& self.j3 > i64::MIN
        &&& self.j4 > i64::MIN
        &&& self.j5 > i64::MIN
        &&& self.j6 > i64::MIN
    }

    /// The coordinate with every joint turned the other way.
    pub open spec fn negated(self) -> Self {
        JointCoord {
            j1: (-self.j1) as i64,
            j2: (-self.j2) as i64,
            j3: (-self.j3) as i64,
            j4: (-self.j4) as i64,
            j5: (-self.j5) as i64,
            j6: (-self.j6) as i64,
        }
    }

    /// The joint-wise sum of `self` and `rhs`; `None` where a joint would
    /// leave the 64-bit range.
    pub fn checked_add(self, rhs: Self) -> (r: Option<Self>)
        ensures
            self.can_add(rhs) ==> r == Some(self.plus(rhs)),
            !self.can_add(rhs) ==> r is None,
    {
        let j1 = self.j1.checked_add(rhs.j1);
        let j2 = self.j2.checked_add(rhs.j2);
        let j3 = self.j3.checked_add(rhs.j3);
        let j4 = self.j4.checked_add(rhs.j4);
        let j5 = self.j5.checked_add(rhs.j5);
        let j6 = self.j6.checked_add(rhs.j6);
        match (j1, j2, j3, j4, j5, j6) {
            (Some(j1), Some(j2), Some(j3), Some(j4), Some(j5), Some(j6)) => Some(
                JointCoord { j1, j2, j3, j4, j5, j6 },
            ),
            _ => None,
        }
    }

    /// The coordinate with every joint turned the other way; `None` where a
    /// joint has no opposite in the 64-bit range.
    pub fn checked_neg(self) -> (r: Option<Self>)
        ensures
            self.can_negate() ==> r == Some(self.negated()),
            !self.can_negate() ==> r is None,
    {
        if self.j1 == i64::MIN || self.j2 == i64::MIN || self.j3 == i64::MIN || self.j4
            == i64::MIN || self.j5 == i64::MIN || self.j6 == i64::MIN {
            None
        } else {
            Some(
                JointCoord {
                    j1: -self.j1,
                    j2: -self.j2,
                    j3: -self.j3,
                    j4: -self.j4,
                    j5: -self.j5,
                    j6: -self.j6,
                },
            )
        }
    }

    /// A further turn of joint 1 by `degree`.
    pub fn then_j1(self, degree: i64) -> (r: Self)
        requires
            sum_fits(self.j1, degree),
        ensures
            r == (JointCoord { j1: (self.j1 + degree) as i64, ..self }),
    {
        JointCoord { j1: self.j1 + degree, ..self }
    }

    /// A further turn of joint 2 by `degree`.
    pub fn then_j2(self, degree: i64) -> (r: Self)
        requires
            sum_fits(self.j2, degree),
        ensures
            r == (JointCoord { j2: (self.j2 + degree) as i64, ..self }),
    {
        JointCoord { j2: self.j2 + degree, ..self }
    }

    /// A further turn of joint 3 by `degree`.
    pub fn then_j3(self, degree: i64) -> (r: Self)
        requires
            sum_fits(self.j3, degree),
        ensures
            r == (JointCoord { j3: (self.j3 + degree) as i64, ..self }),
    {
        JointCoord { j3: self.j3 + degree, ..self }
    }

    /// A further turn of joint 4 by `degree`.
    pub fn then_j4(self, degree: i64) -> (r: Self)
        requires
            sum_fits(self.j4, degree),
        ensures
            r == (JointCoord { j4: (self.j4 + degree) as i64, ..self }),
    {
        JointCoord { j4: self.j4 + degree, ..self }
    }

    /// A further turn of joint 5 by `degree`.
    pub fn then_j5(self, degree: i64) -> (r: Self)
        requires
            sum_fits(self.j5, degree),
        ensures
            r == (JointCoord { j5: (self.j5 + degree) as i64, ..self }),
    {
        JointCoord { j5: self.j5 + degree, ..self }
    }

    /// A further turn of joint 6 by `degree`.
    pub fn then_j6(self, degree: i64) -> (r: Self)
        requires
            sum_fits(self.j6, degree),
        ensures
            r == (JointCoord { j6: (self.j6 + degree) as i64, ..self }),
    {
        JointCoord { j6: self.j6 + degree, ..self }
    }

    /// The six angles, joint 1 first.
    pub fn into_array(self) -> (a: [i64; 6])
        ensures
            a@ == seq![self.j1, self.j2, self.j3, self.j4, self.j5, self.j6],
    {
        let a = [self.j1, self.j2, self.j3, self.j4, self.j5, self.j6];
        a
    }

    /// The coordinate whose angles `value` lists, joint 1 first.
    pub fn from_array(value: [i64; 6]) -> (r: Self)
        ensures
            r == Self::new_spec(value[0], value[1], value[2], value[3], value[4], value[5]),
    {
        JointCoord::new(value[0], value[1], value[2], value[3], value[4], value[5])
    }
}

impl core::ops::Neg for JointCoord {
    type Output = JointCoord;

    /// Every joint turned the other way.
    fn neg(self) -> (r: JointCoord) {
        JointCoord {
            j1: -self.j1,
            j2: -self.j2,
            j3: -self.j3,
            j4: -self.j4,
            j5: -self.j5,
            j6: -self.j6,
        }
    }
}

impl vstd::std_specs::ops::NegSpecImpl for JointCoord {
    open spec fn obeys_neg_spec() -> bool {
        true
    }

    open spec fn neg_req(self) -> bool {
        self.can_negate()
    }

    open spec fn neg_spec(self) -> JointCoord {
        self.negated()
    }
}

impl core::ops::Add for JointCoord {
    type Output = JointCoord;

    /// The joint-wise sum.
    fn add(self, rhs: JointCoord) -> (r: JointCoord) {
        JointCoord {
            j1: self.j1 + rhs.j1,
            j2: self.j2 + rhs.j2,
            j3: self.j3 + rhs.j3,
            j4: self.j4 + rhs.j4,
            j5: self.j5 + rhs.j5,
            j6: self.j6 + rhs.j6,
        }
    }
}

impl vstd::std_specs::ops::AddSpecImpl for JointCoord {
    open spec fn obeys_add_spec() -> bool {
        true
    }

    open spec fn add_req(self, rhs: JointCoord) -> bool {
        self.can_add(rhs)
    }

    open spec fn add_spec(self, rhs: JointCoord) -> JointCoord {
        self.plus(rhs)
    }
}

impl core::ops::Sub for JointCoord {
    type Output = JointCoord;

    /// The joint-wise difference.
    fn sub(self, rhs: JointCoord) -> (r: JointCoord) {
        JointCoord {
            j1: self.j1 - rhs.j1,
            j2: self.j2 - rhs.j2,
            j3: self.j3 - rhs.j3,
            j4: self.j4 - rhs.j4,
            j5: self.j5 - rhs.j5,
            j6: self.j6 - rhs.j6,
        }
    }
}

impl vstd::std_specs::ops::SubSpecImpl for JointCoord {
    open spec fn obeys_sub_spec() -> bool {
        true
    }

    open spec fn sub_req(self, rhs: JointCoord) -> bool {
        self.can_subtract(rhs)
    }

    open spec fn sub_spec(self, rhs: JointCoord) -> JointCoord {
        self.minus(rhs)
    }
}

} // verus!
