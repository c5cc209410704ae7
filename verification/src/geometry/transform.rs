//! Cartesian poses.
use vstd::prelude::*;

verus! {

/// A pose in space: a displacement in hundredths of a millimetre and the
/// three Euler angles in hundredths of a degree.
#[derive(Debug, Clone, Copy, PartialEq, Eq, Structural)]
pub struct Transform {
    pub x: i64,
    pub y: i64,
    pub z: i64,
    pub rx: i64,
    pub ry: i64,
    pub rz: i64,
}

impl Transform {
    /// The pose with the six components given.
    pub open spec fn new_spec(x: i64, y: i64, z: i64, rx: i64, ry: i64, rz: i64) -> Self {
        Transform { x, y, z, rx, ry, rz }
    }

    /// A pose from its displacement and Euler angles.
    pub fn new(x_mm: i64, y_mm: i64, z_mm: i64, rx_deg: i64, ry_deg: i64, rz_deg: i64) -> (r: Self)
        ensures
            r == Self::new_spec(x_mm, y_mm, z_mm, rx_deg, ry_deg, rz_deg),
    {
        Transform { x: x_mm, y: y_mm, z: z_mm, rx: rx_deg, ry: ry_deg, rz: rz_deg }
    }

    /// The pose that moves nothing.
    pub fn identity() -> (r: Self)
        ensures
            r == Self::new_spec(0, 0, 0, 0, 0, 0),
    {
        Transform::new(0, 0, 0, 0, 0, 0)
    }

    /// The pose whose components `q` lists: displacement first, then angles.
    pub fn from_array(q: [i64; 6]) -> (r: Self)
        ensures
            r == Self::new_spec(q[0], q[1], q[2], q[3], q[4], q[5]),
    {
        Transform::new(q[0], q[1], q[2], q[3], q[4], q[5])
    }

    /// A pure displacement.
    pub fn from_vector(vector_mm: [i64; 3]) -> (r: Self)
        ensures
            r == Self::new_spec(vector_mm[0], vector_mm[1], vector_mm[2], 0, 0, 0),
    {
        Transform::new(vector_mm[0], vector_mm[1], vector_mm[2], 0, 0, 0)
    }

    /// A pure rotation.
    pub fn from_euler(eular_degree: [i64; 3]) -> (r: Self)
        ensures
            r == Self::new_spec(0, 0, 0, eular_degree[0], eular_degree[1], eular_degree[2]),
    {
        Transform::new(0, 0, 0, eular_degree[0], eular_degree[1], eular_degree[2])
    }

    /// A displacement along x.
    pub fn from_x(mm: i64) -> (r: Self)
        ensures
            r == Self::new_spec(mm, 0, 0, 0, 0, 0),
    {
        Transform::identity().set_x(mm)
    }

    /// A displacement along y.
    pub fn from_y(mm: i64) -> (r: Self)
        ensures
            r == Self::new_spec(0, mm, 0, 0, 0, 0),
    {
        Transform::identity().set_y(mm)
    }

    /// A displacement along z.
    pub fn from_z(mm: i64) -> (r: Self)
        ensures
            r == Self::new_spec(0, 0, mm, 0, 0, 0),
    {
        Transform::identity().set_z(mm)
    }

    /// A rotation about x.
    pub fn from_rx(degree: i64) -> (r: Self)
        ensures
            r == Self::new_spec(0, 0, 0, degree, 0, 0),
    {
        Transform::identity().set_rx(degree)
    }

    /// A rotation about y.
    pub fn from_ry(degree: i64) -> (r: Self)
        ensures
            r == Self::new_spec(0, 0, 0, 0, degree, 0),
    {
        Transform::identity().set_ry(degree)
    }

    /// A rotation about z.
    pub fn from_rz(degree: i64) -> (r: Self)
        ensures
            r == Self::new_spec(0, 0, 0, 0, 0, degree),
    {
        Transform::identity().set_rz(degree)
    }

    /// The displacement.
    pub fn get_vector(&self) -> (v: [i64; 3])
        ensures
            v@ == seq![self.x, self.y, self.z],
    {
        let v = [self.x, self.y, self.z];
        v
    }

    /// The Euler angles.
    pub fn get_euler(&self) -> (v: [i64; 3])
        ensures
            v@ == seq![self.rx, self.ry, self.rz],
    {
        let v = [self.rx, self.ry, self.rz];
        v
    }

    /// The displacement along x.
    pub fn get_x(&self) -> (v: i64)
        ensures
            v == self.x,
    {
        self.x
    }

    /// The displacement along y.
    pub fn get_y(&self) -> (v: i64)
        ensures
            v == self.y,
    {
        self.y
    }

    /// The displacement along z.
    pub fn get_z(&self) -> (v: i64)
        ensures
            v == self.z,
    {
        self.z
    }

    /// The rotation about x.
    pub fn get_rx(&self) -> (v: i64)
        ensures
            v == self.rx,
    {
        self.rx
    }

    /// The rotation about y.
    pub fn get_ry(&self) -> (v: i64)
        ensures
            v == self.ry,
    {
        self.ry
    }

    /// The rotation about z.
    pub fn get_rz(&self) -> (v: i64)
        ensures
            v == self.rz,
    {
        self.rz
    }

    /// This pose with another displacement.
    pub fn set_vector(self, vector_mm: [i64; 3]) -> (r: Self)
        ensures
            r == (Transform { x: vector_mm[0], y: vector_mm[1], z: vector_mm[2], ..self }),
    {
        Transform { x: vector_mm[0], y: vector_mm[1], z: vector_mm[2], ..self }
    }

    /// This pose with other Euler angles.
    pub fn set_euler(self, eular_degree: [i64; 3]) -> (r: Self)
        ensures
            r == (Transform {
                rx: eular_degree[0],
                ry: eular_degree[1],
                rz: eular_degree[2],
                ..self
            }),
    {
        Transform { rx: eular_degree[0], ry: eular_degree[1], rz: eular_degree[2], ..self }
    }

    /// This pose with the displacement along x replaced.
    pub fn set_x(self, mm: i64) -> (r: Self)
        ensures
            r == (Transform { x: mm, ..self }),
    {
        Transform { x: mm, ..self }
    }

    /// This pose with the displacement along y replaced.
    pub fn set_y(self, mm: i64) -> (r: Self)
        ensures
            r == (Transform { y: mm, ..self }),
    {
        Transform { y: mm, ..self }
    }

    /// This pose with the displacement along z replaced.
    pub fn set_z(self, mm: i64) -> (r: Self)
        ensures
            r == (Transform { z: mm, ..self }),
    {
        Transform { z: mm, ..self }
    }

    /// This pose with the rotation about x replaced.
    pub fn set_rx(self, degree: i64) -> (r: Self)
        ensures
            r == (Transform { rx: degree, ..self }),
    {
        Transform { rx: degree, ..self }
    }

    /// This pose with the rotation about y replaced.
    pub fn set_ry(self, degree: i64) -> (r: Self)
        ensures
            r == (Transform { ry: degree, ..self }),
    {
        Transform { ry: degree, ..self }
    }

    /// This pose with the rotation about z replaced.
    pub fn set_rz(self, degree: i64) -> (r: Self)
        ensures
            r == (Transform { rz: degree, ..self }),
    {
        Transform { rz: degree, ..self }
    }

    /// The displacement of this pose, without its rotation.
    pub fn vector_only(&self) -> (r: Self)
        ensures
            r == Self::new_spec(self.x, self.y, self.z, 0, 0, 0),
    {
        Transform::new(self.x, self.y, self.z, 0, 0, 0)
    }

    /// The rotation of this pose, without its displacement.
    pub fn eular_only(&self) -> (r: Self)
        ensures
            r == Self::new_spec(0, 0, 0, self.rx, self.ry, self.rz),
    {
        Transform::new(0, 0, 0, self.rx, self.ry, self.rz)
    }

    /// Whether every component can change sign within the 64-bit range.
    pub open spec fn can_negate(self) -> bool {
        &&& self.x > i64::MIN
        &&& self.y > i64::MIN
        &&& self.z > i64::MIN
        &&& self.rx > i64::MIN
        &&& self.ry > i64::MIN
        &&& self.rz > i64::MIN
    }

    /// The pose with every component of the opposite sign.
    pub open spec fn negated(self) -> Self {
        Transform {
            x: (-self.x) as i64,
            y: (-self.y) as i64,
            z: (-self.z) as i64,
            rx: (-self.rx) as i64,
            ry: (-self.ry) as i64,
            rz: (-self.rz) as i64,
        }
    }

    /// The opposite delta: every component with the other sign. For a pure
    /// displacement, and for a rotation about one axis, this is the inverse
    /// motion. `None` where a component has no opposite in the 64-bit range.
    pub fn checked_neg(self) -> (r: Option<Self>)
        ensures
            self.can_negate() ==> r == Some(self.negated()),
            !self.can_negate() ==> r is None,
    {
        if self.x == i64::MIN || self.y == i64::MIN || self.z == i64::MIN || self.rx == i64::MIN
            || self.ry == i64::MIN || self.rz == i64::MIN {
            None
        } else {
            Some(
                Transform {
                    x: -self.x,
                    y: -self.y,
                    z: -self.z,
                    rx: -self.rx,
                    ry: -self.ry,
                    rz: -self.rz,
                },
            )
        }
    }
}

} // verus!
