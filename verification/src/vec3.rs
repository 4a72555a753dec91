use vstd::prelude::*;

verus! {

/// A 3-vector with integer components: the positions, velocities and
/// accelerations of the simulation.
#[derive(Clone, Copy, Debug, PartialEq, Eq, Structural)]
pub struct Vec3 {
    pub x: i128,
    pub y: i128,
    pub z: i128,
}

/// The mathematical (unbounded) value of a `Vec3`.
pub ghost struct V3 {
    pub x: int,
    pub y: int,
    pub z: int,
}

impl View for Vec3 {
    type V = V3;

    open spec fn view(&self) -> V3 {
        V3 { x: self.x as int, y: self.y as int, z: self.z as int }
    }
}

impl V3 {
    /// Componentwise sum.
    pub open spec fn plus(self, other: V3) -> V3 {
        V3 { x: self.x + other.x, y: self.y + other.y, z: self.z + other.z }
    }

    /// Componentwise difference.
    pub open spec fn minus(self, other: V3) -> V3 {
        V3 { x: self.x - other.x, y: self.y - other.y, z: self.z - other.z }
    }

    /// Squared Euclidean norm.
    pub open spec fn norm_sq(self) -> int {
        self.x * self.x + self.y * self.y + self.z * self.z
    }

    /// Every component has magnitude at most `bound`.
    pub open spec fn bounded(self, bound: int) -> bool {
        -bound <= self.x <= bound && -bound <= self.y <= bound && -bound <= self.z <= bound
    }

    /// The zero vector.
    pub open spec fn zero() -> V3 {
        V3 { x: 0, y: 0, z: 0 }
    }
}

impl Vec3 {
    /// Builds the vector with the given components.
    pub fn new(x: i128, y: i128, z: i128) -> (v: Vec3)
        ensures
            v@ == (V3 { x: x as int, y: y as int, z: z as int }),
    {
        Vec3 { x, y, z }
    }

    /// The zero vector.
    pub fn zeros() -> (v: Vec3)
        ensures
            v@ == V3::zero(),
    {
        Vec3 { x: 0, y: 0, z: 0 }
    }
}

} // verus!
