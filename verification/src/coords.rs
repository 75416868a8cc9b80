//! The axis conventions of the simulation and of the renderer, and how a
//! vector goes from the one to the other.

use vstd::prelude::*;

verus! {

#[derive(Clone, Copy, Debug, PartialEq, Eq, Structural)]
pub enum Axis {
    X,
    Y,
    Z,
}

/// One component of a vector, as it is or negated.
#[derive(Clone, Copy, Debug, PartialEq, Eq, Structural)]
pub struct SignedAxis {
    pub axis: Axis,
    pub negate: bool,
}

/// Where each component of a converted vector comes from.
#[derive(Clone, Copy, Debug, PartialEq, Eq, Structural)]
pub struct AxisConvention {
    pub x: SignedAxis,
    pub y: SignedAxis,
    pub z: SignedAxis,
}

/// The component of `vector` on `axis`.
pub open spec fn spec_component<T>(vector: (T, T, T), axis: Axis) -> T {
    match axis {
        Axis::X => vector.0,
        Axis::Y => vector.1,
        Axis::Z => vector.2,
    }
}

/// The component that `source` names: of `vector`, or of `negated` where
/// it is to be negated.
pub open spec fn spec_pick<T>(source: SignedAxis, vector: (T, T, T), negated: (T, T, T)) -> T {
    if source.negate {
        spec_component(negated, source.axis)
    } else {
        spec_component(vector, source.axis)
    }
}

/// From the simulation to the renderer: `(x, y, z)` becomes `(-y, z, -x)`.
pub open spec fn spec_world_to_render() -> AxisConvention {
    AxisConvention {
        x: SignedAxis { axis: Axis::Y, negate: true },
        y: SignedAxis { axis: Axis::Z, negate: false },
        z: SignedAxis { axis: Axis::X, negate: true },
    }
}

/// The same with every sign turned: `(x, y, z)` becomes `(y, -z, x)`. It
/// moves the world by the inverse of a position.
pub open spec fn spec_world_to_render_inverse() -> AxisConvention {
    AxisConvention {
        x: SignedAxis { axis: Axis::Y, negate: false },
        y: SignedAxis { axis: Axis::Z, negate: true },
        z: SignedAxis { axis: Axis::X, negate: false },
    }
}

/// The angles of the rotation of a camera: `(x, y, z)` becomes
/// `(x, -y, -z)`.
pub open spec fn spec_camera_angles() -> AxisConvention {
    AxisConvention {
        x: SignedAxis { axis: Axis::X, negate: false },
        y: SignedAxis { axis: Axis::Y, negate: true },
        z: SignedAxis { axis: Axis::Z, negate: true },
    }
}

impl SignedAxis {
    /// The same component with the other sign.
    pub open spec fn spec_opposite(self) -> SignedAxis {
        SignedAxis { axis: self.axis, negate: !self.negate }
    }
}

impl AxisConvention {
    /// The converted vector. `negated` holds the components of `vector`,
    /// negated.
    pub open spec fn spec_apply<T>(self, vector: (T, T, T), negated: (T, T, T)) -> (T, T, T) {
        (
            spec_pick(self.x, vector, negated),
            spec_pick(self.y, vector, negated),
            spec_pick(self.z, vector, negated),
        )
    }

    /// The convention that gives the negated result.
    pub open spec fn spec_opposite(self) -> AxisConvention {
        AxisConvention {
            x: self.x.spec_opposite(),
            y: self.y.spec_opposite(),
            z: self.z.spec_opposite(),
        }
    }

    /// Converts `vector`. The caller hands over the negated components
    /// too, so that the components can be of any type.
    pub fn apply<T: Copy>(&self, vector: (T, T, T), negated: (T, T, T)) -> (converted: (T, T, T))
        ensures
            converted == self.spec_apply(vector, negated),
    {
        (pick(self.x, vector, negated), pick(self.y, vector, negated), pick(self.z, vector, negated))
    }
}

fn pick<T: Copy>(source: SignedAxis, vector: (T, T, T), negated: (T, T, T)) -> (component: T)
    ensures
        component == spec_pick(source, vector, negated),
{
    let from: (T, T, T) = if source.negate {
        negated
    } else {
        vector
    };
    match source.axis {
        Axis::X => from.0,
        Axis::Y => from.1,
        Axis::Z => from.2,
    }
}

/// The convention by which an origin of the simulation becomes a position
/// of the renderer.
pub fn world_to_render() -> (convention: AxisConvention)
    ensures
        convention == spec_world_to_render(),
{
    AxisConvention {
        x: SignedAxis { axis: Axis::Y, negate: true },
        y: SignedAxis { axis: Axis::Z, negate: false },
        z: SignedAxis { axis: Axis::X, negate: true },
    }
}

/// The convention by which the origin of a camera becomes the translation
/// of the world: the inverse of its position.
pub fn world_to_render_inverse() -> (convention: AxisConvention)
    ensures
        convention == spec_world_to_render_inverse(),
        convention == spec_world_to_render().spec_opposite(),
{
    AxisConvention {
        x: SignedAxis { axis: Axis::Y, negate: false },
        y: SignedAxis { axis: Axis::Z, negate: true },
        z: SignedAxis { axis: Axis::X, negate: false },
    }
}

/// The convention by which the angles of a camera become the angles of its
/// rotation.
pub fn camera_angles() -> (convention: AxisConvention)
    ensures
        convention == spec_camera_angles(),
{
    AxisConvention {
        x: SignedAxis { axis: Axis::X, negate: false },
        y: SignedAxis { axis: Axis::Y, negate: true },
        z: SignedAxis { axis: Axis::Z, negate: true },
    }
}

/// On whole numbers the conventions are what they are said to be.
pub proof fn lemma_conventions_on_integers(x: int, y: int, z: int)
    ensures
        spec_world_to_render().spec_apply((x, y, z), (-x, -y, -z)) == (-y, z, -x),
        spec_world_to_render_inverse().spec_apply((x, y, z), (-x, -y, -z)) == (y, -z, x),
        spec_camera_angles().spec_apply((x, y, z), (-x, -y, -z)) == (x, -y, -z),
{
}

/// The opposite convention gives the result that the convention gives for
/// the vector and its negation exchanged.
pub proof fn lemma_opposite_swaps<T>(convention: AxisConvention, vector: (T, T, T), negated: (T, T, T))
    ensures
        convention.spec_opposite().spec_apply(vector, negated) == convention.spec_apply(
            negated,
            vector,
        ),
{
}

} // verus!
