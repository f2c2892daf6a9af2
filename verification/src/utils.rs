//! The datastructure holding the information for each point of the scattered
//! dataset to interpolate values from.

use vstd::prelude::*;

use crate::scalar::Scalar;

verus! {

/// A sample point: a coordinate pair and the scalar value observed there.
/// Coordinates are set at construction; the value may be overwritten.
#[derive(Clone, Copy, Debug, PartialEq, Eq, Structural, Hash)]
pub struct PtValue {
    /// The x coordinate.
    pub x: Scalar,
    /// The y coordinate.
    pub y: Scalar,
    /// The value associated to these coordinates.
    pub value: Scalar,
}

impl PtValue {
    /// Create a new PtValue given a x, a y and a value.
    pub fn new(x: Scalar, y: Scalar, value: Scalar) -> (r: Self)
        ensures
            r.x == x,
            r.y == y,
            r.value == value,
    {
        PtValue { x, y, value }
    }

    /// The coordinate pair of the point.
    pub fn get_coordinates(&self) -> (r: (Scalar, Scalar))
        ensures
            r.0 == self.x,
            r.1 == self.y,
    {
        (self.x, self.y)
    }

    /// The value carried by the point.
    pub fn get_value(&self) -> (r: Scalar)
        ensures
            r == self.value,
    {
        self.value
    }

    /// Overwrite the value; the coordinates stay as they are.
    pub fn set_value(&mut self, value: Scalar)
        ensures
            final(self).value == value,
            final(self).x == old(self).x,
            final(self).y == old(self).y,
    {
        self.value = value;
    }

    /// The coordinates and the value, as one triplet.
    pub fn get_triplet(&self) -> (r: (Scalar, Scalar, Scalar))
        ensures
            r.0 == self.x,
            r.1 == self.y,
            r.2 == self.value,
    {
        (self.x, self.y, self.value)
    }
}

} // verus!
