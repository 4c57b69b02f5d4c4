//! Transforms as recipes: which elementary matrices are multiplied, and in
//! which order.
//!
//! The numbers of a transform are carried, not computed with. A recipe is the
//! list of its factors; the matrix it stands for is their product, first factor
//! leftmost, and the identity where the list is empty.

use vstd::prelude::*;
use crate::scalar::Scalar;

verus! {

/// An elementary matrix.
#[derive(Clone, Copy, Debug, PartialEq, Eq)]
pub enum Factor {
    /// The translation by x, y, z.
    Translation(Scalar, Scalar, Scalar),
    /// The rotation around the x axis by an angle in degrees.
    RotationX(Scalar),
    /// The rotation around the y axis by an angle in degrees.
    RotationY(Scalar),
    /// The rotation around the z axis by an angle in degrees.
    RotationZ(Scalar),
    /// The scaling by a factor along each of x, y, z.
    Scale(Scalar, Scalar, Scalar),
}

/// The translation to a position.
pub open spec fn translation(position: (Scalar, Scalar, Scalar)) -> Seq<Factor> {
    seq![Factor::Translation(position.0, position.1, position.2)]
}

/// The rotation by Euler angles in degrees: around x, then y, then z.
pub open spec fn rotation(rotation: (Scalar, Scalar, Scalar)) -> Seq<Factor> {
    seq![
        Factor::RotationX(rotation.0),
        Factor::RotationY(rotation.1),
        Factor::RotationZ(rotation.2),
    ]
}

/// The scaling by a factor for each axis.
pub open spec fn scaling(scale: (Scalar, Scalar, Scalar)) -> Seq<Factor> {
    seq![Factor::Scale(scale.0, scale.1, scale.2)]
}

/// A transform, kept as the factors of a matrix product.
#[derive(Clone, Debug, PartialEq, Eq)]
pub struct Transform {
    transform: Vec<Factor>,
}

impl View for Transform {
    type V = Seq<Factor>;

    /// The factors, leftmost first.
    closed spec fn view(&self) -> Seq<Factor> {
        self.transform@
    }
}

impl Transform {
    /// The factors of the transform, leftmost first.
    pub fn factors(&self) -> (r: &Vec<Factor>)
        ensures
            r@ == self@,
    {
        &self.transform
    }

    /// The transform that changes nothing: the empty product.
    pub fn identity() -> (t: Transform)
        ensures
            t@ == Seq::<Factor>::empty(),
    {
        Transform { transform: Vec::new() }
    }

    /// The translation to `position`.
    pub fn with_position(position: (Scalar, Scalar, Scalar)) -> (t: Transform)
        ensures
            t@ == translation(position),
    {
        let mut transform: Vec<Factor> = Vec::new();
        transform.push(Factor::Translation(position.0, position.1, position.2));
        assert(transform@ =~= translation(position));
        Transform { transform }
    }

    /// The rotation by the Euler angles `rotation`, in degrees, around x, then
    /// y, then z.
    pub fn with_rotation(rotation: (Scalar, Scalar, Scalar)) -> (t: Transform)
        ensures
            t@ == self::rotation(rotation),
    {
        let mut transform: Vec<Factor> = Vec::new();
        transform.push(Factor::RotationX(rotation.0));
        transform.push(Factor::RotationY(rotation.1));
        transform.push(Factor::RotationZ(rotation.2));
        assert(transform@ =~= self::rotation(rotation));
        Transform { transform }
    }

    /// The scaling by `scale`.
    pub fn with_scale(scale: (Scalar, Scalar, Scalar)) -> (t: Transform)
        ensures
            t@ == scaling(scale),
    {
        let mut transform: Vec<Factor> = Vec::new();
        transform.push(Factor::Scale(scale.0, scale.1, scale.2));
        assert(transform@ =~= scaling(scale));
        Transform { transform }
    }

    /// Translation times rotation.
    pub fn with_position_and_rotation(
        position: (Scalar, Scalar, Scalar),
        rotation: (Scalar, Scalar, Scalar),
    ) -> (t: Transform)
        ensures
            t@ == translation(position) + self::rotation(rotation),
    {
        let mut transform: Vec<Factor> = Vec::new();
        transform.push(Factor::Translation(position.0, position.1, position.2));
        transform.push(Factor::RotationX(rotation.0));
        transform.push(Factor::RotationY(rotation.1));
        transform.push(Factor::RotationZ(rotation.2));
        assert(transform@ =~= translation(position) + self::rotation(rotation));
        Transform { transform }
    }

    /// Scaling times translation.
    pub fn with_position_and_scale(
        position: (Scalar, Scalar, Scalar),
        scale: (Scalar, Scalar, Scalar),
    ) -> (t: Transform)
        ensures
            t@ == scaling(scale) + translation(position),
    {
        let mut transform: Vec<Factor> = Vec::new();
        transform.push(Factor::Scale(scale.0, scale.1, scale.2));
        transform.push(Factor::Translation(position.0, position.1, position.2));
        assert(transform@ =~= scaling(scale) + translation(position));
        Transform { transform }
    }

    /// Scaling times rotation.
    pub fn with_rotation_and_scale(
        rotation: (Scalar, Scalar, Scalar),
        scale: (Scalar, Scalar, Scalar),
    ) -> (t: Transform)
        ensures
            t@ == scaling(scale) + self::rotation(rotation),
    {
        let mut transform: Vec<Factor> = Vec::new();
        transform.push(Factor::Scale(scale.0, scale.1, scale.2));
        transform.push(Factor::RotationX(rotation.0));
        transform.push(Factor::RotationY(rotation.1));
        transform.push(Factor::RotationZ(rotation.2));
        assert(transform@ =~= scaling(scale) + self::rotation(rotation));
        Transform { transform }
    }

    /// Translation times scaling times rotation.
    pub fn with_position_and_rotation_and_scale(
        position: (Scalar, Scalar, Scalar),
        rotation: (Scalar, Scalar, Scalar),
        scale: (Scalar, Scalar, Scalar),
    ) -> (t: Transform)
        ensures
            t@ == translation(position) + scaling(scale) + self::rotation(rotation),
    {
        let mut transform: Vec<Factor> = Vec::new();
        transform.push(Factor::Translation(position.0, position.1, position.2));
        transform.push(Factor::Scale(scale.0, scale.1, scale.2));
        transform.push(Factor::RotationX(rotation.0));
        transform.push(Factor::RotationY(rotation.1));
        transform.push(Factor::RotationZ(rotation.2));
        assert(transform@ =~= translation(position) + scaling(scale) + self::rotation(rotation));
        Transform { transform }
    }
}

} // verus!
