use vstd::prelude::*;

verus! {

/// Defines several possible options for camera movement. Used as abstraction
/// to stay away from window-system specific input methods.
#[derive(Debug, PartialEq, Eq, Clone, Copy, Structural)]
pub enum MovementEvent {
    Forward,
    Backward,
    Left,
    Right,
}

/// The camera vector along which a movement goes.
#[derive(Debug, PartialEq, Eq, Clone, Copy, Structural)]
pub enum CameraAxis {
    /// The direction the camera looks in.
    Front,
    /// The camera's right-hand direction.
    Right,
}

/// A movement as the camera performs it: its position moves along `axis`,
/// in the axis's own direction when `positive`, against it otherwise.
#[derive(Debug, PartialEq, Eq, Clone, Copy, Structural)]
pub struct Displacement {
    pub axis: CameraAxis,
    pub positive: bool,
}

/// Forward and backward go along the front vector, right and left along the
/// right vector; forward and right with the vector, backward and left against it.
pub open spec fn displacement_of(m: MovementEvent) -> Displacement {
    match m {
        MovementEvent::Forward => Displacement { axis: CameraAxis::Front, positive: true },
        MovementEvent::Backward => Displacement { axis: CameraAxis::Front, positive: false },
        MovementEvent::Left => Displacement { axis: CameraAxis::Right, positive: false },
        MovementEvent::Right => Displacement { axis: CameraAxis::Right, positive: true },
    }
}

/// The movement in the other direction.
pub open spec fn reversed(m: MovementEvent) -> MovementEvent {
    match m {
        MovementEvent::Forward => MovementEvent::Backward,
        MovementEvent::Backward => MovementEvent::Forward,
        MovementEvent::Left => MovementEvent::Right,
        MovementEvent::Right => MovementEvent::Left,
    }
}

impl MovementEvent {
    /// Which camera vector this movement follows, and in which sense.
    pub fn displacement(self) -> (d: Displacement)
        ensures
            d == displacement_of(self),
    {
        match self {
            MovementEvent::Forward => Displacement { axis: CameraAxis::Front, positive: true },
            MovementEvent::Backward => Displacement { axis: CameraAxis::Front, positive: false },
            MovementEvent::Left => Displacement { axis: CameraAxis::Right, positive: false },
            MovementEvent::Right => Displacement { axis: CameraAxis::Right, positive: true },
        }
    }
}

/// Opposite movements go along the same camera vector in opposite senses, so
/// that one undoes the other.
pub proof fn lemma_opposite_movements_cancel(m: MovementEvent)
    ensures
        displacement_of(reversed(m)).axis == displacement_of(m).axis,
        displacement_of(reversed(m)).positive == !displacement_of(m).positive,
        reversed(reversed(m)) == m,
{
}

/// Different movements move the camera differently.
pub proof fn lemma_movements_are_distinct(a: MovementEvent, b: MovementEvent)
    ensures
        displacement_of(a) == displacement_of(b) ==> a == b,
{
}

} // verus!
