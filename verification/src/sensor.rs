use vstd::prelude::*;

verus! {

/// An observable condition about the agent's immediate surroundings,
/// recomputed freshly on every tick.
#[derive(Debug, Clone, Copy, PartialEq, Eq, Structural)]
pub enum Sensor {
    /// The previous tick ended with a blocked forward move.
    HitWall,
    /// The cell one step to the left of the heading has space.
    SpaceLeft,
    /// The cell one step to the right of the heading has space.
    SpaceRight,
}

impl Sensor {
    /// The text the rule editor shows for this condition.
    pub fn label(self) -> (r: String)
        ensures
            r@ == match self {
                Sensor::HitWall => "WHEN hit wall"@,
                Sensor::SpaceLeft => "WHEN space left"@,
                Sensor::SpaceRight => "WHEN space right"@,
            },
    {
        match self {
            Sensor::HitWall => "WHEN hit wall".to_owned(),
            Sensor::SpaceLeft => "WHEN space left".to_owned(),
            Sensor::SpaceRight => "WHEN space right".to_owned(),
        }
    }
}

} // verus!
