use vstd::prelude::*;

verus! {

/// A discrete reaction the agent can perform in one tick.
///
/// Exactly one command is produced per tick: the commands form a single
/// category of mutually exclusive reactions.
#[derive(Debug, Clone, Copy, PartialEq, Eq, Structural)]
pub enum Command {
    TurnRight,
    TurnLeft,
    /// The fallback reaction when no rule fires.
    MoveForward,
}

impl Command {
    /// The text the rule editor shows for this reaction.
    pub fn label(self) -> (r: String)
        ensures
            r@ == match self {
                Command::TurnRight => "THEN turn right"@,
                Command::TurnLeft => "THEN turn left"@,
                Command::MoveForward => "WHEN go forward"@,
            },
    {
        match self {
            Command::TurnRight => "THEN turn right".to_owned(),
            Command::TurnLeft => "THEN turn left".to_owned(),
            Command::MoveForward => "WHEN go forward".to_owned(),
        }
    }
}

} // verus!
