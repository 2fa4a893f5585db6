//! A rule-driven grid agent: a vacuum robot that roams a wall-delimited
//! room on a fixed tick, steered by user-editable sensor-to-command rules.
//!
//! The crate models the room (`Level`), the agent's heading (`Dir`), the
//! observable conditions (`Sensor`), the reactions (`Command`), the rule
//! table (`Rule`), the per-tick state machine (`State`, `Effect`) and the
//! start/stop latch (`Simulation`). Every operation carries a contract
//! that pins down its result; the presentation layer only consumes the
//! `Effect` record each tick returns.

pub mod cell;
pub mod command;
pub mod dir;
pub mod level;
pub mod lines;
pub mod rule;
pub mod sensor;
pub mod simulation;
pub mod state;

pub use cell::Cell;
pub use command::Command;
pub use dir::Dir;
pub use level::Level;
pub use level::ParseError;
pub use rule::Rule;
pub use sensor::Sensor;
pub use simulation::Simulation;
pub use state::Effect;
pub use state::State;
