use vstd::prelude::*;

verus! {

use crate::cell::Cell;
use crate::command::Command;
use crate::dir::Dir;
use crate::dir::spec_dir_vec;
use crate::dir::spec_rotate_ccw;
use crate::dir::spec_rotate_cw;
use crate::level::Level;
use crate::rule::Rule;
use crate::rule::resolved_command;
use crate::sensor::Sensor;

/// The record of what physically happened during one tick, consumed by
/// the presentation layer to drive animation. Transient: produced and
/// consumed per tick, never accumulated.
#[derive(Debug, Clone, Copy, PartialEq, Eq, Structural)]
#[allow(inconsistent_fields)]
pub enum Effect {
    Moved { from: Cell, to: Cell },
    BumpedWall,
    Rotated { from: Dir, to: Dir },
}

/// The agent's state: position, heading, and whether the previous tick
/// ended with a blocked forward move. Mutated exactly once per tick.
pub struct State {
    pub vac_pos: Cell,
    pub vac_dir: Dir,
    pub hit_wall_last_tick: bool,
}

/// The cell one step from `p` in direction `d`.
pub open spec fn spec_step(p: (int, int), d: Dir) -> (int, int) {
    (p.0 + spec_dir_vec(d).0, p.1 + spec_dir_vec(d).1)
}

impl State {
    pub fn new(vac_pos: Cell, vac_dir: Dir) -> (s: State)
        ensures
            s == (State { vac_pos, vac_dir, hit_wall_last_tick: false }),
    {
        State { vac_pos, vac_dir, hit_wall_last_tick: false }
    }

    /// The sensors active this tick: space to the left and right of the
    /// heading, observed fresh against the level, and the wall flag left
    /// by the previous tick.
    pub open spec fn spec_sensors(self, level: Level) -> Seq<Sensor> {
        (if level.spec_has_space(spec_step(self.vac_pos@, spec_rotate_ccw(self.vac_dir))) {
            seq![Sensor::SpaceLeft]
        } else {
            Seq::empty()
        }) + (if level.spec_has_space(spec_step(self.vac_pos@, spec_rotate_cw(self.vac_dir))) {
            seq![Sensor::SpaceRight]
        } else {
            Seq::empty()
        }) + (if self.hit_wall_last_tick {
            seq![Sensor::HitWall]
        } else {
            Seq::empty()
        })
    }

    /// The state and effect one command application yields: a forward
    /// move succeeds into free space and clears the wall flag, a blocked
    /// move sets it and changes nothing else, and a turn rotates the
    /// heading and leaves position and wall flag untouched.
    pub open spec fn spec_apply(self, command: Command, level: Level) -> (State, Effect) {
        match command {
            Command::MoveForward => {
                let dest = spec_step(self.vac_pos@, self.vac_dir);
                if level.spec_has_space(dest) {
                    let to = Cell { x: dest.0 as i32, y: dest.1 as i32 };
                    (
                        State { vac_pos: to, hit_wall_last_tick: false, ..self },
                        Effect::Moved { from: self.vac_pos, to },
                    )
                } else {
                    (State { hit_wall_last_tick: true, ..self }, Effect::BumpedWall)
                }
            },
            Command::TurnRight => {
                let to = spec_rotate_cw(self.vac_dir);
                (State { vac_dir: to, ..self }, Effect::Rotated { from: self.vac_dir, to })
            },
            Command::TurnLeft => {
                let to = spec_rotate_ccw(self.vac_dir);
                (State { vac_dir: to, ..self }, Effect::Rotated { from: self.vac_dir, to })
            },
        }
    }

    /// The full transition of one tick: evaluate the sensors, resolve
    /// them through the rules to the single winning command, apply it.
    pub open spec fn spec_tick(self, level: Level, rules: Seq<Rule>) -> (State, Effect) {
        self.spec_apply(resolved_command(rules, self.spec_sensors(level)), level)
    }

    /// Whether the cell one step from the agent in direction `d` has
    /// space. An offset whose coordinate leaves the cell type lies
    /// outside the level's bounds, so it is blocked like any other
    /// out-of-bounds cell.
    fn neighbor_has_space(&self, level: &Level, d: Dir) -> (r: bool)
        ensures
            r == level.spec_has_space(spec_step(self.vac_pos@, d)),
    {
        proof {
            use_type_invariant(level);
        }
        let v = d.to_ivec();
        let ox = self.vac_pos.x.checked_add(v.x);
        let oy = self.vac_pos.y.checked_add(v.y);
        if let (Some(x), Some(y)) = (ox, oy) {
            level.has_space(Cell { x, y })
        } else {
            false
        }
    }

    /// Evaluate the sensors against the level, in the order SpaceLeft,
    /// SpaceRight, HitWall.
    pub fn evaluate_sensors(&self, level: &Level) -> (r: Vec<Sensor>)
        ensures
            r@ == self.spec_sensors(*level),
    {
        let mut sensors: Vec<Sensor> = Vec::new();

        if self.neighbor_has_space(level, self.vac_dir.rotate_ccw()) {
            sensors.push(Sensor::SpaceLeft);
        }
        if self.neighbor_has_space(level, self.vac_dir.rotate_cw()) {
            sensors.push(Sensor::SpaceRight);
        }
        if self.hit_wall_last_tick {
            sensors.push(Sensor::HitWall);
        }

        assert(sensors@ =~= self.spec_sensors(*level));
        sensors
    }

    /// Apply one command, atomically: the state is either fully advanced
    /// by one step or turn, or fully unchanged but for the wall flag a
    /// rejected move sets.
    pub fn apply_command(&mut self, command: Command, level: &Level) -> (e: Effect)
        ensures
            ({
                let (s2, e2) = old(self).spec_apply(command, *level);
                *final(self) == s2 && e == e2
            }),
    {
        match command {
            Command::MoveForward => {
                proof {
                    use_type_invariant(level);
                }
                let orig_pos = self.vac_pos;
                let v = self.vac_dir.to_ivec();
                let ox = orig_pos.x.checked_add(v.x);
                let oy = orig_pos.y.checked_add(v.y);
                if let (Some(x), Some(y)) = (ox, oy) {
                    let dest = Cell { x, y };
                    if level.has_space(dest) {
                        self.vac_pos = dest;
                        self.hit_wall_last_tick = false;
                        return Effect::Moved { from: orig_pos, to: dest };
                    }
                }
                self.hit_wall_last_tick = true;
                Effect::BumpedWall
            },
            Command::TurnRight => {
                let from = self.vac_dir;
                let to = from.rotate_cw();
                self.vac_dir = to;
                Effect::Rotated { from, to }
            },
            Command::TurnLeft => {
                let from = self.vac_dir;
                let to = from.rotate_ccw();
                self.vac_dir = to;
                Effect::Rotated { from, to }
            },
        }
    }

    /// One tick: evaluate the sensors, resolve them through the rules,
    /// apply the winning command, and report what happened. Resolution
    /// always yields exactly one command, so the tick is total.
    pub fn tick(&mut self, level: &Level, rules: &[Rule]) -> (e: Effect)
        ensures
            ({
                let (s2, e2) = old(self).spec_tick(*level, rules@);
                *final(self) == s2 && e == e2
            }),
    {
        let sensors = self.evaluate_sensors(level);
        let commands = Rule::compute_commands(rules, sensors.as_slice());
        let command = commands[0];
        self.apply_command(command, level)
    }

    /// Law: a tick is atomic. It either moves the agent one step ahead
    /// into free space (clearing the wall flag), turns it a quarter in
    /// place (leaving position and wall flag alone), or, when the move
    /// ahead is blocked, changes nothing but setting the wall flag; the
    /// returned effect names exactly which happened.
    pub proof fn lemma_tick_atomic(pre: State, level: Level, rules: Seq<Rule>)
        requires
            level.wf(),
        ensures
            ({
                let (post, e) = pre.spec_tick(level, rules);
                match e {
                    Effect::Moved { from, to } => {
                        &&& from == pre.vac_pos
                        &&& to == post.vac_pos
                        &&& to@ == spec_step(pre.vac_pos@, pre.vac_dir)
                        &&& level.spec_has_space(to@)
                        &&& post.vac_dir == pre.vac_dir
                        &&& !post.hit_wall_last_tick
                    },
                    Effect::Rotated { from, to } => {
                        &&& from == pre.vac_dir
                        &&& to == post.vac_dir
                        &&& (to == spec_rotate_cw(from) || to == spec_rotate_ccw(from))
                        &&& post.vac_pos == pre.vac_pos
                        &&& post.hit_wall_last_tick == pre.hit_wall_last_tick
                    },
                    Effect::BumpedWall => {
                        &&& !level.spec_has_space(spec_step(pre.vac_pos@, pre.vac_dir))
                        &&& post.vac_pos == pre.vac_pos
                        &&& post.vac_dir == pre.vac_dir
                        &&& post.hit_wall_last_tick
                    },
                }
            }),
    {
    }

    pub fn vac_pos(&self) -> (r: Cell)
        ensures
            r == self.vac_pos,
    {
        self.vac_pos
    }

    pub fn vac_dir(&self) -> (r: Dir)
        ensures
            r == self.vac_dir,
    {
        self.vac_dir
    }
}

} // verus!
