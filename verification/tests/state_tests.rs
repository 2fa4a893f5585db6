use dungeon_vac::Cell;
use dungeon_vac::Command;
use dungeon_vac::Dir;
use dungeon_vac::Effect;
use dungeon_vac::Level;
use dungeon_vac::Rule;
use dungeon_vac::Sensor;
use dungeon_vac::Simulation;
use dungeon_vac::State;

const EMPTY_3X3: &str = "...\n.S.\n...";
const ROOM_4X4: &str = "####\n#..#\n#S.#\n####";

#[test]
fn test_evaluate_sensors() {
    let level = Level::parse(ROOM_4X4).unwrap();
    let mut state = State::new(Cell::new(1, 1), Dir::East);

    // given that setup, there should be space on the left but not on the right
    let sensors = state.evaluate_sensors(&level);
    assert!(sensors.contains(&Sensor::SpaceLeft));
    assert!(!sensors.contains(&Sensor::SpaceRight));
    assert!(!sensors.contains(&Sensor::HitWall));

    state.hit_wall_last_tick = true;
    let sensors = state.evaluate_sensors(&level);
    assert!(sensors.contains(&Sensor::HitWall));
}

#[test]
fn test_apply_commands_no_walls() {
    let level = Level::parse(EMPTY_3X3).unwrap();
    let mut state = State::new(Cell::new(0, 0), Dir::East);

    let effect = state.apply_command(Command::MoveForward, &level);
    assert_eq!(state.vac_pos, Cell::new(1, 0));
    assert_eq!(state.vac_dir, Dir::East);
    assert_eq!(effect, Effect::Moved { from: Cell::new(0, 0), to: Cell::new(1, 0) });

    let effect = state.apply_command(Command::TurnRight, &level);
    assert_eq!(state.vac_pos, Cell::new(1, 0));
    assert_eq!(state.vac_dir, Dir::South);
    assert_eq!(effect, Effect::Rotated { from: Dir::East, to: Dir::South });

    let effect = state.apply_command(Command::TurnLeft, &level);
    assert_eq!(state.vac_pos, Cell::new(1, 0));
    assert_eq!(state.vac_dir, Dir::East);
    assert_eq!(effect, Effect::Rotated { from: Dir::South, to: Dir::East });
}

#[test]
fn test_apply_commands_with_walls() {
    let level = Level::parse(ROOM_4X4).unwrap();
    let mut state = State::new(Cell::new(1, 1), Dir::East);

    // there's one space to move to in this direction before we hit a wall
    let effect = state.apply_command(Command::MoveForward, &level);
    assert_eq!(state.vac_pos, Cell::new(2, 1));
    assert!(!state.hit_wall_last_tick);
    assert_eq!(effect, Effect::Moved { from: Cell::new(1, 1), to: Cell::new(2, 1) });

    // shouldn't be able to move forward again
    let effect = state.apply_command(Command::MoveForward, &level);
    assert_eq!(state.vac_pos, Cell::new(2, 1));
    assert!(state.hit_wall_last_tick);
    assert_eq!(effect, Effect::BumpedWall);
}

#[test]
fn test_tick() {
    let level = Level::parse(ROOM_4X4).unwrap();
    let mut state = State::new(Cell::new(1, 1), Dir::East);

    let rules = [
        Rule::new(Sensor::SpaceRight, Command::TurnRight),
        Rule::new(Sensor::SpaceLeft, Command::TurnLeft),
    ];

    // there's space on the left but not the right,
    // so we should turn left
    let effect = state.tick(&level, &rules);
    assert_eq!(state.vac_dir, Dir::North);
    assert_eq!(effect, Effect::Rotated { from: Dir::East, to: Dir::North });
}

#[test]
fn tick_bump_surfaces_hit_wall() {
    let level = Level::parse(ROOM_4X4).unwrap();
    let mut state = State::new(Cell::new(1, 1), Dir::East);
    let rules: [Rule; 0] = [];

    // with no rules every tick falls back to moving forward
    let effect = state.tick(&level, &rules);
    assert_eq!(effect, Effect::Moved { from: Cell::new(1, 1), to: Cell::new(2, 1) });

    // the second forward move hits the border and sets the wall flag
    let effect = state.tick(&level, &rules);
    assert_eq!(effect, Effect::BumpedWall);
    assert_eq!(state.vac_pos(), Cell::new(2, 1));
    assert!(state.hit_wall_last_tick);

    // the flag surfaces as an active HitWall sensor on the next evaluation
    let sensors = state.evaluate_sensors(&level);
    assert!(sensors.contains(&Sensor::HitWall));
}

#[test]
fn stop_start_gate() {
    let level = Level::parse(ROOM_4X4).unwrap();
    let mut state = State::new(Cell::new(1, 1), Dir::East);
    let mut sim = Simulation::default();
    let rules: [Rule; 0] = [];

    // stopped: expiries mutate nothing
    assert!(!sim.is_running());
    assert!(sim.step(&mut state, &level, &rules).is_none());
    assert!(sim.step(&mut state, &level, &rules).is_none());
    assert_eq!(state.vac_pos(), Cell::new(1, 1));
    assert_eq!(state.vac_dir(), Dir::East);

    // resuming issues no catch-up tick: one expiry, one tick
    sim.start();
    assert!(sim.is_running());
    let effect = sim.step(&mut state, &level, &rules);
    assert_eq!(effect, Some(Effect::Moved { from: Cell::new(1, 1), to: Cell::new(2, 1) }));
    assert_eq!(state.vac_pos(), Cell::new(2, 1));

    sim.stop();
    assert!(sim.step(&mut state, &level, &rules).is_none());
    assert_eq!(state.vac_pos(), Cell::new(2, 1));
}

#[test]
fn turn_keeps_wall_flag() {
    let level = Level::parse(ROOM_4X4).unwrap();
    let mut state = State::new(Cell::new(2, 1), Dir::East);

    // bump against the east wall, then turn: the turn leaves the wall
    // flag untouched, and only a successful move clears it
    let effect = state.apply_command(Command::MoveForward, &level);
    assert_eq!(effect, Effect::BumpedWall);
    assert!(state.hit_wall_last_tick);

    state.apply_command(Command::TurnLeft, &level);
    assert!(state.hit_wall_last_tick);

    let effect = state.apply_command(Command::MoveForward, &level);
    assert_eq!(effect, Effect::Moved { from: Cell::new(2, 1), to: Cell::new(2, 2) });
    assert!(!state.hit_wall_last_tick);
}
