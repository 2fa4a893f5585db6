use dungeon_vac::Cell;
use dungeon_vac::Command;
use dungeon_vac::Dir;
use dungeon_vac::Rule;
use dungeon_vac::Sensor;

#[test]
fn compute_commands_default_move() {
    let rules = [Rule::new(Sensor::HitWall, Command::TurnRight)];
    let sensor = [Sensor::SpaceLeft];

    let commands = Rule::compute_commands(&rules, &sensor);
    assert_eq!(commands, vec![Command::MoveForward]);
}

#[test]
fn compute_commands_single() {
    let rules = [Rule::new(Sensor::HitWall, Command::TurnRight)];
    let sensors = [Sensor::HitWall];

    let commands = Rule::compute_commands(&rules, &sensors);
    assert_eq!(commands, vec![Command::TurnRight]);
}

#[test]
fn compute_commands_same_category() {
    let rules = [
        Rule::new(Sensor::HitWall, Command::TurnRight),
        Rule::new(Sensor::HitWall, Command::TurnLeft),
    ];
    let sensors = [Sensor::HitWall];

    // only the first matching rule should trigger
    let commands = Rule::compute_commands(&rules, &sensors);
    assert_eq!(commands, vec![Command::TurnRight]);
}

#[test]
fn empty_rules_default_move() {
    let rules: [Rule; 0] = [];
    let sensors = [Sensor::HitWall, Sensor::SpaceLeft, Sensor::SpaceRight];

    let commands = Rule::compute_commands(&rules, &sensors);
    assert_eq!(commands, vec![Command::MoveForward]);
}

#[test]
fn rule_major_resolution_order() {
    let rules = [
        Rule::new(Sensor::HitWall, Command::TurnRight),
        Rule::new(Sensor::SpaceLeft, Command::TurnLeft),
    ];
    // SpaceLeft comes first among the active sensors, but resolution is
    // rule-major: the first rule in rule-set order still wins.
    let sensors = [Sensor::SpaceLeft, Sensor::HitWall];

    let commands = Rule::compute_commands(&rules, &sensors);
    assert_eq!(commands, vec![Command::TurnRight]);
}

#[test]
fn rotations_cycle() {
    for d in [Dir::East, Dir::North, Dir::West, Dir::South] {
        assert_eq!(d.rotate_cw().rotate_ccw(), d);
        assert_eq!(d.rotate_ccw().rotate_cw(), d);
        assert_eq!(d.rotate_cw().rotate_cw().rotate_cw().rotate_cw(), d);
        assert_eq!(d.rotate_ccw().rotate_ccw().rotate_ccw().rotate_ccw(), d);
    }
    assert_eq!(Dir::East.rotate_cw(), Dir::South);
    assert_eq!(Dir::East.rotate_ccw(), Dir::North);
}

#[test]
fn unit_vectors() {
    assert_eq!(Dir::East.to_ivec(), Cell::new(1, 0));
    assert_eq!(Dir::North.to_ivec(), Cell::new(0, 1));
    assert_eq!(Dir::West.to_ivec(), Cell::new(-1, 0));
    assert_eq!(Dir::South.to_ivec(), Cell::new(0, -1));
}

#[test]
fn editor_labels() {
    assert_eq!(Sensor::HitWall.label(), "WHEN hit wall");
    assert_eq!(Sensor::SpaceLeft.label(), "WHEN space left");
    assert_eq!(Sensor::SpaceRight.label(), "WHEN space right");
    assert_eq!(Command::TurnRight.label(), "THEN turn right");
    assert_eq!(Command::TurnLeft.label(), "THEN turn left");
    assert_eq!(Command::MoveForward.label(), "WHEN go forward");
}
