use vstd::prelude::*;

verus! {

use crate::command::Command;
use crate::sensor::Sensor;

/// A single condition-to-reaction association.
///
/// Rules live in an ordered sequence; resolution walks that sequence
/// front to back, so earlier rules take precedence over later ones.
#[derive(Debug, Clone, Copy, PartialEq, Eq, Structural)]
pub struct Rule {
    pub sensor: Sensor,
    pub command: Command,
}

/// The command of the first rule, in rule order, whose sensor occurs in
/// the active batch; `None` when no rule fires.
pub open spec fn first_firing(rules: Seq<Rule>, active: Seq<Sensor>) -> Option<Command>
    decreases rules.len(),
{
    if rules.len() == 0 {
        None
    } else if active.contains(rules[0].sensor) {
        Some(rules[0].command)
    } else {
        first_firing(rules.drop_first(), active)
    }
}

/// The single command a rule set resolves an active sensor batch to:
/// the first firing rule's command, or `MoveForward` when none fires.
pub open spec fn resolved_command(rules: Seq<Rule>, active: Seq<Sensor>) -> Command {
    match first_firing(rules, active) {
        Some(c) => c,
        None => Command::MoveForward,
    }
}

impl Rule {
    pub fn new(sensor: Sensor, command: Command) -> (r: Rule)
        ensures
            r == (Rule { sensor, command }),
    {
        Rule { sensor, command }
    }

    /// Resolve a batch of active sensors through an ordered rule set.
    ///
    /// Resolution is rule-major, sensor-minor: each rule in order is
    /// held against every active sensor, the first match appends its
    /// command, and every later match is suppressed because the single
    /// reaction category is then already represented. If nothing fires
    /// the output falls back to `MoveForward`, so the result is always
    /// exactly one command.
    pub fn compute_commands(rules: &[Rule], sensors: &[Sensor]) -> (r: Vec<Command>)
        ensures
            r@ == seq![resolved_command(rules@, sensors@)],
    {
        let mut commands: Vec<Command> = Vec::new();

        proof {
            assert(rules@.skip(0) =~= rules@);
        }
        let mut i: usize = 0;
        while i < rules.len()
            invariant
                0 <= i <= rules@.len(),
                commands@.len() <= 1,
                commands@.len() == 0 ==> first_firing(rules@, sensors@) == first_firing(
                    rules@.skip(i as int),
                    sensors@,
                ),
                commands@.len() == 1 ==> first_firing(rules@, sensors@) == Some(commands@[0]),
            decreases rules@.len() - i,
        {
            let rule = &rules[i];
            assert(rules@.skip(i as int)[0] == rules@[i as int]);

            let mut j: usize = 0;
            while j < sensors.len()
                invariant
                    0 <= i < rules@.len(),
                    0 <= j <= sensors@.len(),
                    *rule == rules@[i as int],
                    commands@.len() <= 1,
                    commands@.len() == 0 ==> first_firing(rules@, sensors@) == first_firing(
                        rules@.skip(i as int),
                        sensors@,
                    ),
                    commands@.len() == 0 ==> forall|k: int|
                        0 <= k < j ==> sensors@[k] != rule.sensor,
                    commands@.len() == 1 ==> first_firing(rules@, sensors@) == Some(commands@[0]),
                decreases sensors@.len() - j,
            {
                if rule.sensor == sensors[j] {
                    // Suppress the command if its category is already
                    // represented in the output; with the single current
                    // category that means any prior firing at all.
                    let category_already_represented = !commands.is_empty();
                    if !category_already_represented {
                        proof {
                            assert(sensors@.contains(rule.sensor)) by {
                                assert(sensors@[j as int] == rule.sensor);
                            }
                            assert(first_firing(rules@.skip(i as int), sensors@) == Some(
                                rule.command,
                            ));
                        }
                        commands.push(rule.command);
                    }
                }
                j += 1;
            }

            proof {
                if commands@.len() == 0 {
                    assert(!sensors@.contains(rule.sensor));
                    assert(rules@.skip(i as int).drop_first() =~= rules@.skip(i as int + 1));
                }
            }
            i += 1;
        }

        // If no rule fired, fall back to moving forward.
        if commands.is_empty() {
            proof {
                assert(rules@.skip(rules@.len() as int) =~= Seq::<Rule>::empty());
            }
            commands.push(Command::MoveForward);
        }

        assert(commands@ =~= seq![resolved_command(rules@, sensors@)]);
        commands
    }
}

/// Law: an empty rule set resolves every active sensor batch to the
/// default `MoveForward`.
pub proof fn lemma_empty_rules_default(active: Seq<Sensor>)
    ensures
        resolved_command(Seq::<Rule>::empty(), active) == Command::MoveForward,
{
}

/// Law: the first rule, in rule-set order, whose sensor is active wins
/// outright, whatever later rules would also match.
pub proof fn lemma_first_rule_wins(rules: Seq<Rule>, active: Seq<Sensor>)
    requires
        rules.len() > 0,
        active.contains(rules[0].sensor),
    ensures
        resolved_command(rules, active) == rules[0].command,
{
}

/// Law: when no rule's sensor occurs in the active batch, resolution
/// falls back to the default `MoveForward`.
pub proof fn lemma_no_match_default(rules: Seq<Rule>, active: Seq<Sensor>)
    requires
        forall|k: int| 0 <= k < rules.len() ==> !active.contains(rules[k].sensor),
    ensures
        resolved_command(rules, active) == Command::MoveForward,
    decreases rules.len(),
{
    if rules.len() > 0 {
        assert(!active.contains(rules[0].sensor));
        assert(forall|k: int|
            0 <= k < rules.drop_first().len() ==> rules.drop_first()[k] == rules[k + 1]);
        lemma_no_match_default(rules.drop_first(), active);
    }
}

} // verus!
