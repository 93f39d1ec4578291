use rusty_d20::{
    activation_labels, damage_label, effect_labels, project_action, project_affinities,
    ActionDefinition, ActionLineOfEffectDefinition, ActionTargetTeamDefinition, AffinitySeed,
    D20Id, DamageAffinity, DamageDefinition, Entry, GameRuntimeError, ScheduledEffect,
    StateProblem,
};

fn id(text: &str) -> D20Id {
    D20Id::parse(text.to_owned()).expect("valid identity")
}

fn damage(dice: u8, sides: u16, bonus: i16) -> DamageDefinition {
    DamageDefinition { dice, sides, bonus, kind: id("slashing") }
}

#[test]
fn damage_rolls_are_labelled_with_a_signed_bonus() {
    assert_eq!(damage_label(&damage(2, 6, 1)), "2d6+1 Slashing");
    assert_eq!(damage_label(&damage(1, 8, 0)), "1d8+0 Slashing");
    assert_eq!(damage_label(&damage(1, 4, -1)), "1d4-1 Slashing");
}

#[test]
fn activation_costs_are_labelled() {
    let costs = vec![
        Entry { id: id("standard-action"), value: 1 },
        Entry { id: id("movement"), value: 2 },
    ];
    assert_eq!(activation_labels(&costs), vec!["1 Standard Action".to_owned(), "2 Movement".to_owned()]);
}

#[test]
fn actions_are_projected() {
    let action = ActionDefinition {
        id: id("cleave"),
        tags: vec![id("melee"), id("weapon")],
        activation_costs: vec![Entry { id: id("standard"), value: 1 }],
        team: ActionTargetTeamDefinition::Hostile,
        line_of_effect: ActionLineOfEffectDefinition::Required,
        range: 1,
        forced_movement: 1,
        effect: Some(id("dazed")),
    };
    let dto = project_action(
        &action,
        &id("might"),
        &id("guard"),
        &damage(1, 10, 2),
        Some(&id("great-axe")),
        "1 Hostile Creature · line of effect Required".to_owned(),
    );
    assert_eq!(dto.id, "cleave");
    assert_eq!(dto.label, "Cleave");
    assert_eq!(dto.ability, "Might");
    assert_eq!(dto.defense, "Guard");
    assert_eq!(dto.damage, "1d10+2 Slashing");
    assert_eq!(dto.activation, vec!["1 Standard".to_owned()]);
    assert_eq!(dto.target, "1 Hostile Creature · line of effect Required");
    assert_eq!(dto.range, 1);
    assert_eq!(dto.implement, Some("Great Axe".to_owned()));
    assert_eq!(dto.tags, vec!["Melee".to_owned(), "Weapon".to_owned()]);
    assert_eq!(dto.effect, Some("Dazed".to_owned()));
    assert_eq!(dto.forced_movement, 1);
}

#[test]
fn effects_are_labelled_when_schedules_agree() {
    let effects = vec![
        ScheduledEffect { instance: id("e-1"), definition: id("held"), expires_at_turn: 3 },
        ScheduledEffect { instance: id("e-2"), definition: id("shield-wall"), expires_at_turn: 12 },
    ];
    assert_eq!(
        effect_labels(&effects, 2),
        Ok(vec!["Held · through turn 3".to_owned(), "Shield Wall · through turn 12".to_owned()])
    );
    assert_eq!(
        effect_labels(&effects, 1),
        Err(GameRuntimeError::InvalidState(StateProblem::EffectsDiverged))
    );
    assert_eq!(effect_labels(&vec![], 0), Ok(vec![]));
}

#[test]
fn affinities_are_projected() {
    let readouts = project_affinities(&vec![
        AffinitySeed { damage_type: id("fire"), affinity: DamageAffinity::Resistant },
        AffinitySeed { damage_type: id("cold-iron"), affinity: DamageAffinity::Vulnerable },
    ]);
    assert_eq!(readouts.len(), 2);
    assert_eq!(readouts[0].damage_type, "fire");
    assert_eq!(readouts[0].label, "Fire");
    assert_eq!(readouts[0].affinity, "resistant");
    assert_eq!(readouts[1].label, "Cold Iron");
    assert_eq!(readouts[1].affinity, "vulnerable");
}
