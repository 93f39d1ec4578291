use rusty_d20::{
    ability_modifier, defense_score, ensure_activation_costs, ensure_turn_advances,
    reset_activation_budgets, resolve_attack, spend_activation_costs, split_due_effects,
    static_action_roll, static_choice_index, validate_character_seed, validate_restored_budgets,
    AbilityDefinition, AbilityScore, ActionResource, AttackRoll, CharacterSeed, D20Id,
    D20IdentityError, D20Rules, D20SessionError, DamageDefinition, DefenseDefinition, Entry,
    ResourceDefinition, RollSourceConfig, RollSourceProblem, ScheduledEffect, StaticActionRoll,
    MAX_D20_ID_BYTES, MAX_STATIC_ACTION_ROLLS,
};

fn id(text: &str) -> D20Id {
    D20Id::parse(text.to_owned()).unwrap()
}

#[test]
fn identity_parse_accepts_and_refuses() {
    assert_eq!(id("iron-warden").as_str(), "iron-warden");
    assert_eq!(D20Id::parse(String::new()), Err(D20IdentityError::Empty));
    assert_eq!(
        D20Id::parse("a".repeat(MAX_D20_ID_BYTES + 1)),
        Err(D20IdentityError::TooLong { actual: 65, maximum: 64 })
    );
    assert!(D20Id::parse("a".repeat(MAX_D20_ID_BYTES)).is_ok());
    assert_eq!(
        D20Id::parse("Iron Warden".to_owned()),
        Err(D20IdentityError::InvalidCharacter { value: "Iron Warden".to_owned() })
    );
    assert!(D20Id::parse("a.b_c-9".to_owned()).is_ok());
}

#[test]
fn ability_modifier_floors_toward_negative_infinity() {
    assert_eq!(ability_modifier(10), 0);
    assert_eq!(ability_modifier(11), 0);
    assert_eq!(ability_modifier(14), 2);
    assert_eq!(ability_modifier(9), -1);
    assert_eq!(ability_modifier(8), -1);
    assert_eq!(ability_modifier(7), -2);
    assert_eq!(ability_modifier(1), -5);
}

fn roll(d20: u8, damage: Vec<u16>) -> StaticActionRoll {
    StaticActionRoll { d20, damage }
}

#[test]
fn roll_source_validation_reports_the_first_problem() {
    assert_eq!(RollSourceConfig::seeded(7).validate(), Ok(()));
    assert_eq!(
        RollSourceConfig::static_rolls(Vec::new()),
        Err(D20SessionError::InvalidRollSource(RollSourceProblem::TapeLength))
    );
    let too_long: Vec<StaticActionRoll> = (0..MAX_STATIC_ACTION_ROLLS + 1).map(|_| roll(10, vec![1])).collect();
    assert_eq!(
        RollSourceConfig::static_rolls(too_long),
        Err(D20SessionError::InvalidRollSource(RollSourceProblem::TapeLength))
    );
    assert_eq!(
        RollSourceConfig::static_rolls(vec![roll(20, vec![]), roll(21, vec![])]),
        Err(D20SessionError::InvalidRollSource(RollSourceProblem::D20OutOfRange { index: 1, d20: 21 }))
    );
    assert_eq!(
        RollSourceConfig::static_rolls(vec![roll(5, vec![1; 17])]),
        Err(D20SessionError::InvalidRollSource(RollSourceProblem::TooManyDice { index: 0 }))
    );
    assert_eq!(
        RollSourceConfig::static_rolls(vec![roll(5, vec![3, 101])]),
        Err(D20SessionError::InvalidRollSource(RollSourceProblem::DamageOutOfRange {
            index: 0,
            result: 101
        }))
    );
    assert!(RollSourceConfig::static_rolls(vec![roll(1, vec![1, 100])]).is_ok());
}

#[test]
fn attack_resolution_adds_the_modifier_and_floors_damage() {
    assert_eq!(
        resolve_attack(12, 3, 15, &vec![4, 5], 2),
        Ok(AttackRoll { total: 15, hit: true, rolled_damage: 9, applied_damage: 11 })
    );
    assert_eq!(
        resolve_attack(11, 3, 15, &vec![4, 5], 2),
        Ok(AttackRoll { total: 14, hit: false, rolled_damage: 0, applied_damage: 2 })
    );
    assert_eq!(
        resolve_attack(20, 0, 10, &vec![1], -5),
        Ok(AttackRoll { total: 20, hit: true, rolled_damage: 1, applied_damage: 0 })
    );
}

#[test]
fn static_tape_rolls_and_choices() {
    let damage = DamageDefinition { dice: 2, sides: 6, bonus: 1, kind: id("slashing") };
    let tape = vec![roll(17, vec![3, 6]), roll(4, vec![7, 1])];
    assert_eq!(static_action_roll(&tape, 0, &damage), Ok((17, vec![3, 6])));
    assert_eq!(
        static_action_roll(&tape, 1, &damage),
        Err(D20SessionError::StaticRollMismatch { index: 1, expected_dice: 2, expected_sides: 6 })
    );
    assert_eq!(
        static_action_roll(&tape, 2, &damage),
        Err(D20SessionError::StaticRollsExhausted { index: 2, available: 2 })
    );
    assert_eq!(static_choice_index(&tape, 0, 3), Some(1));
    assert_eq!(static_choice_index(&tape, 1, 3), Some(0));
    assert_eq!(static_choice_index(&tape, 0, 0), None);
    assert_eq!(static_choice_index(&tape, 5, 3), None);
}

fn budgets(entries: &[(&str, u16)]) -> Vec<Entry<u16>> {
    entries.iter().map(|(name, value)| Entry { id: id(name), value: *value }).collect()
}

#[test]
fn activation_costs_are_paid_in_order() {
    let available = budgets(&[("standard-action", 1), ("movement", 6)]);
    let after = spend_activation_costs(&available, 7, &budgets(&[("movement", 2), ("movement", 3)]))
        .unwrap();
    assert_eq!(after, budgets(&[("standard-action", 1), ("movement", 1)]));
    assert_eq!(
        spend_activation_costs(&available, 7, &budgets(&[("movement", 4), ("movement", 3)])),
        Err(D20SessionError::ActivationBudgetUnavailable {
            entity: 7,
            budget: id("movement"),
            required: 3,
            available: 2
        })
    );
    assert_eq!(ensure_activation_costs(&available, 7, &budgets(&[("movement", 6)])), Ok(()));
    assert_eq!(
        ensure_activation_costs(&available, 7, &budgets(&[("bonus-action", 1)])),
        Err(D20SessionError::ActivationBudgetUnavailable {
            entity: 7,
            budget: id("bonus-action"),
            required: 1,
            available: 0
        })
    );
    assert_eq!(reset_activation_budgets(&available), available);
}

#[test]
fn restored_budgets_require_the_authored_set_and_bounds() {
    let authored = budgets(&[("standard-action", 1), ("bonus-action", 1), ("movement", 6)]);
    let canonical = budgets(&[("standard-action", 0), ("bonus-action", 1), ("movement", 4)]);
    assert_eq!(validate_restored_budgets(9, &authored, &canonical), Ok(()));

    let mut forged = budgets(&[("standard-action", 1), ("bonus-action", 1), ("movement", 6)]);
    forged.push(Entry { id: id("zz-forged-budget"), value: 1 });
    assert_eq!(
        validate_restored_budgets(9, &authored, &forged),
        Err(D20SessionError::ActivationBudgetUnavailable {
            entity: 9,
            budget: id("zz-forged-budget"),
            required: 1,
            available: 0
        })
    );
    let missing = budgets(&[("standard-action", 1), ("movement", 6)]);
    assert_eq!(
        validate_restored_budgets(9, &authored, &missing),
        Err(D20SessionError::ActivationBudgetUnavailable {
            entity: 9,
            budget: id("bonus-action"),
            required: 0,
            available: 0
        })
    );
    let none = budgets(&[]);
    assert_eq!(
        validate_restored_budgets(9, &authored, &none),
        Err(D20SessionError::ActivationBudgetUnavailable {
            entity: 9,
            budget: id("bonus-action"),
            required: 0,
            available: 0
        })
    );
    let above = budgets(&[("standard-action", 2), ("bonus-action", 1), ("movement", 6)]);
    assert_eq!(
        validate_restored_budgets(9, &authored, &above),
        Err(D20SessionError::ActivationBudgetUnavailable {
            entity: 9,
            budget: id("standard-action"),
            required: 2,
            available: 1
        })
    );
    let repeated = budgets(&[("movement", 1), ("movement", 1)]);
    assert_eq!(
        validate_restored_budgets(9, &authored, &repeated),
        Err(D20SessionError::ActivationBudgetUnavailable {
            entity: 9,
            budget: id("movement"),
            required: 1,
            available: 0
        })
    );
}

#[test]
fn turns_must_advance() {
    assert_eq!(ensure_turn_advances(3, 4), Ok(()));
    assert_eq!(
        ensure_turn_advances(4, 4),
        Err(D20SessionError::TurnMustAdvance { current: 4, requested: 4 })
    );
}

#[test]
fn due_effects_split_from_lasting_ones() {
    let schedule = vec![
        ScheduledEffect { instance: id("e1"), definition: id("held"), expires_at_turn: 3 },
        ScheduledEffect { instance: id("e2"), definition: id("marked"), expires_at_turn: 5 },
        ScheduledEffect { instance: id("e3"), definition: id("held"), expires_at_turn: 2 },
    ];
    let (due, lasting) = split_due_effects(&schedule, 3);
    assert_eq!(due, vec![id("e1"), id("e3")]);
    assert_eq!(
        lasting,
        vec![ScheduledEffect { instance: id("e2"), definition: id("marked"), expires_at_turn: 5 }]
    );
}

fn rules() -> D20Rules {
    D20Rules {
        abilities: vec![
            AbilityDefinition { id: id("finesse"), minimum: 1, maximum: 20 },
            AbilityDefinition { id: id("might"), minimum: 1, maximum: 20 },
        ],
        resources: vec![ResourceDefinition { id: id("focus"), maximum: 3 }],
        activation_budgets: budgets(&[("standard-action", 1)]),
        defenses: vec![],
        damage_types: vec![id("slashing")],
        effects: vec![],
        reactions: vec![],
    }
}

fn seed(finesse: i16, focus: u16) -> CharacterSeed {
    CharacterSeed {
        entity: 101,
        name: "Hero".to_owned(),
        vitality: 20,
        abilities: vec![
            AbilityScore { id: id("finesse"), value: finesse },
            AbilityScore { id: id("might"), value: 12 },
        ],
        resources: vec![ActionResource { id: id("focus"), value: focus }],
        affinities: vec![],
    }
}

#[test]
fn character_seeds_must_match_the_authored_ranges() {
    assert_eq!(validate_character_seed(&rules(), &seed(14, 2)), Ok(()));
    assert_eq!(
        validate_character_seed(&rules(), &seed(21, 2)),
        Err(D20SessionError::InvalidAbilityScore {
            entity: 101,
            ability: id("finesse"),
            score: 21,
            minimum: 1,
            maximum: 20
        })
    );
    assert_eq!(
        validate_character_seed(&rules(), &seed(14, 4)),
        Err(D20SessionError::InvalidResourceValue {
            entity: 101,
            resource: id("focus"),
            current: 4,
            maximum: 3
        })
    );
    let mut without_might = seed(14, 2);
    without_might.abilities.pop();
    assert_eq!(
        validate_character_seed(&rules(), &without_might),
        Err(D20SessionError::MissingAbility { entity: 101, ability: id("might") })
    );
}

#[test]
fn defense_uses_the_best_listed_ability() {
    let defense = DefenseDefinition { id: id("guard"), base: 10, abilities: vec![id("finesse"), id("might")] };
    let scores = vec![
        AbilityScore { id: id("finesse"), value: 14 },
        AbilityScore { id: id("might"), value: 16 },
    ];
    assert_eq!(defense_score(&defense, &scores), 13);
}
