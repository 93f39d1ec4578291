use rusty_d20::{
    plan_effect_landing, reschedule_landing, EffectLanding, validate_restored_session, AbilityDefinition, AbilityScore, ActionResource, ActiveEffectFact,
    D20ComponentKind, D20Id, D20Rules, D20SessionError, EffectDefinition, Entry,
    ParticipationProblem, ResourceDefinition, RestoredEntity, ScheduledEffect,
};

fn id(text: &str) -> D20Id {
    D20Id::parse(text.to_owned()).unwrap()
}

fn rules() -> D20Rules {
    D20Rules {
        abilities: vec![AbilityDefinition { id: id("finesse"), minimum: 1, maximum: 20 }],
        resources: vec![ResourceDefinition { id: id("focus"), maximum: 3 }],
        activation_budgets: vec![
            Entry { id: id("standard-action"), value: 1 },
            Entry { id: id("movement"), value: 6 },
        ],
        defenses: vec![],
        damage_types: vec![],
        effects: vec![EffectDefinition { id: id("marked"), duration_turns: 2, conditions: vec![] }],
        reactions: vec![],
    }
}

fn encounters() -> Vec<D20Id> {
    vec![id("iron-warden")]
}

fn hero(entity: u64) -> RestoredEntity {
    RestoredEntity {
        entity,
        abilities: Some(vec![AbilityScore { id: id("finesse"), value: 14 }]),
        resources: Some(vec![ActionResource { id: id("focus"), value: 2 }]),
        budgets: Some(vec![
            Entry { id: id("standard-action"), value: 0 },
            Entry { id: id("movement"), value: 6 },
        ]),
        schedule: Some(vec![ScheduledEffect {
            instance: id("e1"),
            definition: id("marked"),
            expires_at_turn: 4,
        }]),
        active: Some(vec![ActiveEffectFact { instance: id("e1"), definition: id("marked") }]),
        participation: Some(id("iron-warden")),
    }
}

fn check(entities: Vec<RestoredEntity>) -> Result<(), D20SessionError> {
    validate_restored_session(&rules(), &encounters(), &entities)
}

#[test]
fn a_consistent_session_is_admitted() {
    assert_eq!(check(vec![hero(101), hero(102)]), Ok(()));
    assert_eq!(check(vec![]), Ok(()));
}

#[test]
fn characters_need_every_companion_component() {
    let mut no_resources = hero(101);
    no_resources.resources = None;
    assert_eq!(
        check(vec![no_resources]),
        Err(D20SessionError::MissingComponent {
            entity: 101,
            component: D20ComponentKind::ActionResources
        })
    );
    let mut no_schedule = hero(101);
    no_schedule.schedule = None;
    assert_eq!(
        check(vec![no_schedule]),
        Err(D20SessionError::MissingComponent {
            entity: 101,
            component: D20ComponentKind::ScheduledEffects
        })
    );
    let mut no_active = hero(101);
    no_active.active = None;
    assert_eq!(
        check(vec![no_active]),
        Err(D20SessionError::MissingComponent { entity: 101, component: D20ComponentKind::ActiveEffects })
    );
    let mut no_budgets = hero(101);
    no_budgets.budgets = None;
    assert_eq!(
        check(vec![no_budgets]),
        Err(D20SessionError::MissingComponent {
            entity: 101,
            component: D20ComponentKind::ActivationBudgets
        })
    );
}

#[test]
fn character_budgets_and_facts_are_checked() {
    let mut over = hero(101);
    over.budgets = Some(vec![
        Entry { id: id("standard-action"), value: 2 },
        Entry { id: id("movement"), value: 6 },
    ]);
    assert_eq!(
        check(vec![over]),
        Err(D20SessionError::ActivationBudgetUnavailable {
            entity: 101,
            budget: id("standard-action"),
            required: 2,
            available: 1
        })
    );
    let mut weak = hero(101);
    weak.abilities = Some(vec![AbilityScore { id: id("finesse"), value: 0 }]);
    assert_eq!(
        check(vec![weak]),
        Err(D20SessionError::InvalidAbilityScore {
            entity: 101,
            ability: id("finesse"),
            score: 0,
            minimum: 1,
            maximum: 20
        })
    );
}

#[test]
fn characters_are_checked_before_strays_and_participations() {
    let mut stray = hero(100);
    stray.abilities = None;
    let mut broken = hero(102);
    broken.budgets = None;
    assert_eq!(
        check(vec![stray, broken]),
        Err(D20SessionError::MissingComponent {
            entity: 102,
            component: D20ComponentKind::ActivationBudgets
        })
    );
}

#[test]
fn resources_and_participation_need_character_facts() {
    let mut stray = hero(100);
    stray.abilities = None;
    assert_eq!(
        check(vec![hero(99), stray]),
        Err(D20SessionError::MissingComponent { entity: 100, component: D20ComponentKind::AbilityScores })
    );
    let bystander = RestoredEntity {
        entity: 7,
        abilities: None,
        resources: None,
        budgets: None,
        schedule: None,
        active: None,
        participation: Some(id("iron-warden")),
    };
    assert_eq!(
        check(vec![bystander]),
        Err(D20SessionError::InvalidEncounterParticipation(
            ParticipationProblem::WithoutCharacterFacts { entity: 7 }
        ))
    );
    let mut lost = hero(101);
    lost.participation = Some(id("sunken-crypt"));
    assert_eq!(
        check(vec![lost]),
        Err(D20SessionError::InvalidEncounterParticipation(
            ParticipationProblem::UnknownEncounter { entity: 101 }
        ))
    );
}

#[test]
fn scheduled_and_active_effects_must_agree() {
    let mut unknown = hero(101);
    unknown.schedule = Some(vec![ScheduledEffect {
        instance: id("e1"),
        definition: id("zz-forged"),
        expires_at_turn: 4,
    }]);
    assert_eq!(check(vec![unknown]), Err(D20SessionError::MissingEffectInstance(id("zz-forged"))));

    let mut lapsed = hero(101);
    lapsed.active = Some(vec![]);
    assert_eq!(check(vec![lapsed]), Err(D20SessionError::MissingEffectInstance(id("marked"))));

    let mut unscheduled = hero(101);
    unscheduled.active = Some(vec![
        ActiveEffectFact { instance: id("e1"), definition: id("marked") },
        ActiveEffectFact { instance: id("e2"), definition: id("marked") },
    ]);
    assert_eq!(
        check(vec![unscheduled]),
        Err(D20SessionError::UnscheduledActiveEffect { entity: 101, instance: id("e2") })
    );

    let mut mismatched = hero(101);
    mismatched.active = Some(vec![ActiveEffectFact { instance: id("e1"), definition: id("slowed") }]);
    assert_eq!(
        check(vec![mismatched]),
        Err(D20SessionError::UnscheduledActiveEffect { entity: 101, instance: id("e1") })
    );

    let schedule_only = RestoredEntity {
        entity: 8,
        abilities: None,
        resources: None,
        budgets: None,
        schedule: Some(vec![]),
        active: None,
        participation: None,
    };
    assert_eq!(
        check(vec![schedule_only]),
        Err(D20SessionError::MissingComponent { entity: 8, component: D20ComponentKind::AbilityScores })
    );
}

fn scheduled(instance: &str, definition: &str, expires_at_turn: u64) -> ScheduledEffect {
    ScheduledEffect { instance: id(instance), definition: id(definition), expires_at_turn }
}

#[test]
fn an_active_definition_is_refreshed_in_place() {
    let active = vec![
        ActiveEffectFact { instance: id("e1"), definition: id("slowed") },
        ActiveEffectFact { instance: id("e2"), definition: id("marked") },
    ];
    let landing = plan_effect_landing(&active, &id("marked"), id("e9"));
    assert_eq!(landing, EffectLanding::Refresh(id("e2")));
    let schedule = vec![scheduled("e2", "marked", 3), scheduled("e1", "slowed", 5)];
    assert_eq!(
        reschedule_landing(&schedule, &landing, &id("marked"), 7),
        vec![scheduled("e1", "slowed", 5), scheduled("e2", "marked", 7)]
    );
}

#[test]
fn a_new_definition_is_applied_as_the_proposed_instance() {
    let active = vec![ActiveEffectFact { instance: id("e1"), definition: id("slowed") }];
    let landing = plan_effect_landing(&active, &id("marked"), id("e9"));
    assert_eq!(landing, EffectLanding::Apply(id("e9")));
    let schedule = vec![scheduled("e1", "slowed", 5)];
    assert_eq!(
        reschedule_landing(&schedule, &landing, &id("marked"), 4),
        vec![scheduled("e1", "slowed", 5), scheduled("e9", "marked", 4)]
    );
    assert_eq!(plan_effect_landing(&vec![], &id("marked"), id("e3")), EffectLanding::Apply(id("e3")));
}
