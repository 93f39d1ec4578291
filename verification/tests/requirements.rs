use rusty_d20::{
    admit_reaction, ensure_implement_equipped, find_action, reaction_options, save_admission,
    ActionDefinition, ActionLineOfEffectDefinition, ActionResource, ActionTargetTeamDefinition,
    D20ComponentKind, D20Id, D20SessionError, Entry, GameRuntimeError, ReactionDefinition,
};

fn id(text: &str) -> D20Id {
    D20Id::parse(text.to_owned()).unwrap()
}

fn action(name: &str) -> ActionDefinition {
    ActionDefinition {
        id: id(name),
        tags: vec![],
        activation_costs: vec![],
        team: ActionTargetTeamDefinition::Hostile,
        line_of_effect: ActionLineOfEffectDefinition::Required,
        range: 1,
        forced_movement: 0,
        effect: None,
    }
}

#[test]
fn actions_are_found_by_identity() {
    let actions = vec![action("strike"), action("shove")];
    assert_eq!(find_action(&actions, &id("shove")), Ok(1));
    assert_eq!(find_action(&actions, &id("fireball")), Err(D20SessionError::UnknownAction(id("fireball"))));
}

#[test]
fn implements_must_be_equipped() {
    assert_eq!(ensure_implement_equipped(7, &None, &None), Ok(()));
    assert_eq!(
        ensure_implement_equipped(7, &Some(id("focus-wand")), &None),
        Err(D20SessionError::MissingComponent { entity: 7, component: D20ComponentKind::Equipment })
    );
    assert_eq!(
        ensure_implement_equipped(7, &Some(id("focus-wand")), &Some(vec![id("oak-shield")])),
        Err(D20SessionError::RequiredImplementNotEquipped { entity: 7, implement: id("focus-wand") })
    );
    assert_eq!(
        ensure_implement_equipped(7, &Some(id("focus-wand")), &Some(vec![id("oak-shield"), id("focus-wand")])),
        Ok(())
    );
}

fn parry(cost: u16) -> ReactionDefinition {
    ReactionDefinition {
        id: id("parry"),
        defense: id("guard"),
        resource: id("focus"),
        cost,
        bonus: 2,
        effect: id("parrying"),
        activation_costs: vec![],
    }
}

#[test]
fn reactions_must_be_offered_and_paid() {
    let reactions = vec![parry(1)];
    let resources = vec![ActionResource { id: id("focus"), value: 2 }];
    let offered = reaction_options(&reactions, &id("guard"), &resources, &vec![]);
    assert_eq!(offered.len(), 1);
    assert_eq!(
        admit_reaction(&offered, &reactions, &id("parry"), &resources),
        Ok(vec![Entry { id: id("focus"), value: 1 }])
    );
    assert_eq!(
        admit_reaction(&offered, &reactions, &id("dodge"), &resources),
        Err(D20SessionError::ReactionUnavailable(id("dodge")))
    );
    assert_eq!(
        admit_reaction(&vec![], &reactions, &id("parry"), &resources),
        Err(D20SessionError::ReactionUnavailable(id("parry")))
    );
    let drained = vec![ActionResource { id: id("focus"), value: 0 }];
    assert_eq!(
        admit_reaction(&offered, &reactions, &id("parry"), &drained),
        Err(D20SessionError::ReactionUnavailable(id("parry")))
    );
}

#[test]
fn saves_wait_for_prompts_and_need_a_campaign() {
    assert_eq!(save_admission(true, true, true), Err(GameRuntimeError::ReactionPromptCannotBeSaved));
    assert_eq!(save_admission(false, false, true), Err(GameRuntimeError::NoEncounter));
    assert_eq!(save_admission(false, true, false), Err(GameRuntimeError::NoEncounter));
    assert_eq!(save_admission(false, true, true), Ok(()));
}
