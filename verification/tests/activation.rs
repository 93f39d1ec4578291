use rusty_d20::{
    ensure_prompt_answer,
    faction_dto, project_moves, project_participant, target_candidates, CharacterDto,
    EncounterFactionDto, TacticalCellDto,
    admit_action_choice, admit_move, ended_activation_detail, ensure_party_command,
    ensure_selected_actor, expired_effects_detail, move_log, next_activation_log,
    target_team_verdict, ActionChoice, ActionDefinition, ActionLineOfEffectDefinition,
    ActionTargetTeamDefinition, CampaignPhase, CharacterTemplateDefinition,
    ChooseActionRequestDto, CommandProblem, D20Id, D20IdentityError, EncounterFaction, GameRuntimeError,
    MoveActorRequestDto, MoveChoice, ParticipantStanding, PartyCommand, PhaseRequirement,
    StaleRevision, StateProblem, TacticalPosition, TacticalRoute,
};

fn id(text: &str) -> D20Id {
    D20Id::parse(text.to_owned()).expect("valid identity")
}

fn at(x: u16, y: u16) -> TacticalPosition {
    TacticalPosition { x, y }
}

fn standing(entity: u64, faction: EncounterFaction, vitality: i64) -> ParticipantStanding {
    ParticipantStanding { entity, faction, initiative: 10, vitality }
}

fn order() -> Vec<ParticipantStanding> {
    vec![
        standing(11, EncounterFaction::Party, 8),
        standing(12, EncounterFaction::Party, 6),
        standing(21, EncounterFaction::Opposition, 5),
        standing(22, EncounterFaction::Opposition, 0),
    ]
}

fn template(name: &str, entity: u64, actions: &[&str]) -> CharacterTemplateDefinition {
    CharacterTemplateDefinition {
        id: id(name),
        entity_id: entity,
        name: name.to_owned(),
        vitality: 10,
        inventory_capacity: 4,
        abilities: vec![],
        actions: actions.iter().map(|action| id(action)).collect(),
    }
}

fn action(name: &str, team: ActionTargetTeamDefinition, range: u16) -> ActionDefinition {
    ActionDefinition {
        id: id(name),
        tags: vec![],
        activation_costs: vec![],
        team,
        line_of_effect: ActionLineOfEffectDefinition::Required,
        range,
        forced_movement: 0,
        effect: None,
    }
}

fn templates() -> Vec<CharacterTemplateDefinition> {
    vec![template("warden", 11, &["strike", "mend"]), template("goblin", 21, &["strike"])]
}

fn definitions() -> Vec<ActionDefinition> {
    vec![
        action("strike", ActionTargetTeamDefinition::Hostile, 1),
        action("mend", ActionTargetTeamDefinition::Ally, 3),
    ]
}

fn choice_request(actor: u64, target: u64, action: &str) -> ChooseActionRequestDto {
    ChooseActionRequestDto {
        expected_revision: 5,
        actor_id: actor,
        target_id: target,
        action_id: action.to_owned(),
    }
}

fn try_choice(request: &ChooseActionRequestDto, target: TacticalPosition, clear: bool) -> Result<ActionChoice, GameRuntimeError> {
    admit_action_choice(
        request,
        5,
        Some(CampaignPhase::Encounter),
        Some(11),
        &order(),
        9,
        9,
        false,
        &templates(),
        &definitions(),
        at(2, 2),
        target,
        clear,
    )
}

#[test]
fn party_guard_checks_in_order() {
    let party = || Ok((11, EncounterFaction::Party));
    assert_eq!(
        ensure_party_command(PartyCommand::Move, 5, 5, Some(CampaignPhase::Encounter), party(), 1, 1, false),
        Ok(11)
    );
    assert_eq!(
        ensure_party_command(PartyCommand::Move, 4, 5, None, party(), 1, 1, true),
        Err(GameRuntimeError::StaleCommand(StaleRevision { expected: 4, current: 5 }))
    );
    assert_eq!(
        ensure_party_command(PartyCommand::Move, 5, 5, Some(CampaignPhase::Camp), party(), 1, 1, false),
        Err(GameRuntimeError::WrongPhase(PhaseRequirement::Encounter))
    );
    assert_eq!(
        ensure_party_command(
            PartyCommand::Move,
            5,
            5,
            Some(CampaignPhase::Encounter),
            Ok((21, EncounterFaction::Opposition)),
            1,
            1,
            false
        ),
        Err(GameRuntimeError::WrongPhase(PhaseRequirement::PartyActivation))
    );
    assert_eq!(
        ensure_party_command(PartyCommand::ChooseAction, 5, 5, Some(CampaignPhase::Encounter), party(), 1, u64::MAX, false),
        Ok(11)
    );
    assert_eq!(
        ensure_party_command(PartyCommand::EndActivation, 5, 5, Some(CampaignPhase::Encounter), party(), 1, u64::MAX, false),
        Err(GameRuntimeError::CounterOverflow)
    );
    assert_eq!(
        ensure_party_command(PartyCommand::ChooseAction, 5, 5, Some(CampaignPhase::Encounter), party(), 1, 1, true),
        Err(GameRuntimeError::InvalidCommand(CommandProblem::PreviewUnresolved))
    );
    assert_eq!(
        ensure_party_command(PartyCommand::Move, 5, 5, Some(CampaignPhase::Encounter), party(), 1, 1, true),
        Err(GameRuntimeError::InvalidCommand(CommandProblem::PendingBeforeMove))
    );
    assert_eq!(
        ensure_party_command(PartyCommand::EndActivation, 5, 5, Some(CampaignPhase::Encounter), party(), 1, 1, true),
        Err(GameRuntimeError::InvalidCommand(CommandProblem::PendingActionUnresolved))
    );
}

#[test]
fn selected_actor_must_own_the_activation() {
    assert_eq!(ensure_selected_actor(11, 11), Ok(11));
    assert_eq!(
        ensure_selected_actor(0, 11),
        Err(GameRuntimeError::InvalidCommand(CommandProblem::ZeroEntity))
    );
    assert_eq!(
        ensure_selected_actor(12, 11),
        Err(GameRuntimeError::InvalidCommand(CommandProblem::NotCurrentActor))
    );
}

#[test]
fn target_team_verdicts() {
    let hostile = ActionTargetTeamDefinition::Hostile;
    assert_eq!(target_team_verdict(&order(), 11, 21, hostile), Ok(true));
    assert_eq!(target_team_verdict(&order(), 11, 12, hostile), Ok(false));
    assert_eq!(target_team_verdict(&order(), 11, 22, hostile), Ok(false));
    assert_eq!(target_team_verdict(&order(), 11, 12, ActionTargetTeamDefinition::Ally), Ok(true));
    assert_eq!(
        target_team_verdict(&order(), 11, 99, hostile),
        Err(GameRuntimeError::InvalidCommand(CommandProblem::TargetNotParticipant))
    );
    assert_eq!(
        target_team_verdict(&order(), 98, 21, hostile),
        Err(GameRuntimeError::InvalidState(StateProblem::CurrentActorNotParticipant))
    );
}

#[test]
fn action_choice_is_admitted() {
    assert_eq!(
        try_choice(&choice_request(11, 21, "strike"), at(3, 3), true),
        Ok(ActionChoice { actor: 11, target: 21, action: 0 })
    );
    assert_eq!(
        try_choice(&choice_request(11, 12, "mend"), at(4, 2), true),
        Ok(ActionChoice { actor: 11, target: 12, action: 1 })
    );
}

#[test]
fn action_choice_refusals() {
    assert_eq!(
        try_choice(&choice_request(0, 21, "strike"), at(3, 3), true),
        Err(GameRuntimeError::InvalidCommand(CommandProblem::ZeroEntity))
    );
    assert_eq!(
        try_choice(&choice_request(12, 21, "strike"), at(3, 3), true),
        Err(GameRuntimeError::InvalidCommand(CommandProblem::NotCurrentActor))
    );
    assert_eq!(
        try_choice(&choice_request(11, 21, "Strike!"), at(3, 3), true),
        Err(GameRuntimeError::D20Identity(D20IdentityError::InvalidCharacter {
            value: "Strike!".to_owned()
        }))
    );
    assert_eq!(
        try_choice(&choice_request(11, 21, "fireball"), at(3, 3), true),
        Err(GameRuntimeError::InvalidCommand(CommandProblem::ActionNotAvailable))
    );
    assert_eq!(
        try_choice(&choice_request(11, 12, "strike"), at(3, 3), true),
        Err(GameRuntimeError::InvalidCommand(CommandProblem::TargetTeamMismatch))
    );
    assert_eq!(
        try_choice(&choice_request(11, 21, "strike"), at(4, 4), true),
        Err(GameRuntimeError::InvalidCommand(CommandProblem::TargetOutOfReach))
    );
    assert_eq!(
        try_choice(&choice_request(11, 21, "strike"), at(3, 3), false),
        Err(GameRuntimeError::InvalidCommand(CommandProblem::TargetOutOfReach))
    );
}

fn routes() -> Vec<TacticalRoute> {
    vec![
        TacticalRoute { destination: at(2, 3), path: vec![at(2, 2), at(2, 3)] },
        TacticalRoute { destination: at(3, 4), path: vec![at(2, 2), at(2, 3), at(3, 4)] },
    ]
}

fn request_move(actor: u64, x: u16, y: u16) -> MoveActorRequestDto {
    MoveActorRequestDto { expected_revision: 5, actor_id: actor, x, y }
}

fn admit_move_to(request: &MoveActorRequestDto) -> Result<MoveChoice, GameRuntimeError> {
    admit_move(request, 5, Some(CampaignPhase::Encounter), Some(11), &order(), 3, 3, false, &routes())
}

#[test]
fn moves_follow_an_admitted_route() {
    assert_eq!(admit_move_to(&request_move(11, 3, 4)), Ok(MoveChoice { actor: 11, route: 1, cost: 2 }));
    assert_eq!(admit_move_to(&request_move(11, 2, 3)), Ok(MoveChoice { actor: 11, route: 0, cost: 1 }));
    assert_eq!(
        admit_move_to(&request_move(11, 7, 7)),
        Err(GameRuntimeError::InvalidCommand(CommandProblem::IllegalDestination))
    );
    assert_eq!(
        admit_move_to(&request_move(21, 2, 3)),
        Err(GameRuntimeError::InvalidCommand(CommandProblem::NotCurrentActor))
    );
}

#[test]
fn activation_log_lines() {
    let (headline, detail) = move_log(&"Warden".to_owned(), at(2, 2), at(3, 4), 2, &routes()[1].path);
    assert_eq!(headline, "Warden moved from (2, 2) to (3, 4).");
    assert_eq!(detail, "Engine pathfinding admitted a 2-square route: (2, 2) → (2, 3) → (3, 4).");
    assert_eq!(
        ended_activation_detail(&"Warden".to_owned()),
        "Warden ended the activation without spending another action."
    );
    assert_eq!(expired_effects_detail(2), "2 scheduled effect(s) expired at the round boundary.");
    assert_eq!(next_activation_log(&"Goblin".to_owned(), true), ("Round", "Goblin begins the next activation.".to_owned()));
    assert_eq!(next_activation_log(&"Goblin".to_owned(), false).0, "Initiative");
}

#[test]
fn moves_are_offered_per_route() {
    let moves = project_moves(&routes());
    assert_eq!(moves.len(), 2);
    assert_eq!((moves[1].x, moves[1].y, moves[1].cost), (3, 4, 2));
    assert_eq!(
        moves[1].route,
        vec![
            TacticalCellDto { x: 2, y: 2 },
            TacticalCellDto { x: 2, y: 3 },
            TacticalCellDto { x: 3, y: 4 },
        ]
    );
    assert_eq!(moves[0].cost, 1);
    assert!(project_moves(&vec![]).is_empty());
}

#[test]
fn targets_are_offered_only_to_the_party() {
    assert_eq!(target_candidates(&order(), Some(11)), Ok(vec![11, 12, 21]));
    assert_eq!(target_candidates(&order(), Some(21)), Ok(vec![]));
    assert_eq!(target_candidates(&order(), None), Ok(vec![]));
    assert_eq!(
        target_candidates(&order(), Some(77)),
        Err(GameRuntimeError::InvalidState(StateProblem::CurrentActorNotParticipant))
    );
}

fn character(id: u64) -> CharacterDto {
    CharacterDto {
        id,
        name: "Goblin".to_owned(),
        title: "Skirmisher".to_owned(),
        level: 1,
        experience: 0,
        health_current: 0,
        health_maximum: 7,
        abilities: vec![],
        defenses: vec![],
        resources: vec![],
        effects: vec![],
        features: vec![],
        actions: vec![],
        reactions: vec![],
        affinities: vec![],
    }
}

#[test]
fn participants_are_projected() {
    let dto = project_participant(order()[3], at(5, 1), character(22));
    assert_eq!(dto.faction, EncounterFactionDto::Opposition);
    assert!(dto.defeated);
    assert_eq!((dto.x, dto.y, dto.initiative), (5, 1, 10));
    assert_eq!(dto.character, character(22));
    assert_eq!(faction_dto(EncounterFaction::Party), EncounterFactionDto::Party);
}

#[test]
fn prompt_answers_must_name_the_waiting_prompt() {
    let waiting = Some("preview-7".to_owned());
    let token = "preview-7".to_owned();
    assert_eq!(ensure_prompt_answer(3, 3, Some(CampaignPhase::Encounter), 4, &waiting, &token), Ok(()));
    assert_eq!(
        ensure_prompt_answer(3, 3, Some(CampaignPhase::Encounter), 4, &waiting, &"preview-6".to_owned()),
        Err(GameRuntimeError::StalePrompt)
    );
    assert_eq!(
        ensure_prompt_answer(3, 3, Some(CampaignPhase::Encounter), 4, &None, &token),
        Err(GameRuntimeError::StalePrompt)
    );
    assert_eq!(
        ensure_prompt_answer(2, 3, Some(CampaignPhase::Encounter), 4, &waiting, &token),
        Err(GameRuntimeError::StaleCommand(StaleRevision { expected: 2, current: 3 }))
    );
    assert_eq!(
        ensure_prompt_answer(3, 3, Some(CampaignPhase::Camp), 4, &waiting, &token),
        Err(GameRuntimeError::WrongPhase(PhaseRequirement::Encounter))
    );
    assert_eq!(
        ensure_prompt_answer(3, 3, Some(CampaignPhase::Encounter), u64::MAX, &waiting, &token),
        Err(GameRuntimeError::CounterOverflow)
    );
    let api = GameRuntimeError::StalePrompt.api_error("stale".to_owned());
    assert!(api.retryable);
}
