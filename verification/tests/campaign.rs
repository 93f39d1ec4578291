use rusty_d20::{
    check_schema_five_fingerprint, check_schema_six_fingerprint, migrate_session_fingerprint,
    schema_one_campaign, validate_item_definitions, validate_legacy_campaign_save,
    validate_schema_five_campaign_save, validate_schema_four_campaign_save,
    validate_schema_six_campaign_save, LegacyCampaignPhase, LegacyCampaignSave, LegacyTurnOwner,
    SchemaFiveCampaignSave, SchemaFourCampaignSave, SchemaSixCampaignSave,
    LEGACY_D20G1_WARDEN_FINGERPRINT, NO_LEGACY_ENCOUNTER, SCHEMA_SIX_EMBER_FINGERPRINT,
    SCHEMA_SIX_WARDEN_FINGERPRINT,
    humanize, project_abilities, project_campaign, project_resources, ActionResource,
    CampaignPhaseDto, EncounterOutcomeKindDto, ResourceDefinition,
    AdventureCompletionDefinition, EncounterOutcomeDefinition,
    begin_campaign_exploration, begin_encounter, campaign_save, complete_campaign_encounter,
    current_encounter_definition, encounter_entry, explore, new_campaign,
    next_available_encounter_definition, return_campaign_to_camp, validate_campaign_save,
    AbilityScore, AdventureContent, AdventureDefinition, CampaignPhase, CampaignSave,
    CampaignState, CharacterTemplateDefinition, CommandProblem, CompletedEncounter, D20Id,
    DungeonCheckpointDefinition, DungeonDefinition, DungeonDoorDefinition,
    DungeonTreasureDefinition, validate_treasure_ownership, DungeonEncounterDefinition,
    DungeonFacingDefinition, DungeonLandmarkDefinition, DungeonPosition, EncounterDefinition,
    EncounterFaction, EncounterOutcome, EncounterParticipantDefinition,
    ExplorationCommandKindDto, ExplorationEvent, ExplorationState, GameRuntimeError,
    ItemInstanceDefinition, SaveProblem, StateProblem, StorageDefinition,
    TacticalBoardDefinition,
};

fn id(text: &str) -> D20Id {
    D20Id::parse(text.to_owned()).unwrap()
}

fn dungeon() -> DungeonDefinition {
    DungeonDefinition {
        title: "Warden's Gate".to_owned(),
        wall_style: "stone".to_owned(),
        width: 6,
        height: 3,
        rows: vec![b"######".to_vec(), b"#....#".to_vec(), b"######".to_vec()],
        start_x: 1,
        start_y: 1,
        start_facing: DungeonFacingDefinition::East,
        start_checkpoint: id("gate-camp"),
        landmarks: vec![DungeonLandmarkDefinition {
            id: id("old-sign"),
            x: 2,
            y: 1,
            title: "Old sign".to_owned(),
            text: "The sign points east.".to_owned(),
        }],
        encounters: vec![DungeonEncounterDefinition { encounter: id("iron-warden"), x: 4, y: 1 }],
        checkpoints: vec![DungeonCheckpointDefinition { id: id("gate-camp"), x: 1, y: 1 }],
        doors: vec![
            DungeonDoorDefinition { id: id("outer-gate"), requires: None },
            DungeonDoorDefinition { id: id("inner-sigil-gate"), requires: Some(id("sigil-cache")) },
        ],
        treasures: vec![DungeonTreasureDefinition { id: id("sigil-cache") }],
    }
}

fn adventure() -> AdventureDefinition {
    AdventureDefinition {
        id: id("wardens-gate"),
        title: "The Warden's Gate".to_owned(),
        completion: AdventureCompletionDefinition {
            source: "Chronicle".to_owned(),
            victory_title: "The wall holds".to_owned(),
            defeat_title: "The wall falls".to_owned(),
            victory_text: "The warden yields.".to_owned(),
            defeat_text: "The party retreats.".to_owned(),
            details: vec!["Three encounters are recorded.".to_owned()],
        },
        characters: vec![id("hero"), id("warden")],
        party: vec![id("hero")],
        storage: vec![id("camp-stash")],
        items: vec![id("old-sword")],
        encounters: vec![id("iron-warden"), id("seal-guard")],
        camp_storage: id("camp-stash"),
        hero: id("hero"),
        dungeon: dungeon(),
    }
}

fn board() -> TacticalBoardDefinition {
    TacticalBoardDefinition { width: 4, height: 1, rows: vec![b"....".to_vec()] }
}

fn character(name: &str, entity: u64, finesse: i16) -> CharacterTemplateDefinition {
    CharacterTemplateDefinition {
        id: id(name),
        entity_id: entity,
        name: name.to_uppercase(),
        vitality: 20,
        inventory_capacity: 8,
        abilities: vec![AbilityScore { id: id("finesse"), value: finesse }],
        actions: vec![],
    }
}

fn encounter(name: &str, from_camp: bool) -> EncounterDefinition {
    EncounterDefinition {
        id: id(name),
        title: name.to_uppercase(),
        summary: format!("{name} summary"),
        victory: EncounterOutcomeDefinition {
            title: "Victory".to_owned(),
            summary: "The way opens.".to_owned(),
            reward_label: Some("Warden plate".to_owned()),
        },
        defeat: EncounterOutcomeDefinition {
            title: "Defeat".to_owned(),
            summary: "The party falls back.".to_owned(),
            reward_label: None,
        },
        available_from_camp: from_camp,
        roster: vec![
            EncounterParticipantDefinition {
                character: id("hero"),
                faction: EncounterFaction::Party,
                x: 0,
                y: 0,
            },
            EncounterParticipantDefinition {
                character: id("warden"),
                faction: EncounterFaction::Opposition,
                x: 3,
                y: 0,
            },
        ],
        reward_item: None,
        recovery_vitality: Some(5),
        board: board(),
    }
}

fn content() -> AdventureContent {
    AdventureContent {
        characters: vec![character("hero", 101, 14), character("warden", 201, 12)],
        storages: vec![StorageDefinition {
            id: id("camp-stash"),
            entity_id: 301,
            name: "Camp stash".to_owned(),
            capacity: 20,
        }],
        items: vec![ItemInstanceDefinition {
            id: id("old-sword"),
            entity_id: 401,
            owner: id("hero"),
            name: "Old sword".to_owned(),
            equipped: true,
            slot: id("main-hand"),
            equipment: id("old-sword-equipment"),
        }],
        encounters: vec![encounter("iron-warden", true), encounter("seal-guard", true)],
    }
}

fn reopen(campaign: CampaignState) -> Result<CampaignState, GameRuntimeError> {
    let save = campaign_save(&id("wardens-gate"), campaign);
    validate_campaign_save(&adventure(), &id("wardens-gate"), save)
}

fn copy(campaign: &CampaignState) -> CampaignState {
    CampaignState {
        phase: campaign.phase,
        active_encounter_id: campaign.active_encounter_id.clone(),
        resolved_encounter_id: campaign.resolved_encounter_id.clone(),
        current_actor_id: campaign.current_actor_id,
        outcome: campaign.outcome,
        completed_encounters: campaign.completed_encounters.clone(),
        exploration: campaign.exploration.as_ref().map(|state| ExplorationState {
            position: state.position,
            facing: state.facing,
            discovered: state.discovered.clone(),
            inspected_landmarks: state.inspected_landmarks.clone(),
            checkpoint_id: state.checkpoint_id.clone(),
            opened_doors: state.opened_doors.clone(),
            collected_treasures: state.collected_treasures.clone(),
        }),
    }
}

fn enter(campaign: &mut CampaignState, name: &str) {
    encounter_entry(&content(), &adventure(), campaign, &id(name)).unwrap();
    begin_encounter(campaign, &id(name), 101);
}

#[test]
fn new_campaign_reopens_unchanged() {
    let campaign = new_campaign();
    assert_eq!(campaign.phase, CampaignPhase::Camp);
    let reopened = reopen(copy(&campaign)).unwrap();
    assert_eq!(reopened, campaign);
}

#[test]
fn ordered_campaign_reaches_completion_and_every_state_reopens() {
    let mut campaign = new_campaign();
    enter(&mut campaign, "iron-warden");
    assert_eq!(campaign.phase, CampaignPhase::Encounter);
    assert_eq!(campaign.active_encounter_id.as_deref(), Some("iron-warden"));
    assert_eq!(campaign.current_actor_id, Some(101));
    assert_eq!(reopen(copy(&campaign)).unwrap(), campaign);

    complete_campaign_encounter(&mut campaign, &id("iron-warden"), EncounterOutcome::Victory).unwrap();
    assert_eq!(campaign.phase, CampaignPhase::Outcome);
    assert_eq!(campaign.resolved_encounter_id.as_deref(), Some("iron-warden"));
    assert_eq!(campaign.outcome, Some(EncounterOutcome::Victory));
    assert_eq!(reopen(copy(&campaign)).unwrap(), campaign);

    let next = next_available_encounter_definition(&content(), &adventure(), &campaign.completed_encounters)
        .unwrap();
    assert_eq!(next, Some(1));
    let phase = return_campaign_to_camp(&dungeon(), &mut campaign, next.is_none()).unwrap();
    assert_eq!(phase, CampaignPhase::Camp);
    assert_eq!(campaign.active_encounter_id, None);
    assert_eq!(reopen(copy(&campaign)).unwrap(), campaign);

    enter(&mut campaign, "seal-guard");
    assert_eq!(reopen(copy(&campaign)).unwrap(), campaign);
    complete_campaign_encounter(&mut campaign, &id("seal-guard"), EncounterOutcome::Defeat).unwrap();
    let next = next_available_encounter_definition(&content(), &adventure(), &campaign.completed_encounters)
        .unwrap();
    assert_eq!(next, None);
    let phase = return_campaign_to_camp(&dungeon(), &mut campaign, true).unwrap();
    assert_eq!(phase, CampaignPhase::AdventureComplete);
    assert_eq!(campaign.completed_encounters.len(), 2);
    assert_eq!(reopen(copy(&campaign)).unwrap(), campaign);
}

#[test]
fn encounter_entry_refusals() {
    let campaign = new_campaign();
    assert_eq!(
        encounter_entry(&content(), &adventure(), &campaign, &id("dragon")),
        Err(GameRuntimeError::InvalidCommand(CommandProblem::UnknownEncounter))
    );
    assert_eq!(
        encounter_entry(&content(), &adventure(), &campaign, &id("seal-guard")),
        Err(GameRuntimeError::InvalidCommand(CommandProblem::NotNextEncounter))
    );
    let mut closed = content();
    closed.encounters[0].available_from_camp = false;
    assert_eq!(
        encounter_entry(&closed, &adventure(), &campaign, &id("iron-warden")),
        Err(GameRuntimeError::InvalidCommand(CommandProblem::EncounterNotAvailableFromCamp))
    );
    let mut running = new_campaign();
    enter(&mut running, "iron-warden");
    assert_eq!(
        encounter_entry(&content(), &adventure(), &running, &id("iron-warden")),
        Err(GameRuntimeError::InvalidCommand(CommandProblem::EncounterNotFromHere))
    );
    let mut finished = new_campaign();
    finished.completed_encounters = vec![
        CompletedEncounter { encounter_id: "iron-warden".to_owned(), outcome: EncounterOutcome::Victory },
        CompletedEncounter { encounter_id: "seal-guard".to_owned(), outcome: EncounterOutcome::Victory },
    ];
    assert_eq!(
        encounter_entry(&content(), &adventure(), &finished, &id("iron-warden")),
        Err(GameRuntimeError::InvalidCommand(CommandProblem::NoIncompleteEncounter))
    );
    let mut exploring = new_campaign();
    exploring.phase = CampaignPhase::Exploration;
    assert_eq!(
        encounter_entry(&content(), &adventure(), &exploring, &id("iron-warden")),
        Err(GameRuntimeError::InvalidState(StateProblem::MissingExploration))
    );
}

#[test]
fn exploration_reaches_the_trigger_and_enters_its_encounter() {
    let mut campaign = new_campaign();
    begin_campaign_exploration(&dungeon(), &mut campaign);
    assert_eq!(campaign.phase, CampaignPhase::Exploration);
    let state = campaign.exploration.as_ref().unwrap();
    assert_eq!(state.position, DungeonPosition { x: 1, y: 1 });
    assert_eq!(state.checkpoint_id, "gate-camp");
    assert_eq!(reopen(copy(&campaign)).unwrap(), campaign);

    assert_eq!(
        encounter_entry(&content(), &adventure(), &campaign, &id("iron-warden")),
        Err(GameRuntimeError::InvalidCommand(CommandProblem::EncounterNotTriggeredHere))
    );
    assert_eq!(
        explore(&dungeon(), &mut campaign, ExplorationCommandKindDto::StepForward),
        Ok(ExplorationEvent::Moved)
    );
    assert_eq!(
        explore(&dungeon(), &mut campaign, ExplorationCommandKindDto::Interact),
        Ok(ExplorationEvent::Inspected { landmark: 0 })
    );
    assert_eq!(
        explore(&dungeon(), &mut campaign, ExplorationCommandKindDto::StepForward),
        Ok(ExplorationEvent::Moved)
    );
    assert_eq!(
        explore(&dungeon(), &mut campaign, ExplorationCommandKindDto::StepForward),
        Ok(ExplorationEvent::EncounterTriggered { trigger: 0 })
    );
    assert_eq!(reopen(copy(&campaign)).unwrap(), campaign);
    assert_eq!(
        explore(&dungeon(), &mut campaign, ExplorationCommandKindDto::StepForward),
        Err(GameRuntimeError::InvalidCommand(CommandProblem::BlockedStep))
    );
    enter(&mut campaign, "iron-warden");
    assert_eq!(reopen(copy(&campaign)).unwrap(), campaign);

    complete_campaign_encounter(&mut campaign, &id("iron-warden"), EncounterOutcome::Victory).unwrap();
    let phase = return_campaign_to_camp(&dungeon(), &mut campaign, false).unwrap();
    assert_eq!(phase, CampaignPhase::Exploration);
    assert_eq!(campaign.exploration.as_ref().unwrap().position, DungeonPosition { x: 4, y: 1 });
    assert_eq!(reopen(copy(&campaign)).unwrap(), campaign);
}

#[test]
fn defeat_returns_the_party_to_its_checkpoint() {
    let mut campaign = new_campaign();
    begin_campaign_exploration(&dungeon(), &mut campaign);
    for _ in 0..3 {
        explore(&dungeon(), &mut campaign, ExplorationCommandKindDto::StepForward).unwrap();
    }
    explore(&dungeon(), &mut campaign, ExplorationCommandKindDto::TurnLeft).unwrap();
    enter(&mut campaign, "iron-warden");
    complete_campaign_encounter(&mut campaign, &id("iron-warden"), EncounterOutcome::Defeat).unwrap();
    let phase = return_campaign_to_camp(&dungeon(), &mut campaign, false).unwrap();
    assert_eq!(phase, CampaignPhase::Camp);
    let state = campaign.exploration.as_ref().unwrap();
    assert_eq!(state.position, DungeonPosition { x: 1, y: 1 });
    assert_eq!(state.facing, DungeonFacingDefinition::East);
    assert_eq!(reopen(copy(&campaign)).unwrap(), campaign);
}

#[test]
fn completing_twice_and_returning_without_outcome_are_refused() {
    let mut campaign = new_campaign();
    enter(&mut campaign, "iron-warden");
    assert_eq!(
        return_campaign_to_camp(&dungeon(), &mut campaign, false),
        Err(GameRuntimeError::InvalidState(StateProblem::MissingOutcome))
    );
    complete_campaign_encounter(&mut campaign, &id("iron-warden"), EncounterOutcome::Victory).unwrap();
    let before = copy(&campaign);
    assert_eq!(
        complete_campaign_encounter(&mut campaign, &id("iron-warden"), EncounterOutcome::Victory),
        Err(GameRuntimeError::InvalidState(StateProblem::EncounterAlreadyCompleted))
    );
    assert_eq!(campaign, before);
}

#[test]
fn missing_checkpoint_is_refused_without_change() {
    let mut campaign = new_campaign();
    begin_campaign_exploration(&dungeon(), &mut campaign);
    for _ in 0..3 {
        explore(&dungeon(), &mut campaign, ExplorationCommandKindDto::StepForward).unwrap();
    }
    enter(&mut campaign, "iron-warden");
    complete_campaign_encounter(&mut campaign, &id("iron-warden"), EncounterOutcome::Defeat).unwrap();
    campaign.exploration.as_mut().unwrap().checkpoint_id = "forged-checkpoint".to_owned();
    let before = copy(&campaign);
    assert_eq!(
        return_campaign_to_camp(&dungeon(), &mut campaign, false),
        Err(GameRuntimeError::InvalidState(StateProblem::MissingCheckpoint))
    );
    assert_eq!(campaign, before);
}

fn save_of(campaign: CampaignState, adventure_id: &str) -> CampaignSave {
    let mut save = campaign_save(&id("wardens-gate"), campaign);
    save.adventure_id = adventure_id.to_owned();
    save
}

#[test]
fn campaign_save_refusals() {
    let unknown = save_of(new_campaign(), "embers-wake");
    assert_eq!(
        validate_campaign_save(&adventure(), &id("wardens-gate"), unknown),
        Err(GameRuntimeError::InvalidSave(SaveProblem::UnknownAdventure))
    );

    let mut out_of_order = new_campaign();
    out_of_order.phase = CampaignPhase::Outcome;
    out_of_order.completed_encounters = vec![CompletedEncounter {
        encounter_id: "seal-guard".to_owned(),
        outcome: EncounterOutcome::Victory,
    }];
    assert_eq!(
        validate_campaign_save(&adventure(), &id("wardens-gate"), save_of(out_of_order, "wardens-gate")),
        Err(GameRuntimeError::InvalidSave(SaveProblem::CompletedNotAuthoredPrefix))
    );

    let mut forged_exploration = new_campaign();
    begin_campaign_exploration(&dungeon(), &mut forged_exploration);
    forged_exploration.exploration.as_mut().unwrap().inspected_landmarks = vec!["zz-forged".to_owned()];
    assert_eq!(
        validate_campaign_save(
            &adventure(),
            &id("wardens-gate"),
            save_of(forged_exploration, "wardens-gate")
        ),
        Err(GameRuntimeError::InvalidSave(SaveProblem::InvalidExploration))
    );

    let mut forged_terminal = new_campaign();
    begin_campaign_exploration(&dungeon(), &mut forged_terminal);
    forged_terminal.phase = CampaignPhase::AdventureComplete;
    assert_eq!(
        validate_campaign_save(&adventure(), &id("wardens-gate"), save_of(forged_terminal, "wardens-gate")),
        Err(GameRuntimeError::InvalidSave(SaveProblem::PhaseInconsistent))
    );

    let mut wall = new_campaign();
    begin_campaign_exploration(&dungeon(), &mut wall);
    wall.exploration.as_mut().unwrap().position = DungeonPosition { x: 0, y: 0 };
    assert_eq!(
        validate_campaign_save(&adventure(), &id("wardens-gate"), save_of(wall, "wardens-gate")),
        Err(GameRuntimeError::InvalidSave(SaveProblem::InvalidExploration))
    );
}

#[test]
fn current_encounter_follows_the_campaign() {
    let mut campaign = new_campaign();
    assert_eq!(current_encounter_definition(&content(), &adventure(), &campaign), Ok(0));
    campaign.resolved_encounter_id = Some("seal-guard".to_owned());
    assert_eq!(current_encounter_definition(&content(), &adventure(), &campaign), Ok(1));
    let mut empty = adventure();
    empty.encounters.clear();
    assert_eq!(
        current_encounter_definition(&content(), &empty, &new_campaign()),
        Err(GameRuntimeError::InvalidState(StateProblem::AdventureWithoutEncounter))
    );
    let mut missing = content();
    missing.encounters.clear();
    assert_eq!(
        current_encounter_definition(&missing, &adventure(), &new_campaign()),
        Err(GameRuntimeError::InvalidState(StateProblem::MissingEncounter))
    );
    let mut closed = content();
    closed.encounters[0].available_from_camp = false;
    assert_eq!(
        next_available_encounter_definition(&closed, &adventure(), &Vec::new()),
        Err(GameRuntimeError::InvalidState(StateProblem::NextEncounterNotFromCamp))
    );
}


#[test]
fn identities_read_as_capitalized_words() {
    assert_eq!(humanize(&id("iron-warden")), "Iron Warden");
    assert_eq!(humanize(&id("d20.effect.held")), "D20 Effect Held");
    assert_eq!(humanize(&id("--main--hand-")), "Main Hand");
    assert_eq!(humanize(&id("longsword")), "Longsword");
    assert_eq!(humanize(&id("9th_gate")), "9th_gate");
}

#[test]
fn character_readouts() {
    let abilities = project_abilities(&vec![
        AbilityScore { id: id("finesse"), value: 15 },
        AbilityScore { id: id("might"), value: 8 },
    ]);
    assert_eq!(abilities.len(), 2);
    assert_eq!(abilities[0].id, "finesse");
    assert_eq!(abilities[0].label, "Finesse");
    assert_eq!(abilities[0].modifier, 2);
    assert_eq!(abilities[1].modifier, -1);
    let definitions = vec![ResourceDefinition { id: id("focus-points"), maximum: 3 }];
    let resources = project_resources(&definitions, &vec![ActionResource { id: id("focus-points"), value: 2 }])
        .unwrap();
    assert_eq!(resources[0].label, "Focus Points");
    assert_eq!(resources[0].current, 2);
    assert_eq!(resources[0].maximum, 3);
    assert_eq!(
        project_resources(&definitions, &vec![ActionResource { id: id("grit"), value: 1 }]),
        Err(GameRuntimeError::InvalidState(StateProblem::MissingResourceDefinition))
    );
}

#[test]
fn campaign_readout_follows_the_campaign() {
    let mut campaign = new_campaign();
    let camp = project_campaign(&content(), &adventure(), &campaign, Vec::new()).unwrap();
    assert_eq!(camp.id, "wardens-gate");
    assert_eq!(camp.title, "The Warden's Gate");
    assert_eq!(camp.phase, CampaignPhaseDto::Camp);
    assert_eq!(camp.available_encounters.len(), 1);
    assert_eq!(camp.available_encounters[0].id, "iron-warden");
    assert_eq!(camp.available_encounters[0].title, "IRON-WARDEN");
    assert_eq!(camp.latest_outcome, None);
    assert_eq!(camp.completion, None);

    enter(&mut campaign, "iron-warden");
    complete_campaign_encounter(&mut campaign, &id("iron-warden"), EncounterOutcome::Victory).unwrap();
    let outcome = project_campaign(&content(), &adventure(), &campaign, Vec::new()).unwrap();
    assert_eq!(outcome.phase, CampaignPhaseDto::Outcome);
    assert!(outcome.available_encounters.is_empty());
    let latest = outcome.latest_outcome.unwrap();
    assert_eq!(latest.kind, EncounterOutcomeKindDto::Victory);
    assert_eq!(latest.encounter_id, "iron-warden");
    assert_eq!(latest.reward.as_deref(), Some("Warden plate"));
    assert_eq!(outcome.completed_encounters.len(), 1);
    assert_eq!(outcome.completed_encounters[0].title, "IRON-WARDEN");

    return_campaign_to_camp(&dungeon(), &mut campaign, false).unwrap();
    enter(&mut campaign, "seal-guard");
    complete_campaign_encounter(&mut campaign, &id("seal-guard"), EncounterOutcome::Defeat).unwrap();
    return_campaign_to_camp(&dungeon(), &mut campaign, true).unwrap();
    let finale = project_campaign(&content(), &adventure(), &campaign, Vec::new()).unwrap();
    assert_eq!(finale.phase, CampaignPhaseDto::AdventureComplete);
    let completion = finale.completion.unwrap();
    assert_eq!(completion.kind, EncounterOutcomeKindDto::Defeat);
    assert_eq!(completion.title, "The wall falls");
    assert_eq!(completion.details, vec!["Three encounters are recorded.".to_owned()]);

    let mut forged = new_campaign();
    forged.completed_encounters.push(CompletedEncounter {
        encounter_id: "dragon".to_owned(),
        outcome: EncounterOutcome::Victory,
    });
    assert_eq!(
        project_campaign(&content(), &adventure(), &forged, Vec::new()),
        Err(GameRuntimeError::InvalidState(StateProblem::MissingEncounter))
    );
}

fn explored_with(opened: &[&str], collected: &[&str]) -> CampaignState {
    let mut campaign = new_campaign();
    begin_campaign_exploration(&dungeon(), &mut campaign);
    let state = campaign.exploration.as_mut().unwrap();
    state.opened_doors = opened.iter().map(|name| name.to_string()).collect();
    state.collected_treasures = collected.iter().map(|name| name.to_string()).collect();
    campaign
}

#[test]
fn forged_doors_and_treasures_are_refused() {
    for forged in [
        explored_with(&["zz-forged-door"], &[]),
        explored_with(&[], &["zz-forged-treasure"]),
        explored_with(&["inner-sigil-gate"], &[]),
    ] {
        assert_eq!(
            validate_campaign_save(&adventure(), &id("wardens-gate"), save_of(forged, "wardens-gate")),
            Err(GameRuntimeError::InvalidSave(SaveProblem::InvalidExploration))
        );
    }
}

#[test]
fn authored_doors_and_treasures_reopen() {
    let open = explored_with(&["outer-gate", "inner-sigil-gate"], &["sigil-cache"]);
    let reopened = reopen(copy(&open)).unwrap();
    assert_eq!(reopened, open);
    let state = reopened.exploration.unwrap();
    assert_eq!(state.opened_doors, vec!["outer-gate".to_owned(), "inner-sigil-gate".to_owned()]);
    assert_eq!(state.collected_treasures, vec!["sigil-cache".to_owned()]);
}

#[test]
fn treasure_ownership_must_match_the_events() {
    let collected = vec!["sigil-cache".to_owned()];
    assert_eq!(validate_treasure_ownership(&dungeon(), &collected, &vec![true]), Ok(()));
    assert_eq!(validate_treasure_ownership(&dungeon(), &Vec::new(), &vec![false]), Ok(()));
    for (held, taken) in [(collected.clone(), vec![false]), (Vec::new(), vec![true]), (collected, vec![])] {
        assert_eq!(
            validate_treasure_ownership(&dungeon(), &held, &taken),
            Err(GameRuntimeError::InvalidSave(SaveProblem::TreasureOwnershipContradiction))
        );
    }
}

fn six(phase: CampaignPhase, active: Option<&str>, owner: Option<LegacyTurnOwner>) -> SchemaSixCampaignSave {
    SchemaSixCampaignSave {
        adventure_id: "wardens-gate".to_owned(),
        phase,
        active_encounter_id: active.map(|a| a.to_owned()),
        resolved_encounter_id: None,
        turn_owner: owner,
        outcome: None,
        completed_encounters: vec![],
    }
}

#[test]
fn schema_six_encounters_resume_where_the_dungeon_triggers_them() {
    let restored = validate_schema_six_campaign_save(
        &content(),
        &adventure(),
        &id("wardens-gate"),
        six(CampaignPhase::Encounter, Some("iron-warden"), Some(LegacyTurnOwner::Player)),
    )
    .unwrap();
    assert_eq!(restored.phase, CampaignPhase::Encounter);
    assert_eq!(restored.current_actor_id, Some(101));
    let exploration = restored.exploration.unwrap();
    assert_eq!(exploration.position, DungeonPosition { x: 4, y: 1 });
    assert_eq!(exploration.facing, DungeonFacingDefinition::East);
    assert_eq!(
        exploration.discovered,
        vec![DungeonPosition { x: 1, y: 1 }, DungeonPosition { x: 4, y: 1 }]
    );
    assert_eq!(exploration.checkpoint_id, "gate-camp");
    assert!(exploration.inspected_landmarks.is_empty());

    let opposed = validate_schema_six_campaign_save(
        &content(),
        &adventure(),
        &id("wardens-gate"),
        six(CampaignPhase::Encounter, Some("iron-warden"), Some(LegacyTurnOwner::Opposition)),
    )
    .unwrap();
    assert_eq!(opposed.current_actor_id, Some(201));

    let camp = validate_schema_six_campaign_save(
        &content(),
        &adventure(),
        &id("wardens-gate"),
        six(CampaignPhase::Camp, None, None),
    )
    .unwrap();
    assert_eq!(camp, new_campaign());
}

#[test]
fn legacy_turn_owners_must_name_a_participant() {
    assert_eq!(
        validate_schema_six_campaign_save(
            &content(),
            &adventure(),
            &id("wardens-gate"),
            six(CampaignPhase::Camp, None, Some(LegacyTurnOwner::Opposition)),
        ),
        Err(GameRuntimeError::InvalidSave(SaveProblem::LegacyTurnOwnerUnresolved))
    );
    assert_eq!(
        validate_schema_six_campaign_save(
            &content(),
            &adventure(),
            &id("wardens-gate"),
            six(CampaignPhase::Camp, None, Some(LegacyTurnOwner::Player)),
        ),
        Err(GameRuntimeError::InvalidSave(SaveProblem::PhaseInconsistent))
    );
}

fn five(resolved: Option<&str>, outcome: Option<EncounterOutcome>) -> SchemaFiveCampaignSave {
    SchemaFiveCampaignSave {
        adventure_id: "wardens-gate".to_owned(),
        phase: CampaignPhase::Outcome,
        active_encounter_id: Some("iron-warden".to_owned()),
        resolved_encounter_id: resolved.map(|r| r.to_owned()),
        turn_owner: None,
        outcome,
    }
}

#[test]
fn schema_five_resolutions_become_one_completion() {
    let restored = validate_schema_five_campaign_save(
        &content(),
        &adventure(),
        &id("wardens-gate"),
        five(Some("iron-warden"), Some(EncounterOutcome::Victory)),
    )
    .unwrap();
    assert_eq!(
        restored.completed_encounters,
        vec![CompletedEncounter { encounter_id: "iron-warden".to_owned(), outcome: EncounterOutcome::Victory }]
    );
    assert_eq!(restored.exploration, None);
    for (resolved, outcome) in [(Some("iron-warden"), None), (None, Some(EncounterOutcome::Defeat))] {
        assert_eq!(
            validate_schema_five_campaign_save(&content(), &adventure(), &id("wardens-gate"), five(resolved, outcome)),
            Err(GameRuntimeError::InvalidSave(SaveProblem::SchemaFiveResolvedInconsistent))
        );
    }
}

#[test]
fn schema_four_outcomes_resolve_the_active_or_first_encounter() {
    let camp = SchemaFourCampaignSave {
        adventure_id: "wardens-gate".to_owned(),
        phase: CampaignPhase::Camp,
        active_encounter_id: None,
        turn_owner: None,
        outcome: Some(EncounterOutcome::Defeat),
    };
    let restored = validate_schema_four_campaign_save(&content(), &adventure(), &id("wardens-gate"), camp).unwrap();
    assert_eq!(restored.resolved_encounter_id, Some("iron-warden".to_owned()));
    assert_eq!(
        restored.completed_encounters,
        vec![CompletedEncounter { encounter_id: "iron-warden".to_owned(), outcome: EncounterOutcome::Defeat }]
    );
    let fighting = SchemaFourCampaignSave {
        adventure_id: "wardens-gate".to_owned(),
        phase: CampaignPhase::Encounter,
        active_encounter_id: Some("iron-warden".to_owned()),
        turn_owner: Some(LegacyTurnOwner::Player),
        outcome: None,
    };
    let restored = validate_schema_four_campaign_save(&content(), &adventure(), &id("wardens-gate"), fighting).unwrap();
    assert_eq!(restored.resolved_encounter_id, None);
    assert_eq!(restored.current_actor_id, Some(101));
}

#[test]
fn schema_two_and_one_saves_resume_the_first_encounter() {
    let encounter = LegacyCampaignSave {
        adventure_id: "wardens-gate".to_owned(),
        phase: LegacyCampaignPhase::Encounter,
        active_encounter_id: Some("iron-warden".to_owned()),
    };
    let restored = validate_legacy_campaign_save(&content(), &adventure(), &id("wardens-gate"), encounter).unwrap();
    assert_eq!(restored.phase, CampaignPhase::Encounter);
    assert_eq!(restored.current_actor_id, Some(101));
    let camp = LegacyCampaignSave {
        adventure_id: "wardens-gate".to_owned(),
        phase: LegacyCampaignPhase::Camp,
        active_encounter_id: None,
    };
    assert_eq!(
        validate_legacy_campaign_save(&content(), &adventure(), &id("wardens-gate"), camp),
        Ok(new_campaign())
    );
    let first = schema_one_campaign(&content(), &adventure()).unwrap();
    assert_eq!(first.active_encounter_id, Some("iron-warden".to_owned()));
    assert_eq!(first.current_actor_id, Some(101));
    assert_eq!(first.phase, CampaignPhase::Encounter);
    let mut bare = adventure();
    bare.encounters = vec![];
    assert_eq!(
        schema_one_campaign(&content(), &bare),
        Err(GameRuntimeError::Catalog(NO_LEGACY_ENCOUNTER.to_owned()))
    );
}

#[test]
fn legacy_fingerprints_are_checked_and_migrated() {
    assert_eq!(
        check_schema_six_fingerprint(&id("wardens-gate"), SCHEMA_SIX_WARDEN_FINGERPRINT.to_owned()),
        Ok(SCHEMA_SIX_WARDEN_FINGERPRINT.to_owned())
    );
    assert_eq!(
        check_schema_six_fingerprint(&id("embers-wake"), "other".to_owned()),
        Err(GameRuntimeError::CompositionFingerprintMismatch {
            expected: SCHEMA_SIX_EMBER_FINGERPRINT.to_owned(),
            actual: "other".to_owned()
        })
    );
    assert_eq!(
        check_schema_six_fingerprint(&id("sunken-crypt"), "other".to_owned()),
        Err(GameRuntimeError::InvalidSave(SaveProblem::NoSchemaSixMigration))
    );
    let current = "current".to_owned();
    assert_eq!(check_schema_five_fingerprint(&id("wardens-gate"), &current, "current".to_owned()), Ok(None));
    assert_eq!(
        check_schema_five_fingerprint(&id("wardens-gate"), &current, LEGACY_D20G1_WARDEN_FINGERPRINT.to_owned()),
        Ok(Some(LEGACY_D20G1_WARDEN_FINGERPRINT.to_owned()))
    );
    assert_eq!(
        check_schema_five_fingerprint(&id("embers-wake"), &current, LEGACY_D20G1_WARDEN_FINGERPRINT.to_owned()),
        Err(GameRuntimeError::CompositionFingerprintMismatch {
            expected: "current".to_owned(),
            actual: LEGACY_D20G1_WARDEN_FINGERPRINT.to_owned()
        })
    );
    let legacy = "legacy".to_owned();
    assert_eq!(migrate_session_fingerprint(Some("legacy".to_owned()), &legacy, &current), Ok("current".to_owned()));
    assert_eq!(
        migrate_session_fingerprint(None, &legacy, &current),
        Err(GameRuntimeError::InvalidSave(SaveProblem::LegacySessionFingerprintMissing))
    );
    assert_eq!(
        migrate_session_fingerprint(Some("stale".to_owned()), &legacy, &current),
        Err(GameRuntimeError::CompositionFingerprintMismatch {
            expected: "legacy".to_owned(),
            actual: "stale".to_owned()
        })
    );
}

#[test]
fn restored_items_must_carry_their_authored_equipment() {
    assert_eq!(validate_item_definitions(&content(), &adventure(), &vec![id("old-sword-equipment")]), Ok(()));
    for forged in [vec![id("warden-plate")], vec![], vec![id("old-sword-equipment"), id("old-sword-equipment")]] {
        assert_eq!(
            validate_item_definitions(&content(), &adventure(), &forged),
            Err(GameRuntimeError::InvalidSave(SaveProblem::ItemDefinitionInconsistent))
        );
    }
}
