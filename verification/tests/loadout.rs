use rusty_d20::{
    validate_item_containment,
    plan_reward_transfer, RewardTransfer,
    check_inventory_capacity, product_equipment_items, CapacityUsage,
    equipped_log, placed_headline, transferred_log, unequipped_log, PlacementTarget, PLACEMENT_DETAIL,
};
use rusty_d20::{
    same_entities, validate_product_listing, validate_rewards, ProductListing, RewardPlacement,
    participation_seeds, returning_opponents, CompletedEncounter,
    AdventureCompletionDefinition, EncounterOutcomeDefinition,
    character_entity, check_transfer, loadout_holder, nonzero_entity, owner_entity,
    party_member_name, plan_loadout_move, product_loadout_item, storage_entity,
    validate_campaign_vitality, AbilityScore, AdventureContent, AdventureDefinition,
    CampaignPhase, CampaignState, CharacterTemplateDefinition, CommandProblem,
    ContainmentProblem, D20Id, DungeonDefinition, DungeonFacingDefinition,
    EncounterDefinition, EncounterFaction, EncounterOutcome, EncounterParticipantDefinition,
    GameRuntimeError, ItemInstanceDefinition, LoadoutMove, ParticipationFact, SaveProblem,
    StateProblem, StorageDefinition, TacticalBoardDefinition, TacticalPosition, VitalityFact,
};

fn id(text: &str) -> D20Id {
    D20Id::parse(text.to_owned()).unwrap()
}

fn adventure() -> AdventureDefinition {
    AdventureDefinition {
        id: id("wardens-gate"),
        title: "The Warden's Gate".to_owned(),
        completion: AdventureCompletionDefinition {
            source: "Chronicle".to_owned(),
            victory_title: "The wall holds".to_owned(),
            defeat_title: "The wall falls".to_owned(),
            victory_text: "The warden yields.".to_owned(),
            defeat_text: "The party retreats.".to_owned(),
            details: vec!["Three encounters are recorded.".to_owned()],
        },
        characters: vec![id("hero"), id("scout"), id("warden")],
        party: vec![id("hero"), id("scout")],
        storage: vec![id("camp-stash")],
        items: vec![id("old-sword"), id("warden-plate")],
        encounters: vec![id("iron-warden")],
        camp_storage: id("camp-stash"),
        hero: id("hero"),
        dungeon: DungeonDefinition {
            title: "Gate".to_owned(),
            wall_style: "stone".to_owned(),
            width: 1,
            height: 1,
            rows: vec![b".".to_vec()],
            start_x: 0,
            start_y: 0,
            start_facing: DungeonFacingDefinition::North,
            start_checkpoint: id("gate"),
            landmarks: Vec::new(),
            encounters: Vec::new(),
            checkpoints: Vec::new(),
            doors: Vec::new(),
            treasures: Vec::new(),
        },
    }
}

fn character(name: &str, entity: u64, finesse: i16) -> CharacterTemplateDefinition {
    CharacterTemplateDefinition {
        id: id(name),
        entity_id: entity,
        name: name.to_uppercase(),
        vitality: 20,
        inventory_capacity: 8,
        abilities: vec![AbilityScore { id: id("finesse"), value: finesse }],
        actions: vec![],
    }
}

fn item(name: &str, entity: u64, owner: &str, slot: &str) -> ItemInstanceDefinition {
    ItemInstanceDefinition {
        id: id(name),
        entity_id: entity,
        owner: id(owner),
        name: name.to_owned(),
        equipped: true,
        slot: id(slot),
        equipment: id(&format!("{name}-equipment")),
    }
}

fn content() -> AdventureContent {
    AdventureContent {
        characters: vec![character("hero", 101, 14), character("scout", 102, 16), character("warden", 201, 12)],
        storages: vec![StorageDefinition {
            id: id("camp-stash"),
            entity_id: 301,
            name: "Camp stash".to_owned(),
            capacity: 20,
        }],
        items: vec![item("old-sword", 401, "hero", "main-hand"), item("warden-plate", 402, "warden", "body")],
        encounters: vec![EncounterDefinition {
            id: id("iron-warden"),
            title: "Iron Warden".to_owned(),
            summary: "A warden bars the way.".to_owned(),
            victory: EncounterOutcomeDefinition {
                title: "Victory".to_owned(),
                summary: "The way opens.".to_owned(),
                reward_label: Some("Warden plate".to_owned()),
            },
            defeat: EncounterOutcomeDefinition {
                title: "Defeat".to_owned(),
                summary: "The party falls back.".to_owned(),
                reward_label: None,
            },
            available_from_camp: true,
            roster: vec![
                EncounterParticipantDefinition { character: id("hero"), faction: EncounterFaction::Party, x: 0, y: 0 },
                EncounterParticipantDefinition { character: id("warden"), faction: EncounterFaction::Opposition, x: 2, y: 0 },
            ],
            reward_item: Some(id("warden-plate")),
            recovery_vitality: Some(5),
            board: TacticalBoardDefinition { width: 3, height: 1, rows: vec![b"...".to_vec()] },
        }],
    }
}

#[test]
fn content_lookups() {
    assert_eq!(character_entity(&content(), &adventure(), &id("scout")), Ok(102));
    assert_eq!(
        character_entity(&content(), &adventure(), &id("camp-stash")),
        Err(GameRuntimeError::InvalidState(StateProblem::MissingAdventureCharacter))
    );
    assert_eq!(storage_entity(&content(), &adventure(), &id("camp-stash")), Ok(301));
    assert_eq!(
        storage_entity(&content(), &adventure(), &id("hero")),
        Err(GameRuntimeError::InvalidState(StateProblem::StorageNotInAdventure))
    );
    assert_eq!(owner_entity(&content(), &adventure(), &id("camp-stash")), Ok(301));
    assert_eq!(owner_entity(&content(), &adventure(), &id("hero")), Ok(101));
    let mut no_template = content();
    no_template.characters.remove(1);
    assert_eq!(
        character_entity(&no_template, &adventure(), &id("scout")),
        Err(GameRuntimeError::InvalidState(StateProblem::MissingCharacterTemplate))
    );
    assert_eq!(product_loadout_item(&content(), &adventure(), 402), Ok(1));
    assert_eq!(
        product_loadout_item(&content(), &adventure(), 999),
        Err(GameRuntimeError::InvalidCommand(CommandProblem::NotAuthoredLoadoutItem))
    );
    assert_eq!(party_member_name(&content(), &adventure(), 102), Ok("SCOUT".to_owned()));
    assert_eq!(
        party_member_name(&content(), &adventure(), 201),
        Err(GameRuntimeError::InvalidContainment(ContainmentProblem::NotAPartyMember))
    );
    assert_eq!(nonzero_entity(0), Err(GameRuntimeError::InvalidCommand(CommandProblem::ZeroEntity)));
    assert_eq!(nonzero_entity(5), Ok(5));
}

fn plan(
    from: u64,
    to: u64,
    destination: Option<&str>,
    owner: Option<u64>,
    slot: Option<&str>,
) -> Result<LoadoutMove, GameRuntimeError> {
    plan_loadout_move(
        &content(),
        &adventure(),
        401,
        from,
        to,
        destination.map(str::to_owned),
        owner,
        slot.map(str::to_owned),
    )
}

#[test]
fn loadout_moves_are_planned_or_refused() {
    assert_eq!(
        plan(101, 102, Some("main-hand"), Some(101), Some("main-hand")),
        Ok(LoadoutMove { unequip: true, transfer: true, equip: true })
    );
    assert_eq!(
        plan(101, 301, None, Some(101), Some("main-hand")),
        Ok(LoadoutMove { unequip: true, transfer: true, equip: false })
    );
    assert_eq!(
        plan(101, 101, Some("main-hand"), Some(101), None),
        Ok(LoadoutMove { unequip: false, transfer: false, equip: true })
    );
    assert_eq!(
        plan(101, 102, Some("body"), Some(101), None),
        Err(GameRuntimeError::InvalidEquipmentSlot {
            requested: "body".to_owned(),
            required: "main-hand".to_owned()
        })
    );
    assert_eq!(
        plan(101, 201, None, Some(101), None),
        Err(GameRuntimeError::InvalidContainment(ContainmentProblem::PlacementOutsideParty))
    );
    assert_eq!(
        plan(101, 301, Some("main-hand"), Some(101), None),
        Err(GameRuntimeError::InvalidContainment(ContainmentProblem::OnlyPartyEquips))
    );
    assert_eq!(
        plan(101, 102, None, None, None),
        Err(GameRuntimeError::InvalidContainment(ContainmentProblem::NoCanonicalOwner))
    );
    assert_eq!(
        plan(101, 102, None, Some(102), None),
        Err(GameRuntimeError::InvalidContainment(ContainmentProblem::WrongSourceOwner))
    );
    assert_eq!(
        plan(101, 101, None, Some(101), None),
        Err(GameRuntimeError::InvalidContainment(ContainmentProblem::AlreadyThere))
    );
    assert_eq!(
        plan(101, 101, Some("main-hand"), Some(101), Some("main-hand")),
        Err(GameRuntimeError::InvalidEquipmentSlot {
            requested: "main-hand".to_owned(),
            required: "an empty destination or inventory".to_owned()
        })
    );
    assert_eq!(plan(0, 102, None, Some(101), None), Err(GameRuntimeError::InvalidCommand(CommandProblem::ZeroEntity)));
}

#[test]
fn transfers_and_holders() {
    assert_eq!(check_transfer(&content(), &adventure(), 401, 101, 301), Ok(()));
    assert_eq!(
        check_transfer(&content(), &adventure(), 401, 101, 101),
        Err(GameRuntimeError::InvalidContainment(ContainmentProblem::TransferOutsideParty))
    );
    assert_eq!(
        check_transfer(&content(), &adventure(), 401, 101, 201),
        Err(GameRuntimeError::InvalidContainment(ContainmentProblem::TransferOutsideParty))
    );
    assert_eq!(
        check_transfer(&content(), &adventure(), 999, 101, 301),
        Err(GameRuntimeError::InvalidCommand(CommandProblem::NotAuthoredLoadoutItem))
    );
    assert_eq!(
        loadout_holder(&content(), &adventure(), 401, Some("main-hand".to_owned()), Some(102)),
        Ok((102, "SCOUT".to_owned()))
    );
    assert_eq!(
        loadout_holder(&content(), &adventure(), 401, None, Some(301)),
        Err(GameRuntimeError::InvalidContainment(ContainmentProblem::NotAPartyMember))
    );
    assert_eq!(
        loadout_holder(&content(), &adventure(), 401, None, None),
        Err(GameRuntimeError::InvalidContainment(ContainmentProblem::NoCanonicalOwner))
    );
}

fn campaign(phase: CampaignPhase, actor: Option<u64>, outcome: Option<EncounterOutcome>) -> CampaignState {
    CampaignState {
        phase,
        active_encounter_id: Some("iron-warden".to_owned()),
        resolved_encounter_id: None,
        current_actor_id: actor,
        outcome,
        completed_encounters: Vec::new(),
        exploration: None,
    }
}

fn fact(entity: u64, faction: EncounterFaction, initiative: i16, x: u16) -> ParticipationFact {
    ParticipationFact {
        entity,
        encounter: id("iron-warden"),
        faction,
        initiative,
        position: TacticalPosition { x, y: 0 },
    }
}

fn vitality(hero: i64, scout: i64, warden: i64) -> Vec<VitalityFact> {
    vec![
        VitalityFact { entity: 101, vitality: hero },
        VitalityFact { entity: 102, vitality: scout },
        VitalityFact { entity: 201, vitality: warden },
    ]
}

fn roster() -> Vec<ParticipationFact> {
    vec![fact(101, EncounterFaction::Party, 14, 0), fact(201, EncounterFaction::Opposition, 12, 2)]
}

fn check(c: &CampaignState, table: &Vec<VitalityFact>, facts: &Vec<ParticipationFact>) -> Result<(), GameRuntimeError> {
    validate_campaign_vitality(&content(), &adventure(), c, &id("finesse"), table, facts)
}

#[test]
fn restored_vitality_agrees_with_the_phase() {
    let mut camp = campaign(CampaignPhase::Camp, None, None);
    camp.active_encounter_id = None;
    assert_eq!(check(&camp, &vitality(5, 0, 9), &Vec::new()), Ok(()));
    assert_eq!(
        check(&camp, &vitality(0, 0, 9), &Vec::new()),
        Err(GameRuntimeError::InvalidSave(SaveProblem::CampOrExplorationContradiction))
    );
    assert_eq!(
        check(&camp, &vitality(5, 0, 9), &roster()),
        Err(GameRuntimeError::InvalidSave(SaveProblem::CampOrExplorationContradiction))
    );
    assert_eq!(
        check(&camp, &vec![VitalityFact { entity: 101, vitality: 5 }], &Vec::new()),
        Err(GameRuntimeError::InvalidSave(SaveProblem::MissingVitality))
    );

    let fighting = campaign(CampaignPhase::Encounter, Some(101), None);
    assert_eq!(check(&fighting, &vitality(5, 0, 9), &roster()), Ok(()));
    assert_eq!(
        check(&fighting, &vitality(5, 0, 0), &roster()),
        Err(GameRuntimeError::InvalidSave(SaveProblem::PhaseContradictsFactions {
            party_alive: 1,
            opposition_alive: 0
        }))
    );
    let mut moved = roster();
    moved[1].position = TacticalPosition { x: 0, y: 0 };
    assert_eq!(
        check(&fighting, &vitality(5, 0, 9), &moved),
        Err(GameRuntimeError::InvalidSave(SaveProblem::PositionsInvalid))
    );
    let mut forged = roster();
    forged[1].initiative = 20;
    assert_eq!(
        check(&fighting, &vitality(5, 0, 9), &forged),
        Err(GameRuntimeError::InvalidSave(SaveProblem::RosterMismatch))
    );
    let outsider = campaign(CampaignPhase::Encounter, Some(102), None);
    assert_eq!(
        check(&outsider, &vitality(5, 7, 9), &roster()),
        Err(GameRuntimeError::InvalidSave(SaveProblem::PhaseContradictsFactions {
            party_alive: 1,
            opposition_alive: 1
        }))
    );

    let won = campaign(CampaignPhase::Outcome, None, Some(EncounterOutcome::Victory));
    assert_eq!(check(&won, &vitality(5, 0, 0), &roster()), Ok(()));
    let lost = campaign(CampaignPhase::Outcome, None, Some(EncounterOutcome::Defeat));
    assert_eq!(check(&lost, &vitality(0, 3, 9), &roster()), Ok(()));
    let mut without_finesse = content();
    without_finesse.characters[2].abilities.clear();
    assert_eq!(
        validate_campaign_vitality(&without_finesse, &adventure(), &won, &id("finesse"), &vitality(5, 0, 0), &roster()),
        Err(GameRuntimeError::InvalidSave(SaveProblem::MissingInitiative))
    );
}

#[test]
fn encounter_participation_and_returning_opponents() {
    let seeds = participation_seeds(&content(), &content().encounters[0].roster, &id("finesse")).unwrap();
    assert_eq!(seeds.len(), 2);
    assert_eq!(seeds[0].entity, 101);
    assert_eq!(seeds[0].initiative, 14);
    assert_eq!(seeds[1].entity, 201);
    assert_eq!(seeds[1].faction, EncounterFaction::Opposition);
    assert_eq!(seeds[1].position, TacticalPosition { x: 2, y: 0 });
    assert_eq!(
        participation_seeds(&content(), &content().encounters[0].roster, &id("might")),
        Err(GameRuntimeError::InvalidState(StateProblem::MissingInitiative))
    );
    let roster = &content().encounters[0].roster;
    assert_eq!(returning_opponents(&content(), &Vec::new(), roster), Ok(Vec::new()));
    let done = vec![CompletedEncounter {
        encounter_id: "iron-warden".to_owned(),
        outcome: EncounterOutcome::Victory,
    }];
    assert_eq!(returning_opponents(&content(), &done, roster), Ok(vec![1]));
    let unknown = vec![CompletedEncounter {
        encounter_id: "dragon".to_owned(),
        outcome: EncounterOutcome::Defeat,
    }];
    assert_eq!(
        returning_opponents(&content(), &unknown, roster),
        Err(GameRuntimeError::InvalidState(StateProblem::MissingEncounter))
    );
}

#[test]
fn restored_entity_sets_match_the_adventure() {
    let listing = ProductListing {
        total: 6,
        inventory_owners: vec![101, 102, 201, 301],
        items: vec![401, 402],
    };
    assert_eq!(validate_product_listing(&content(), &adventure(), &listing), Ok(()));
    let extra = ProductListing { total: 7, ..listing };
    assert_eq!(
        validate_product_listing(&content(), &adventure(), &extra),
        Err(GameRuntimeError::InvalidSave(SaveProblem::EntitySetInconsistent))
    );
    let unsorted = ProductListing {
        total: 6,
        inventory_owners: vec![102, 101, 201, 301],
        items: vec![401, 402],
    };
    assert_eq!(
        validate_product_listing(&content(), &adventure(), &unsorted),
        Err(GameRuntimeError::InvalidSave(SaveProblem::InventoryOwnersInconsistent))
    );
    let wrong_items = ProductListing {
        total: 6,
        inventory_owners: vec![101, 102, 201, 301],
        items: vec![401, 403],
    };
    assert_eq!(
        validate_product_listing(&content(), &adventure(), &wrong_items),
        Err(GameRuntimeError::InvalidSave(SaveProblem::ItemSetInconsistent))
    );
    assert!(same_entities(&vec![3, 1, 2], &vec![1, 2, 3]));
    assert!(!same_entities(&vec![3, 1, 2], &vec![1, 3, 2]));
    assert!(!same_entities(&vec![1, 1], &vec![1, 2]));
}

#[test]
fn rewards_follow_the_campaign_outcome() {
    let intact = vec![RewardPlacement { item: 402, container: Some(201), equipped_by_origin: Some(true) }];
    let claimed = vec![RewardPlacement { item: 402, container: Some(301), equipped_by_origin: Some(false) }];
    let victory = vec![CompletedEncounter {
        encounter_id: "iron-warden".to_owned(),
        outcome: EncounterOutcome::Victory,
    }];
    let defeat = vec![CompletedEncounter {
        encounter_id: "iron-warden".to_owned(),
        outcome: EncounterOutcome::Defeat,
    }];
    assert_eq!(validate_rewards(&content(), &adventure(), &Vec::new(), &intact), Ok(()));
    assert_eq!(validate_rewards(&content(), &adventure(), &defeat, &intact), Ok(()));
    assert_eq!(validate_rewards(&content(), &adventure(), &victory, &claimed), Ok(()));
    assert_eq!(
        validate_rewards(&content(), &adventure(), &victory, &intact),
        Err(GameRuntimeError::InvalidSave(SaveProblem::RewardInconsistent))
    );
    assert_eq!(
        validate_rewards(&content(), &adventure(), &Vec::new(), &claimed),
        Err(GameRuntimeError::InvalidSave(SaveProblem::RewardInconsistent))
    );
    assert_eq!(
        validate_rewards(&content(), &adventure(), &Vec::new(), &Vec::new()),
        Err(GameRuntimeError::InvalidSave(SaveProblem::MissingRewardEquipment))
    );
}

#[test]
fn loadout_log_lines() {
    assert_eq!(
        equipped_log(&id("oak-shield"), &"Iron Warden".to_owned(), &id("off-hand")),
        ("Equipped Oak Shield.".to_owned(), "Oak Shield now occupies Iron Warden's Off Hand slot.".to_owned())
    );
    assert_eq!(
        unequipped_log(&id("oak-shield"), &"Iron Warden".to_owned()),
        ("Unequipped Oak Shield.".to_owned(), "The item remains in Iron Warden's inventory.".to_owned())
    );
    assert_eq!(
        transferred_log(&id("oak-shield"), None, 900),
        ("Moved Oak Shield to the camp stash.".to_owned(), "Canonical containment now points to entity 900.".to_owned())
    );
    assert_eq!(
        transferred_log(&id("oak-shield"), Some("Iron Warden".to_owned()), 11).0,
        "Moved Oak Shield to Iron Warden's inventory."
    );
    assert_eq!(
        placed_headline(&"Oak Shield".to_owned(), &PlacementTarget::Slot { member: "Iron Warden".to_owned(), slot: id("off-hand") }),
        "Placed Oak Shield in Iron Warden's Off Hand slot."
    );
    assert_eq!(placed_headline(&"Oak Shield".to_owned(), &PlacementTarget::Stash), "Placed Oak Shield in the camp inventory.");
    assert_eq!(
        placed_headline(&"Oak Shield".to_owned(), &PlacementTarget::Pack { member: "Iron Warden".to_owned() }),
        "Placed Oak Shield in Iron Warden's pack."
    );
    assert_eq!(PLACEMENT_DETAIL, "The transfer and equipment services committed as one Rust-owned operation.");
}

#[test]
fn authored_items_are_seeded_with_their_holders() {
    let seeds = product_equipment_items(&content(), &adventure()).expect("all items resolve");
    assert_eq!(seeds.len(), 2);
    assert_eq!((seeds[0].entity, seeds[0].owner, seeds[0].name.as_str(), seeds[0].slot.as_str()), (401, 101, "old-sword", "main-hand"));
    assert_eq!((seeds[1].entity, seeds[1].owner), (402, 201));
    let mut missing = adventure();
    missing.items.push(id("lost-ring"));
    assert_eq!(
        product_equipment_items(&content(), &missing),
        Err(GameRuntimeError::InvalidState(StateProblem::MissingItemInstance))
    );
    let mut orphan = content();
    orphan.items[0].owner = id("stranger");
    assert_eq!(
        product_equipment_items(&orphan, &adventure()),
        Err(GameRuntimeError::InvalidState(StateProblem::StorageNotInAdventure))
    );
}

#[test]
fn restored_inventory_capacity_must_match() {
    let usages = vec![CapacityUsage { metric: "carried-items".to_owned(), used: 2, maximum: Some(8) }];
    assert_eq!(check_inventory_capacity(&usages, 8), Ok(()));
    assert_eq!(
        check_inventory_capacity(&usages, 9),
        Err(GameRuntimeError::InvalidSave(SaveProblem::InventoryCapacityInconsistent))
    );
    assert_eq!(
        check_inventory_capacity(&vec![], 8),
        Err(GameRuntimeError::InvalidSave(SaveProblem::InventoryCapacityMissing))
    );
}

#[test]
fn victory_rewards_move_to_the_stash() {
    let encounter = &content().encounters[0];
    assert_eq!(
        plan_reward_transfer(&content(), &adventure(), encounter, 7),
        Ok(RewardTransfer { item: 402, owner: 201, stash: 301, unequip_serial: 7, transfer_serial: 8, next_operation: 9 })
    );
    assert_eq!(
        plan_reward_transfer(&content(), &adventure(), encounter, 0),
        Err(GameRuntimeError::InvalidSave(SaveProblem::ZeroOperation))
    );
    assert_eq!(
        plan_reward_transfer(&content(), &adventure(), encounter, u64::MAX),
        Err(GameRuntimeError::CounterOverflow)
    );
    assert_eq!(
        plan_reward_transfer(&content(), &adventure(), encounter, u64::MAX - 1),
        Err(GameRuntimeError::CounterOverflow)
    );
    let mut plain = content();
    plain.encounters[0].reward_item = None;
    assert_eq!(
        plan_reward_transfer(&plain, &adventure(), &plain.encounters[0], 7),
        Err(GameRuntimeError::InvalidState(StateProblem::MissingVictoryReward))
    );
}

#[test]
fn authored_items_stay_in_adventure_inventories() {
    assert_eq!(validate_item_containment(&content(), &adventure(), &vec![Some(101), Some(301)]), Ok(()));
    assert_eq!(
        validate_item_containment(&content(), &adventure(), &vec![Some(101), None]),
        Err(GameRuntimeError::InvalidSave(SaveProblem::ItemContainmentInconsistent))
    );
    assert_eq!(
        validate_item_containment(&content(), &adventure(), &vec![Some(999), Some(101)]),
        Err(GameRuntimeError::InvalidSave(SaveProblem::ItemContainmentInconsistent))
    );
}
