use rusty_d20::{
    available_adventures, ensure_adventure_may_start, is_saved, select_adventure, snapshot_plan,
    AdventureListing, CampaignPhase, CommandProblem, D20Id, D20IdentityError, GameRuntimeError,
    NewAdventureRequestDto, SnapshotPlan, StaleRevision, StateProblem,
};

fn id(text: &str) -> D20Id {
    D20Id::parse(text.to_owned()).expect("valid identity")
}

fn listing(name: &str, selectable: bool) -> AdventureListing {
    AdventureListing {
        id: id(name),
        title: name.to_uppercase(),
        summary: format!("About {name}"),
        details: vec![format!("{name} detail")],
        selectable,
    }
}

fn catalog() -> Vec<AdventureListing> {
    vec![listing("wardens-gate", true), listing("sealed-vault", false), listing("embers-wake", true)]
}

fn request(revision: u64, adventure: &str) -> NewAdventureRequestDto {
    NewAdventureRequestDto { expected_revision: revision, adventure_id: adventure.to_owned() }
}

#[test]
fn only_selectable_adventures_are_offered() {
    let choices = available_adventures(&catalog());
    assert_eq!(choices.len(), 2);
    assert_eq!(choices[0].id, "wardens-gate");
    assert_eq!(choices[0].title, "WARDENS-GATE");
    assert_eq!(choices[0].summary, "About wardens-gate");
    assert_eq!(choices[0].details, vec!["wardens-gate detail".to_owned()]);
    assert_eq!(choices[1].id, "embers-wake");
}

#[test]
fn adventures_are_selected_by_identity() {
    assert_eq!(select_adventure(&request(3, "embers-wake"), 3, false, &catalog()), Ok(2));
    assert_eq!(select_adventure(&request(3, "wardens-gate"), 3, false, &catalog()), Ok(0));
}

#[test]
fn adventure_selection_refusals() {
    assert_eq!(
        select_adventure(&request(2, "embers-wake"), 3, false, &catalog()),
        Err(GameRuntimeError::StaleCommand(StaleRevision { expected: 2, current: 3 }))
    );
    assert_eq!(
        select_adventure(&request(3, "embers-wake"), 3, true, &catalog()),
        Err(GameRuntimeError::InvalidCommand(CommandProblem::AdventureAlreadyActive))
    );
    assert_eq!(
        select_adventure(&request(3, ""), 3, false, &catalog()),
        Err(GameRuntimeError::D20Identity(D20IdentityError::Empty))
    );
    assert_eq!(
        select_adventure(&request(3, "Embers Wake"), 3, false, &catalog()),
        Err(GameRuntimeError::D20Identity(D20IdentityError::InvalidCharacter {
            value: "Embers Wake".to_owned()
        }))
    );
    assert_eq!(
        select_adventure(&request(3, "lost-keep"), 3, false, &catalog()),
        Err(GameRuntimeError::InvalidCommand(CommandProblem::UnknownAdventure))
    );
    assert_eq!(
        select_adventure(&request(3, "sealed-vault"), 3, false, &catalog()),
        Err(GameRuntimeError::InvalidCommand(CommandProblem::AdventureNotSelectable))
    );
}

#[test]
fn starting_an_adventure_needs_room() {
    assert_eq!(ensure_adventure_may_start(0, 0, false, 1), Ok(()));
    assert_eq!(
        ensure_adventure_may_start(0, 0, true, 1),
        Err(GameRuntimeError::InvalidCommand(CommandProblem::AdventureAlreadyActive))
    );
    assert_eq!(ensure_adventure_may_start(0, 0, false, u64::MAX), Err(GameRuntimeError::CounterOverflow));
}

#[test]
fn snapshots_show_the_parts_of_the_phase() {
    assert_eq!(
        snapshot_plan(None, false),
        Ok(SnapshotPlan { campaign: false, encounter: false, exploration: false })
    );
    assert_eq!(
        snapshot_plan(Some(CampaignPhase::Camp), true),
        Ok(SnapshotPlan { campaign: true, encounter: false, exploration: false })
    );
    assert_eq!(
        snapshot_plan(Some(CampaignPhase::Exploration), true),
        Ok(SnapshotPlan { campaign: true, encounter: false, exploration: true })
    );
    assert_eq!(
        snapshot_plan(Some(CampaignPhase::Outcome), true),
        Ok(SnapshotPlan { campaign: true, encounter: true, exploration: true })
    );
    assert_eq!(
        snapshot_plan(Some(CampaignPhase::AdventureComplete), true),
        Ok(SnapshotPlan { campaign: true, encounter: false, exploration: false })
    );
    assert_eq!(
        snapshot_plan(Some(CampaignPhase::Camp), false),
        Err(GameRuntimeError::InvalidState(StateProblem::CampaignSessionDiverged))
    );
    assert_eq!(
        snapshot_plan(None, true),
        Err(GameRuntimeError::InvalidState(StateProblem::CampaignSessionDiverged))
    );
}

#[test]
fn saved_means_the_current_revision_was_written() {
    assert!(is_saved(Some(4), 4));
    assert!(!is_saved(Some(3), 4));
    assert!(!is_saved(None, 4));
}
