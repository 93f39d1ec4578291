use rusty_d20::{
    action_is_spatially_legal, encounter_outcome, first_actor, forced_destination,
    initiative_order, next_activation, tactical_distance, target_team_allows,
    ActionLineOfEffectDefinition, ActionTargetTeamDefinition, ActivationAdvance,
    EncounterFaction, EncounterOutcome, GameRuntimeError, ParticipantStanding, StateProblem,
    TacticalBoardDefinition, TacticalPosition,
};

fn at(x: u16, y: u16) -> TacticalPosition {
    TacticalPosition { x, y }
}

fn standing(entity: u64, faction: EncounterFaction, initiative: i16, vitality: i64) -> ParticipantStanding {
    ParticipantStanding { entity, faction, initiative, vitality }
}

#[test]
fn distance_is_the_king_move_count() {
    assert_eq!(tactical_distance(at(0, 0), at(3, 1)), 3);
    assert_eq!(tactical_distance(at(5, 2), at(1, 7)), 5);
    assert_eq!(tactical_distance(at(4, 4), at(4, 4)), 0);
}

#[test]
fn spatial_legality_needs_range_and_line() {
    assert!(action_is_spatially_legal(at(0, 0), at(1, 1), 1, ActionLineOfEffectDefinition::Required, true));
    assert!(!action_is_spatially_legal(at(0, 0), at(2, 1), 1, ActionLineOfEffectDefinition::Ignored, true));
    assert!(!action_is_spatially_legal(at(0, 0), at(0, 0), 3, ActionLineOfEffectDefinition::Ignored, true));
    assert!(!action_is_spatially_legal(at(0, 0), at(3, 0), 6, ActionLineOfEffectDefinition::Required, false));
    assert!(action_is_spatially_legal(at(0, 0), at(3, 0), 6, ActionLineOfEffectDefinition::Ignored, false));
}

fn board() -> TacticalBoardDefinition {
    TacticalBoardDefinition {
        width: 6,
        height: 3,
        rows: vec![b"......".to_vec(), b"....#.".to_vec(), b"......".to_vec()],
    }
}

#[test]
fn forced_movement_stops_before_walls_occupants_and_edges() {
    assert_eq!(forced_destination(&board(), &Vec::new(), at(0, 1), at(1, 1), 2), at(3, 1));
    assert_eq!(forced_destination(&board(), &Vec::new(), at(0, 1), at(1, 1), 5), at(3, 1));
    assert_eq!(forced_destination(&board(), &vec![at(2, 0)], at(0, 0), at(1, 0), 3), at(1, 0));
    assert_eq!(forced_destination(&board(), &Vec::new(), at(2, 1), at(1, 1), 4), at(0, 1));
    assert_eq!(forced_destination(&board(), &Vec::new(), at(0, 0), at(1, 0), 0), at(1, 0));
}

#[test]
fn initiative_orders_by_score_then_entity() {
    let participants = vec![
        standing(30, EncounterFaction::Opposition, 12, 10),
        standing(10, EncounterFaction::Party, 14, 10),
        standing(20, EncounterFaction::Party, 12, 10),
    ];
    let order = initiative_order(&participants);
    let entities: Vec<u64> = order.iter().map(|p| p.entity).collect();
    assert_eq!(entities, vec![10, 20, 30]);
}

#[test]
fn outcome_follows_who_is_standing() {
    let fighting = vec![
        standing(10, EncounterFaction::Party, 14, 5),
        standing(30, EncounterFaction::Opposition, 12, 1),
    ];
    assert_eq!(encounter_outcome(&fighting), None);
    let won = vec![
        standing(10, EncounterFaction::Party, 14, 5),
        standing(30, EncounterFaction::Opposition, 12, 0),
    ];
    assert_eq!(encounter_outcome(&won), Some(EncounterOutcome::Victory));
    let lost = vec![
        standing(10, EncounterFaction::Party, 14, 0),
        standing(30, EncounterFaction::Opposition, 12, 3),
    ];
    assert_eq!(encounter_outcome(&lost), Some(EncounterOutcome::Defeat));
}

#[test]
fn activation_passes_to_the_next_living_participant() {
    let order = vec![
        standing(10, EncounterFaction::Party, 14, 5),
        standing(20, EncounterFaction::Party, 13, 0),
        standing(30, EncounterFaction::Opposition, 12, 4),
    ];
    assert_eq!(
        next_activation(&order, 10),
        Ok(ActivationAdvance { next_index: 2, next_actor: 30, wrapped: false })
    );
    assert_eq!(
        next_activation(&order, 30),
        Ok(ActivationAdvance { next_index: 0, next_actor: 10, wrapped: true })
    );
    assert_eq!(
        next_activation(&order, 99),
        Err(GameRuntimeError::InvalidState(StateProblem::CurrentActorNotInOrder))
    );
    let all_down = vec![standing(10, EncounterFaction::Party, 14, 0)];
    assert_eq!(
        next_activation(&all_down, 10),
        Err(GameRuntimeError::InvalidState(StateProblem::NoLivingParticipant))
    );
    assert_eq!(first_actor(&order), Ok(10));
    assert_eq!(first_actor(&all_down), Err(GameRuntimeError::InvalidState(StateProblem::NoLivingParticipant)));
}

#[test]
fn target_teams() {
    let party = EncounterFaction::Party;
    let opposition = EncounterFaction::Opposition;
    assert!(target_team_allows(ActionTargetTeamDefinition::Hostile, 1, party, 2, opposition));
    assert!(!target_team_allows(ActionTargetTeamDefinition::Hostile, 1, party, 2, party));
    assert!(target_team_allows(ActionTargetTeamDefinition::Ally, 1, party, 2, party));
    assert!(!target_team_allows(ActionTargetTeamDefinition::Ally, 1, party, 1, party));
    assert!(target_team_allows(ActionTargetTeamDefinition::SelfOnly, 1, party, 1, party));
    assert!(!target_team_allows(ActionTargetTeamDefinition::SelfOnly, 1, party, 2, party));
    assert!(target_team_allows(ActionTargetTeamDefinition::Any, 1, party, 2, opposition));
}
