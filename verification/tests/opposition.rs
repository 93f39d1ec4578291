use rusty_d20::{
    http_status,
    check_reset, ApiErrorKindDto, ResetSessionRequestDto, SaveStaleness, SaveStatusDto,
    choice_upper, chosen_index, current_actor_of, ensure_current_faction,
    ensure_opposition_may_act, forbidden_movement_detail, is_unavailable_action_error,
    movement_detail, opposition_step, opposition_targets, pass_detail, policy_detail, prepares,
    route_cost, save_status_of, settle_refusal, settle_step, CampaignPhase, CommandProblem,
    D20Id, D20SessionError, EncounterFaction, GameRuntimeError, OppositionStep,
    ParticipantStanding, PhaseRequirement, SaveStateDto, SettleStep, StateProblem,
    TacticalPosition,
};

fn id(text: &str) -> D20Id {
    D20Id::parse(text.to_owned()).expect("valid identity")
}

fn standing(entity: u64, faction: EncounterFaction, vitality: i64) -> ParticipantStanding {
    ParticipantStanding { entity, faction, initiative: 10, vitality }
}

fn order() -> Vec<ParticipantStanding> {
    vec![
        standing(11, EncounterFaction::Party, 8),
        standing(21, EncounterFaction::Opposition, 5),
        standing(12, EncounterFaction::Party, 0),
        standing(22, EncounterFaction::Opposition, 0),
        standing(13, EncounterFaction::Party, 3),
    ]
}

#[test]
fn current_actor_is_found_with_its_faction() {
    assert_eq!(current_actor_of(Some(21), &order()), Ok((21, EncounterFaction::Opposition)));
    assert_eq!(current_actor_of(Some(13), &order()), Ok((13, EncounterFaction::Party)));
}

#[test]
fn current_actor_refusals() {
    assert_eq!(
        current_actor_of(None, &order()),
        Err(GameRuntimeError::InvalidState(StateProblem::CurrentActorMissing))
    );
    assert_eq!(
        current_actor_of(Some(99), &order()),
        Err(GameRuntimeError::InvalidState(StateProblem::CurrentActorNotParticipant))
    );
    assert_eq!(
        current_actor_of(Some(12), &order()),
        Err(GameRuntimeError::InvalidState(StateProblem::DefeatedCurrentActor))
    );
}

#[test]
fn faction_mismatch_names_the_required_activation() {
    assert_eq!(ensure_current_faction(EncounterFaction::Party, EncounterFaction::Party), Ok(()));
    assert_eq!(
        ensure_current_faction(EncounterFaction::Opposition, EncounterFaction::Party),
        Err(GameRuntimeError::WrongPhase(PhaseRequirement::PartyActivation))
    );
    assert_eq!(
        ensure_current_faction(EncounterFaction::Party, EncounterFaction::Opposition),
        Err(GameRuntimeError::WrongPhase(PhaseRequirement::OppositionActivation))
    );
}

fn actor() -> Result<(u64, EncounterFaction), GameRuntimeError> {
    Ok((21, EncounterFaction::Opposition))
}

#[test]
fn opposition_guard_checks_in_order() {
    assert_eq!(
        ensure_opposition_may_act(Some(CampaignPhase::Encounter), actor(), 4, 5, 6, false),
        Ok(21)
    );
    assert_eq!(
        ensure_opposition_may_act(None, actor(), 4, 5, 6, false),
        Err(GameRuntimeError::NoEncounter)
    );
    assert_eq!(
        ensure_opposition_may_act(Some(CampaignPhase::Camp), actor(), 4, 5, 6, true),
        Err(GameRuntimeError::WrongPhase(PhaseRequirement::Encounter))
    );
    assert_eq!(
        ensure_opposition_may_act(
            Some(CampaignPhase::Encounter),
            Err(GameRuntimeError::InvalidState(StateProblem::CurrentActorMissing)),
            4,
            5,
            6,
            false
        ),
        Err(GameRuntimeError::InvalidState(StateProblem::CurrentActorMissing))
    );
    assert_eq!(
        ensure_opposition_may_act(
            Some(CampaignPhase::Encounter),
            Ok((11, EncounterFaction::Party)),
            4,
            5,
            6,
            false
        ),
        Err(GameRuntimeError::WrongPhase(PhaseRequirement::OppositionActivation))
    );
    assert_eq!(
        ensure_opposition_may_act(Some(CampaignPhase::Encounter), actor(), 4, u64::MAX, 6, true),
        Err(GameRuntimeError::CounterOverflow)
    );
    assert_eq!(
        ensure_opposition_may_act(Some(CampaignPhase::Encounter), actor(), 4, 5, 6, true),
        Err(GameRuntimeError::InvalidCommand(CommandProblem::OppositionActionPending))
    );
}

#[test]
fn targets_are_the_living_in_order() {
    let (approach, all) = opposition_targets(&order());
    assert_eq!(approach, vec![11, 13]);
    assert_eq!(all, vec![11, 21, 13]);
}

#[test]
fn route_cost_counts_steps_after_the_origin() {
    assert_eq!(route_cost(0), Ok(0));
    assert_eq!(route_cost(1), Ok(0));
    assert_eq!(route_cost(4), Ok(3));
    assert_eq!(route_cost(65536), Ok(65535));
    assert_eq!(route_cost(65537), Err(GameRuntimeError::CounterOverflow));
}

#[test]
fn choice_policy_bounds() {
    assert_eq!(choice_upper(3), Ok(3));
    assert_eq!(chosen_index(Some(2), 3), Ok(2));
    assert_eq!(
        chosen_index(None, 3),
        Err(GameRuntimeError::InvalidState(StateProblem::NoAdmittedChoice))
    );
}

#[test]
fn oversized_choice_catalog_is_refused() {
    if usize::MAX as u64 > u32::MAX as u64 {
        assert_eq!(
            choice_upper(u32::MAX as usize + 1),
            Err(GameRuntimeError::InvalidState(StateProblem::ChoiceCatalogTooLarge))
        );
    }
}

#[test]
fn opposition_moves_at_most_once_then_passes() {
    assert_eq!(opposition_step(2, true, false), OppositionStep::Choose);
    assert_eq!(opposition_step(0, true, false), OppositionStep::Relocate);
    assert_eq!(opposition_step(0, true, true), OppositionStep::Pass);
    assert_eq!(opposition_step(0, false, false), OppositionStep::Pass);
}

#[test]
fn settling_stops_for_the_party_and_at_the_bound() {
    assert_eq!(settle_step(0, 4, false, EncounterFaction::Opposition), SettleStep::Advance);
    assert_eq!(settle_step(1, 4, false, EncounterFaction::Party), SettleStep::Done);
    assert_eq!(settle_step(2, 4, true, EncounterFaction::Opposition), SettleStep::Done);
    assert_eq!(settle_step(4, 4, false, EncounterFaction::Opposition), SettleStep::Exceeded);
    assert_eq!(
        settle_refusal(SettleStep::Exceeded),
        Err(GameRuntimeError::InvalidState(StateProblem::OppositionBoundExceeded))
    );
    assert_eq!(settle_refusal(SettleStep::Done), Ok(()));
}

#[test]
fn unavailable_action_errors() {
    assert!(is_unavailable_action_error(&D20SessionError::ActionForbidden {
        entity: 3,
        action: id("cleave"),
        effect: id("held"),
    }));
    assert!(is_unavailable_action_error(&D20SessionError::ActivationBudgetUnavailable {
        entity: 3,
        budget: id("standard"),
        required: 1,
        available: 0,
    }));
    assert!(!is_unavailable_action_error(&D20SessionError::TurnOverflow));
}

#[test]
fn opposition_log_texts() {
    let name = "Goblin Cutter".to_owned();
    assert_eq!(
        movement_detail(&name, TacticalPosition { x: 4, y: 1 }, TacticalPosition { x: 2, y: 10 }, 9),
        "Goblin Cutter moved from (4, 1) to (2, 10) along an Engine-admitted 9-square route."
    );
    assert_eq!(
        forbidden_movement_detail(&name, &id("frost-bind")),
        "Goblin Cutter could not move because Frost Bind forbids voluntary movement."
    );
    assert_eq!(
        pass_detail(&name, 2),
        "Goblin Cutter had no legal authored action/target pair after tactical movement; 2 unavailable choice(s) were skipped."
    );
    assert_eq!(
        policy_detail(0, 3, 1),
        "Opposition policy selected legal choice 1 of 3; 1 unavailable authored choice(s) were excluded."
    );
    assert_eq!(
        prepares(&name, &id("rusty-blade"), &"Iron Warden".to_owned()),
        "Goblin Cutter prepares Rusty Blade against Iron Warden."
    );
}

#[test]
fn save_status_reports_recovery_campaign_or_empty() {
    let recovery = save_status_of("saves/game.json".to_owned(), Some("broken".to_owned()), None, 7);
    assert_eq!(recovery.state, SaveStateDto::RecoveryRequired);
    assert_eq!(recovery.revision, None);
    assert_eq!(recovery.persistence_error, Some("broken".to_owned()));

    let ready = save_status_of(
        "saves/game.json".to_owned(),
        None,
        Some(("wardens-gate".to_owned(), "Warden's Gate".to_owned())),
        7,
    );
    assert_eq!(ready.state, SaveStateDto::Ready);
    assert_eq!(ready.campaign_id, Some("wardens-gate".to_owned()));
    assert_eq!(ready.campaign_title, Some("Warden's Gate".to_owned()));
    assert_eq!(ready.revision, Some(7));
    assert_eq!(ready.save_identity, "saves/game.json");

    let empty = save_status_of("saves/game.json".to_owned(), None, None, 0);
    assert_eq!(empty.state, SaveStateDto::Empty);
    assert_eq!(empty.campaign_id, None);
    assert_eq!(empty.revision, Some(0));
}

fn status(identity: &str, campaign: Option<&str>, revision: Option<u64>) -> SaveStatusDto {
    SaveStatusDto {
        save_identity: identity.to_owned(),
        state: if campaign.is_some() { SaveStateDto::Ready } else { SaveStateDto::Empty },
        campaign_id: campaign.map(str::to_owned),
        campaign_title: campaign.map(str::to_owned),
        revision,
        persistence_error: None,
    }
}

fn reset(identity: &str, campaign: Option<&str>, revision: Option<u64>) -> ResetSessionRequestDto {
    ResetSessionRequestDto {
        expected_save_identity: identity.to_owned(),
        expected_revision: revision,
        expected_adventure_id: campaign.map(str::to_owned),
    }
}

#[test]
fn reset_must_name_the_current_save() {
    let current = status("saves/a.json", Some("wardens-gate"), Some(4));
    assert_eq!(check_reset(&reset("saves/a.json", Some("wardens-gate"), Some(4)), &current), Ok(()));
    assert_eq!(
        check_reset(&reset("saves/b.json", Some("wardens-gate"), Some(4)), &current),
        Err(GameRuntimeError::StaleSave(SaveStaleness::IdentityChanged {
            expected: "saves/b.json".to_owned(),
            current: "saves/a.json".to_owned(),
        }))
    );
    assert_eq!(
        check_reset(&reset("saves/a.json", Some("wardens-gate"), Some(3)), &current),
        Err(GameRuntimeError::StaleSave(SaveStaleness::CampaignChanged))
    );
    assert_eq!(
        check_reset(&reset("saves/a.json", None, Some(4)), &current),
        Err(GameRuntimeError::StaleSave(SaveStaleness::CampaignChanged))
    );
    let empty = status("saves/a.json", None, Some(0));
    assert_eq!(check_reset(&reset("saves/a.json", None, Some(0)), &empty), Ok(()));
    let stale = GameRuntimeError::StaleSave(SaveStaleness::CampaignChanged);
    let api = stale.api_error("changed".to_owned());
    assert_eq!(api.kind, ApiErrorKindDto::Stale);
    assert!(api.retryable);
}

#[test]
fn refusals_map_to_http_statuses() {
    assert_eq!(http_status(ApiErrorKindDto::Stale), 409);
    assert_eq!(http_status(ApiErrorKindDto::Phase), 422);
    assert_eq!(http_status(ApiErrorKindDto::Capacity), 422);
    assert_eq!(http_status(ApiErrorKindDto::NotFound), 404);
    assert_eq!(http_status(ApiErrorKindDto::Persistence), 500);
    assert_eq!(http_status(ApiErrorKindDto::Internal), 500);
}
