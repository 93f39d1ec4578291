//! Rusty D20: verified rules, campaign state machine, and protocol model of
//! the d20 reference game.
//!
//! The library owns the d20 semantics (identities, roll tapes, attack
//! arithmetic, activation budgets, exploration, tactical movement,
//! initiative, campaign phases, and save validation). Everything that needs
//! a clock, a file, a socket, JSON, or an Engine service lives outside it.

use vstd::prelude::*;

mod component;
mod definitions;
mod game;
mod identity;

pub use identity::{
    valid_d20_id_bytes, d20_id_byte, D20Id, D20IdentityError, MAX_D20_ID_BYTES, D20IdentityErrorView,
    id_parse_error,
};

mod session;

pub use session::error::{
    D20ComponentKind, D20SessionError, EntityId, ParticipationProblem, RollSourceProblem,
    StaleReason,
};
pub use session::seed::{
    AffinitySeed, DamageAffinity, RollSourceConfig, StaticActionRoll, DEFAULT_ROLL_SEED,
    MAX_D20_DAMAGE_DICE, MAX_D20_DAMAGE_DIE_SIDES, MAX_STATIC_ACTION_ROLLS,
};
pub use component::{
    entries_view, has_key, index_of, index_of_from, lemma_index_of_from, spent, value_of,
    AbilityScore, ActionResource, ActivationBudget, ActivationCost, EncounterFaction, Entry,
    TacticalPosition,
};
pub use definitions::{
    contains_id, ids_view, AbilityDefinition, ActionDefinition, ActionLineOfEffectDefinition,
    ActionTargetTeamDefinition, ActivationBudgetDefinition, ConditionClauseDefinition, D20Rules,
    DamageDefinition, DefenseDefinition, EffectDefinition, ReactionDefinition, ResourceDefinition,
};
pub use session::resolution::{
    ability_modifier, active_attack_penalty, active_movement_prohibition, attack_outcome,
    budgets_cover, conditions_penalty, dice_sum, effect_keys, effect_named,
    ensure_component_revision, ensure_fresh_position, find_effect, forbids_movement,
    lemma_dice_sum_prefix, movement_prohibition_from, offered_option, offered_options,
    options_view, reaction_options, resolve_attack, saturate_i16, schedule_is_compiled,
    schedule_penalty, static_action_roll, static_choice_index, tape_d20_positive, AttackRoll,
    ComponentRevision, ReactionOption, ReactionOptionView, ScheduledEffect,
    lemma_attack_arithmetic,
};
pub use game::dto::{
    AbilityReadoutDto, ActionDto, ActionTargetsDto, AdventureChoiceDto, AdventureCompletionDto,
    AffinityReadoutDto, ApiErrorDto, ApiErrorKindDto, ApplyReactionRequestDto, CampaignDto,
    CampaignOutcomeDto, CampaignPhaseDto, CharacterDto, CharacterReactionDto,
    ChooseActionRequestDto, CompletedEncounterDto, DeclineReactionRequestDto, DefenseReadoutDto,
    DiscoveredCellDto, EncounterChoiceDto, EncounterDto, EncounterFactionDto,
    EncounterOutcomeKindDto, EncounterParticipantDto, EnterEncounterRequestDto,
    EquipItemRequestDto, EquipmentSlotDto, ExpectedRevisionDto, ExplorationCheckpointDto,
    ExplorationCommandKindDto, ExplorationCommandRequestDto, ExplorationDepthDto,
    ExplorationDoorDto, ExplorationDto, ExplorationFacingDto, ExplorationLandmarkDto,
    ExplorationTreasureDto, FeatureReadoutDto, GameLogEntryDto, GameLogKindDto, GameSnapshotDto,
    LoadoutCapacityDto, LoadoutDto, LoadoutItemDto, LoadoutRarityDto, MoveActorRequestDto,
    MoveLoadoutItemRequestDto, NewAdventureRequestDto, PartyMemberDto, ReactionDto,
    ReactionPromptDto, ResetSessionRequestDto, ResourceDto, SaveStateDto, SaveStatusDto,
    TacticalBoardDto, TacticalCellDto, TacticalMoveDto, TransferItemRequestDto,
    UnequipItemRequestDto,
};
pub use session::runtime::{
    affinity_bindings, affinity_problem_from, affinity_types, authored_ability_problem_from,
    authored_resource_problem_from, available_or_zero, best_score, bindings_view,
    character_seed_problem, character_facts_problem, validate_character_facts, costs_spent_from, defense_score, due_instances,
    ensure_activation_costs, ensure_turn_advances, first_problem, first_uncovered_from,
    lasting_effects, movement_budgets_after, participant_problem_from, participation_problem,
    reset_activation_budgets, schedule_view, seed_entities, spend_activation_costs,
    split_due_effects, unknown_ability_from, unknown_resource_from, validate_character_seed,
    validate_participation_seeds, AffinityBinding, CharacterSeed, EncounterParticipationSeed,
    MAX_D20_VITALITY,
    lemma_best_score_is_maximum,
};

pub use game::content::{
    character_entity, character_entity_of, completed_ids, first_open_from, is_completed,
    loadout_item_from, next_available_encounter_definition, next_available_of, nonzero_entity,
    owner_entity, owner_entity_of, party_member_from, party_member_name, product_loadout_item,
    storage_entity, storage_entity_of, AdventureContent, AdventureDefinition,
    CharacterTemplateDefinition, EncounterDefinition, EncounterParticipantDefinition,
    ItemInstanceDefinition, StorageDefinition,
};
pub use game::legacy::{
    check_save_schema, check_schema_five_fingerprint, check_schema_six_fingerprint,
    migrate_session_fingerprint, save_schema_of, schema_six_fingerprint_of, SaveSchema,
    EMBERS_WAKE, LEGACY_D20G1_WARDEN_FINGERPRINT, SCHEMA_SIX_EMBER_FINGERPRINT,
    SCHEMA_SIX_WARDEN_FINGERPRINT, WARDENS_GATE, first_opposition_from, legacy_actor,
    legacy_actor_of, legacy_campaign_migrated, legacy_encounter, legacy_key, legacy_owner,
    legacy_phase, records_resolution, save_verdict, schema_five_migrated, schema_four_migrated,
    schema_four_resolved, schema_one_campaign, schema_one_campaign_of, schema_six_exploration,
    schema_six_migrated, trigger_for_from, validate_legacy_campaign_save,
    validate_schema_five_campaign_save, validate_schema_four_campaign_save,
    validate_schema_six_campaign_save, LegacyCampaignPhase, LegacyCampaignSave, LegacyTurnOwner,
    SchemaFiveCampaignSave, SchemaFourCampaignSave, SchemaSixCampaignSave, NO_LEGACY_ENCOUNTER,
};
pub use game::campaign::{
    adventure_wf, at_checkpoint, authored_prefix, begin_campaign_exploration, begin_encounter,
    campaign_consistent, campaign_of_save, campaign_save, campaign_save_problem,
    complete_campaign_encounter, completion_step, content_covers, current_encounter_definition,
    current_encounter_of, encounter_entry, encounter_entry_of, encounter_key, entry_step,
    explore, exploration_entry_step, exploration_move_step, exploration_sorted, fresh_campaign,
    latest_is, lemma_completion_keeps_consistency, lemma_entry_keeps_consistency,
    lemma_exploration_entry_keeps_consistency, lemma_exploration_move_keeps_consistency,
    lemma_new_campaign_consistent, lemma_return_keeps_consistency,
    lemma_saved_campaign_restores, lists_text, new_campaign, phase_after_outcome,
    phase_consistent, resolution_consistent, return_campaign_to_camp, return_problem,
    return_step, returns_to_checkpoint, text_of, triggered_at, validate_campaign_save,
    CampaignSave, CampaignState,
};
pub use game::support::{
    appended, bumped_revision, check_fingerprint, check_save_size,
    decimal_digits, digit_char, ensure_campaign_phase, ensure_mutation_capacity, ensure_revision, revision_check, revision_after, lemma_command_revisions,
    entry_view, entry_within_bounds, ids_increasing, kept_details, lemma_push_keeps_log_valid,
    log_problem, log_view, pow10, required_phase, text_bytes, texts_view,
    validate_restored_log, GameLog, LogEntryView, GAME_SAVE_SCHEMA_VERSION, MAX_GAME_SAVE_BYTES,
    MAX_LOG_DETAILS, MAX_LOG_DETAIL_BYTES, MAX_LOG_ENTRIES, MAX_LOG_SOURCE_BYTES,
    MAX_LOG_TEXT_BYTES, OMITTED_DETAILS_NOTE,
};
pub use game::restore::{
    alive_from, campaign_vitality_of, expected_roster, fact_matches, faction_entities, matched,
    outcome_agrees, party_alive_of, party_entities_from, positions_valid, resting, roster_covered,
    roster_from, roster_matches, rosters_covered, saved_vitality, saved_vitality_of,
    validate_campaign_vitality, vitality_from, ParticipationFact, RosterFact, VitalityFact,
};

pub use game::loadout::{
    check_transfer, lemma_move_places_item, loadout_holder, loadout_holder_of, loadout_move_of,
    owner_allowed, placement_after, plan_loadout_move, transfer_refusal_of,
    LoadoutMove, EMPTY_DESTINATION, equipped_log, equipped_texts, placed_headline, placement_text,
    transfer_destination_text, transferred_log, transferred_texts, unequipped_log,
    unequipped_texts, PlacementTarget, PLACEMENT_DETAIL,
};
pub use game::restore::party_entities;
pub use session::landing::{
    active_of_definition, plan_effect_landing, reschedule_landing, schedule_after_landing,
    without_instance, EffectLanding, lemma_without_instance, lemma_landing_schedules_once,
};
pub use session::requirements::{
    admit_reaction, ensure_implement_equipped, find_action, implement_problem, offered_reaction,
    reaction_admission,
};
pub use session::restored::{
    budgets_of, character_refused, character_verdict, companion_gap, facts_of, instance_active,
    missing, participation_problem_from, refused_character_from, restored_session_verdict,
    schedule_problem, schedule_problem_from, scheduled_instance_from, stray_resources_from,
    unmatched_schedule_from, unscheduled_from, validate_restored_session, ActiveEffectFact,
    RestoredEntity,
};
pub use session::persistence::{
    budget_missing, budget_problem_from, budgets_refused, budgets_verdict, bytes_before, repeated,
    text_before,
    validate_restored_budgets,
};

pub use game::text::{
    ascii_text, capital, capitalized, humanize, humanized, joined, word_break, words,
};
pub use game::projection::{
    campaign_phase_dto, campaign_readout, completion_readout, copy_texts, encounter_named,
    label_of, offered_of, outcome_dto, outcome_kind_dto, outcome_readout, phase_dto,
    project_abilities, project_campaign, project_completed, project_reactions, project_resources,
    reset_refusal, check_reset, lemma_reset_against_current_status, reward_entity_of, save_status_of, save_status_spec,
    activation_labels, affinity_word, cost_label, damage_label, damage_label_spec, effect_label,
    effect_labels, project_action, project_affinities,
    undefined_resource_from,
    unknown_completion_from,
};
pub use game::routes::{
    cell_index, closest_route, first_best, legal_routes_from, nearest_distance, path_steps,
    rank_less, reaches, route_admitted, route_order_key, route_rank, routes_ordered, scanned,
};
pub use game::equipment::{
    bytes_less, canonical_slots, carried_capacity, carried_from, compare_ids, equipment_slots,
    has_slot, inventory_slots, last_assignment, lemma_bytes_less_asymmetric,
    lemma_bytes_less_irreflexive, lemma_bytes_less_total, lemma_bytes_less_transitive, slot_key,
    slots_sorted, check_inventory_capacity, CapacityUsage, SlotAssignment, TextOrder,
    CARRIED_ITEMS,
};
pub use game::catalog::{
    available_adventures, choice_view, ensure_adventure_may_start, is_saved, listing_from,
    offered_choices, select_adventure, selection_outcome, snapshot_plan, snapshot_plan_spec,
    AdventureListing, SnapshotPlan,
    save_admission, save_admission_of,
};
pub use game::activation::{
    ensure_prompt_answer, prompt_answer_refusal,
    action_choice_outcome, admit_action_choice, admit_move, ended_activation_detail,
    ended_activation_text, ensure_party_command, ensure_selected_actor, expired_effects_detail,
    expired_effects_text, move_headline_text, move_log, move_outcome, next_activation_log,
    next_activation_source, party_command_refusal, path_text, pending_problem, reserves_log,
    route_detail_text, route_from, target_team_spec, target_team_verdict,
    template_actions_defined, template_from, ActionChoice, MoveChoice, PartyCommand,
    TacticalRoute, faction_dto, faction_dto_spec, move_view, project_moves, project_participant,
    route_offer, routes_fit, target_candidates, target_candidates_spec, undefeated_entities,
};
pub use game::receipt::{
    attack_headline, attack_headline_text, damage_decision_detail, damage_decision_detail_text,
    damage_decision_label, damage_decision_text, damage_part_detail, damage_part_text,
    defense_source, defense_source_text, expiry_detail, expiry_text, forced_movement_detail,
    forced_movement_text, outcome_label, outcome_label_spec, reaction_details_text,
    reaction_headline_text, reaction_log, roll_detail, roll_detail_text, roll_position_detail,
    roll_position_text, source_label, source_text, stat_contribution_label,
    stat_contribution_text, DecisionOutcome, ResponseDecision, SourceInstance, StatContribution,
    FORCED_MOVEMENT_BLOCKED,
};
pub use game::support::{plus_signed_digits, signed_digits};
pub use game::opposition::{
    cell_text, forbidden_movement_text, movement_detail_text, pass_detail_text,
    policy_detail_text, prepares_text,
};
pub use game::opposition::{
    activation_requirement, choice_upper, chosen_index, current_actor_of, current_actor_spec,
    ensure_current_faction, ensure_opposition_may_act, forbidden_movement_detail,
    is_unavailable_action_error, lemma_opposition_moves_once, lemma_settle_bounded,
    living_entities, movement_detail, opposition_refusal, opposition_step, opposition_step_spec,
    opposition_targets, pass_detail, policy_detail, prepares, route_cost, route_steps,
    settle_refusal, settle_step, settle_step_spec, unavailable_action_spec, OppositionStep,
    SettleStep,
};
pub use game::content::{
    item_seed_view, item_seeds_of, product_equipment_items, AdventureCompletionDefinition,
    EncounterOutcomeDefinition, EquipmentItemSeed, plan_reward_transfer, reward_transfer_of,
    RewardTransfer,
};

pub use game::entry::{
    completion_opposes, opposed_before, opposes_in, participation_seeds, returning_from,
    returning_opponents, seeds_of,
};

pub use game::product::{
    item_entities_from, listing_check_of, lists_exactly, member_entities_from, placement_of,
    placements_distinct, reward_consistent, rewards_check_from, rewards_covered, same_entities,
    strictly_increasing, validate_product_listing, validate_rewards, won, ProductListing,
    containment_check_of, stray_item_from, validate_item_containment,
    RewardPlacement,
    definition_check_from, definition_check_of, validate_item_definitions,
};

verus! {

/// Exact reviewed Rusty Engine revision the game was built against.
pub const ENGINE_REVISION: &'static str = "fb608e323a8b44a55195f5720101224ff37fd5db";

/// Name of the product.
pub const PRODUCT_NAME: &'static str = "Rusty D20";

/// Version of the product.
pub const PRODUCT_VERSION: &'static str = "0.1.0";

/// Whether the runtime can serve.
#[derive(Debug, Clone, Copy, PartialEq, Eq, Structural)]
pub enum RuntimeStatusDto {
    Ready,
}

/// What the runtime reports about itself.
#[derive(Debug, Clone, PartialEq, Eq)]
pub struct RuntimeReadoutDto {
    pub product: String,
    pub version: String,
    pub engine_revision: String,
    pub status: RuntimeStatusDto,
    pub entity_count: u32,
}

/// The answer of the health probe.
#[derive(Debug, Clone, PartialEq, Eq)]
pub struct HealthDto {
    pub status: String,
    pub version: String,
}

/// The readout of a runtime that holds `entity_count` entities.
pub fn runtime_readout(entity_count: usize) -> (readout: RuntimeReadoutDto)
    requires
        entity_count <= u32::MAX,
    ensures
        readout.product@ == PRODUCT_NAME@,
        readout.version@ == PRODUCT_VERSION@,
        readout.engine_revision@ == ENGINE_REVISION@,
        readout.status == RuntimeStatusDto::Ready,
        readout.entity_count == entity_count,
{
    RuntimeReadoutDto {
        product: PRODUCT_NAME.to_owned(),
        version: PRODUCT_VERSION.to_owned(),
        engine_revision: ENGINE_REVISION.to_owned(),
        status: RuntimeStatusDto::Ready,
        entity_count: entity_count as u32,
    }
}

/// The answer of the health probe: status `ok` and the product version.
pub fn health() -> (answer: HealthDto)
    ensures
        answer.status@ == "ok"@,
        answer.version@ == PRODUCT_VERSION@,
{
    HealthDto { status: "ok".to_owned(), version: PRODUCT_VERSION.to_owned() }
}

} // verus!
pub use game::error::{
    api_classification, http_status, http_status_spec, lemma_stale_is_retryable_conflict,
    mechanics_api_error_kind, mechanics_kind, CommandProblem, SaveStaleness,
    SaveStalenessView,
    ContainmentProblem, GameErrorView, GameRuntimeError, PhaseRequirement, SaveProblem,
    StaleRevision, StateProblem,
};
pub use session::error::{MechanicsFailure, SessionErrorView};
pub use game::exploration::{
    checkpoint_from, exploration_view_valid, find_checkpoint, is_checkpoint_id,
    lemma_exploration_keeps_validity, lemma_exploration_valid_view, lemma_sorted_floor_cells_fit,
    clamp_coordinate, dungeon_floor, exploration_command, exploration_next, exploration_wf,
    insert_position, insert_text, landmark_at, landmark_at_from,
    lemma_exploration_preserves_wf, lemma_turn_commands_cancel, position_key, positions_sorted,
    trigger_at, trigger_at_from, begin_exploration_state, contains_text, depth_view,
    exploration_state_valid, facing_view, is_landmark_id, project_exploration, step_open,
    validate_exploration_state, ExplorationEvent, ExplorationState, ExplorationStateView, facing_dto, facing_dx, facing_dy, is_floor,
    lemma_four_turns, lemma_step_back, lemma_turn_inverse, offset, offset_by, offset_position,
    side_positions, step_target, turn, turned, DungeonCheckpointDefinition, DungeonDefinition,
    DungeonEncounterDefinition, DungeonLandmarkDefinition, VIEW_DEPTH, DungeonDoorDefinition,
    DungeonTreasureDefinition, door_from, door_may_be_open, is_treasure_id,
    doors_and_treasures_valid, doors_and_treasures_ok, text_set, treasure_ownership_agrees,
    validate_treasure_ownership,
    trigger_stands_on, lemma_steps_enter_triggered_encounters,
};
pub use game::state::{
    CampaignPhase, CompletedEncounter, DungeonFacingDefinition, DungeonPosition,
    EncounterOutcome,
};
pub use game::tactical::{
    action_is_spatially_legal, board_floor, chebyshev, contains_position, forced_destination,
    forced_result, lemma_pushed_distance, lemma_pushed_lands_clear, push_blocked, push_direction,
    pushed, signum, tactical_distance, TacticalBoardDefinition,
    push_open, lemma_push_moves_away_from_actor,
};
pub use game::encounter::{
    activation_after, acts_before, encounter_outcome, faction_standing, first_actor,
    first_living_from, initiative_order, initiative_sorted, living_offset_from, next_activation,
    outcome_of, position_of_from, target_team_allows, team_allows, ActivationAdvance,
    ParticipantStanding,
    skipped_between, lemma_activation_passes_to_next_living,
};
