use vstd::prelude::*;

use crate::component::{index_of, index_of_from, EncounterFaction};
use crate::definitions::{ids_view, names};
use crate::game::campaign::{
    campaign_of_save, campaign_save_problem, text_of, validate_campaign_save, CampaignSave,
    CampaignState,
};
use crate::game::content::{
    character_entity, character_entity_of, AdventureContent, AdventureDefinition,
    EncounterParticipantDefinition,
};
use crate::game::error::{GameRuntimeError, SaveProblem};
use crate::game::exploration::{
    begin_exploration_state, insert_position, positions_sorted, DungeonDefinition,
    ExplorationStateView,
};
use crate::game::state::{CampaignPhase, CompletedEncounter, DungeonPosition, EncounterOutcome};
use crate::game::support::GAME_SAVE_SCHEMA_VERSION;
use crate::identity::D20Id;
use crate::session::error::EntityId;

verus! {

/// The composition fingerprint of the first Warden's Gate release, which
/// saves of schema 5 and before were made with.
pub const LEGACY_D20G1_WARDEN_FINGERPRINT: &'static str = "rusty-d20/starter-core@1=af2dc794bdc02dcf8a99753fef15e706d664a7d3f2c2562468938163d6af2ff6|rusty-d20/steel-guard@1=d25c138ad46342423764603fe6302c3411e748b4bb85973d24d01e88e6f8c567|rusty-d20/wardens-gate@1=588af08d7e4e72e58222fde4a92f3b52946fde2b453b851ff33db133aa06aa76";

/// The composition fingerprint of Warden's Gate saves of schema 6.
pub const SCHEMA_SIX_WARDEN_FINGERPRINT: &'static str = "rusty-d20/starter-core@1=af2dc794bdc02dcf8a99753fef15e706d664a7d3f2c2562468938163d6af2ff6|rusty-d20/steel-guard@1=d25c138ad46342423764603fe6302c3411e748b4bb85973d24d01e88e6f8c567|rusty-d20/wardens-gate@1=21dc5b9c5b3c22c89cfa3941d68e3159094bf6734c465e71791e75a147fe8886";

/// The composition fingerprint of Ember's Wake saves of schema 6.
pub const SCHEMA_SIX_EMBER_FINGERPRINT: &'static str = "rusty-d20/starter-core@1=af2dc794bdc02dcf8a99753fef15e706d664a7d3f2c2562468938163d6af2ff6|rusty-d20/ember-ward@1=a4c589aec018193d52ba9c32ac5ae01fedb909055e9a34de64d9358726aa797c|rusty-d20/embers-wake@1=a22256f90621321f8c9dc208be9ef01e57b2a178d6a6050a17ca9e63fe8b5624";

/// The adventure with Warden's Gate saves.
pub const WARDENS_GATE: &'static str = "wardens-gate";

/// The adventure with Ember's Wake saves.
pub const EMBERS_WAKE: &'static str = "embers-wake";

/// The save schemas a game save can be read from: the current one, and the
/// earlier ones it migrates.
#[derive(Debug, Clone, Copy, PartialEq, Eq, Structural)]
pub enum SaveSchema {
    Current,
    SchemaSix,
    SchemaFive,
    SchemaFour,
    /// Schemas 2 and 3: a camp or encounter phase and nothing more.
    CampaignOnly,
    /// Schema 1: a session in its first encounter, with no campaign.
    EncounterOnly,
}

/// The schema a save version is read as; `None` for versions no release
/// wrote.
pub open spec fn save_schema_of(version: u32) -> Option<SaveSchema> {
    if version == GAME_SAVE_SCHEMA_VERSION {
        Some(SaveSchema::Current)
    } else if version == 6 {
        Some(SaveSchema::SchemaSix)
    } else if version == 5 {
        Some(SaveSchema::SchemaFive)
    } else if version == 4 {
        Some(SaveSchema::SchemaFour)
    } else if version == 2 || version == 3 {
        Some(SaveSchema::CampaignOnly)
    } else if version == 1 {
        Some(SaveSchema::EncounterOnly)
    } else {
        None
    }
}

/// Reads a save's schema version, refusing versions no release wrote.
pub fn check_save_schema(version: u32) -> (result: Result<SaveSchema, GameRuntimeError>)
    ensures
        match save_schema_of(version) {
            Some(schema) => result == Ok::<SaveSchema, GameRuntimeError>(schema),
            None => result == Err::<SaveSchema, GameRuntimeError>(
                GameRuntimeError::UnsupportedSaveSchema { actual: version },
            ),
        },
{
    if version == GAME_SAVE_SCHEMA_VERSION {
        Ok(SaveSchema::Current)
    } else if version == 6 {
        Ok(SaveSchema::SchemaSix)
    } else if version == 5 {
        Ok(SaveSchema::SchemaFive)
    } else if version == 4 {
        Ok(SaveSchema::SchemaFour)
    } else if version == 2 || version == 3 {
        Ok(SaveSchema::CampaignOnly)
    } else if version == 1 {
        Ok(SaveSchema::EncounterOnly)
    } else {
        Err(GameRuntimeError::UnsupportedSaveSchema { actual: version })
    }
}

/// The fingerprint schema-6 saves of an adventure were made with; `None`
/// for an adventure no schema-6 release carried.
pub open spec fn schema_six_fingerprint_of(adventure: Seq<char>) -> Option<Seq<char>> {
    if adventure == WARDENS_GATE@ {
        Some(SCHEMA_SIX_WARDEN_FINGERPRINT@)
    } else if adventure == EMBERS_WAKE@ {
        Some(SCHEMA_SIX_EMBER_FINGERPRINT@)
    } else {
        None
    }
}

/// Checks the fingerprint of a schema-6 save, which must be the one its
/// adventure's schema-6 release used; returns that fingerprint, which the
/// save's session carries too.
pub fn check_schema_six_fingerprint(adventure_id: &D20Id, saved: String) -> (result: Result<
    String,
    GameRuntimeError,
>)
    ensures
        match schema_six_fingerprint_of(adventure_id@) {
            None => result == Err::<String, GameRuntimeError>(
                GameRuntimeError::InvalidSave(SaveProblem::NoSchemaSixMigration),
            ),
            Some(legacy) => if saved@ == legacy {
                result matches Ok(found) && found@ == legacy
            } else {
                result matches Err(
                    GameRuntimeError::CompositionFingerprintMismatch { expected, actual },
                ) && expected@ == legacy && actual@ == saved@
            },
        },
{
    let legacy = if adventure_id.matches_text(&WARDENS_GATE.to_owned()) {
        SCHEMA_SIX_WARDEN_FINGERPRINT.to_owned()
    } else if adventure_id.matches_text(&EMBERS_WAKE.to_owned()) {
        SCHEMA_SIX_EMBER_FINGERPRINT.to_owned()
    } else {
        return Err(GameRuntimeError::InvalidSave(SaveProblem::NoSchemaSixMigration));
    };
    if saved == legacy {
        Ok(legacy)
    } else {
        Err(GameRuntimeError::CompositionFingerprintMismatch { expected: legacy, actual: saved })
    }
}

/// Checks the fingerprint of a schema-5 save: the current rules' one, or,
/// for Warden's Gate, its first release's. Returns the first release's
/// fingerprint when the save was made with it, which its session carries
/// too.
pub fn check_schema_five_fingerprint(adventure_id: &D20Id, current: &String, saved: String) -> (result:
    Result<Option<String>, GameRuntimeError>)
    ensures
        saved@ == current@ ==> result == Ok::<Option<String>, GameRuntimeError>(None),
        saved@ != current@ && adventure_id@ == WARDENS_GATE@ && saved@
            == LEGACY_D20G1_WARDEN_FINGERPRINT@ ==> (result matches Ok(Some(found)) && found@
            == LEGACY_D20G1_WARDEN_FINGERPRINT@),
        saved@ != current@ && !(adventure_id@ == WARDENS_GATE@ && saved@
            == LEGACY_D20G1_WARDEN_FINGERPRINT@) ==> (result matches Err(
            GameRuntimeError::CompositionFingerprintMismatch { expected, actual },
        ) && expected@ == current@ && actual@ == saved@),
{
    if saved == *current {
        return Ok(None);
    }
    let legacy = LEGACY_D20G1_WARDEN_FINGERPRINT.to_owned();
    if adventure_id.matches_text(&WARDENS_GATE.to_owned()) && saved == legacy {
        return Ok(Some(legacy));
    }
    Err(GameRuntimeError::CompositionFingerprintMismatch { expected: current.clone(), actual: saved })
}

/// The ruleset fingerprint a migrated session is written back with: the
/// session must carry the legacy fingerprint its save was made with, and
/// then carries the current rules' one.
pub fn migrate_session_fingerprint(found: Option<String>, legacy: &String, current: &String) -> (result:
    Result<String, GameRuntimeError>)
    ensures
        match found {
            None => result == Err::<String, GameRuntimeError>(
                GameRuntimeError::InvalidSave(SaveProblem::LegacySessionFingerprintMissing),
            ),
            Some(f) => if f@ == legacy@ {
                result matches Ok(next) && next@ == current@
            } else {
                result matches Err(
                    GameRuntimeError::CompositionFingerprintMismatch { expected, actual },
                ) && expected@ == legacy@ && actual@ == f@
            },
        },
{
    match found {
        None => Err(GameRuntimeError::InvalidSave(SaveProblem::LegacySessionFingerprintMissing)),
        Some(f) => if f == *legacy {
            Ok(current.clone())
        } else {
            Err(GameRuntimeError::CompositionFingerprintMismatch { expected: legacy.clone(), actual: f })
        },
    }
}

/// Which side an encounter of an early save was waiting on.
#[derive(Debug, Clone, Copy, PartialEq, Eq, Structural)]
pub enum LegacyTurnOwner {
    Player,
    Opposition,
}

/// Position, from `i` on, of the first opposition participant of a roster.
pub open spec fn first_opposition_from(roster: Seq<EncounterParticipantDefinition>, i: nat) -> Option<int>
    decreases roster.len() - i,
{
    if i >= roster.len() {
        None
    } else if roster[i as int].faction == EncounterFaction::Opposition {
        Some(i as int)
    } else {
        first_opposition_from(roster, i + 1)
    }
}

/// The actor a migrated encounter resumes with: the hero when the player
/// was to act, else the first opposition participant of the encounter's
/// authored roster; no actor when the save names no turn owner.
pub open spec fn legacy_actor_of(
    content: AdventureContent,
    adventure: AdventureDefinition,
    active: Option<Seq<char>>,
    owner: Option<LegacyTurnOwner>,
) -> Result<Option<EntityId>, GameRuntimeError> {
    let unresolved = GameRuntimeError::InvalidSave(SaveProblem::LegacyTurnOwnerUnresolved);
    match owner {
        None => Ok(None),
        Some(LegacyTurnOwner::Player) => match character_entity_of(content, adventure, adventure.hero@) {
            Ok(entity) => Ok(Some(entity)),
            Err(e) => Err(e),
        },
        Some(LegacyTurnOwner::Opposition) => match active {
            None => Err(unresolved),
            Some(a) => match index_of(names(content.encounters@), a) {
                None => Err(unresolved),
                Some(i) => match first_opposition_from(content.encounters@[i].roster@, 0) {
                    None => Err(unresolved),
                    Some(k) => match character_entity_of(
                        content,
                        adventure,
                        content.encounters@[i].roster@[k].character@,
                    ) {
                        Ok(entity) => Ok(Some(entity)),
                        Err(e) => Err(e),
                    },
                },
            },
        },
    }
}

/// Position of the encounter definition named `text`.
fn find_encounter(content: &AdventureContent, text: &String) -> (found: Option<usize>)
    ensures
        found matches Some(i) ==> index_of(names(content.encounters@), text@) == Some(i as int) && i
            < content.encounters@.len(),
        found is None ==> index_of(names(content.encounters@), text@) is None,
{
    let ghost keys = names(content.encounters@);
    let mut index: usize = 0;
    while index < content.encounters.len()
        invariant
            0 <= index <= content.encounters@.len(),
            keys == names(content.encounters@),
            index_of(keys, text@) == index_of_from(keys, text@, index as nat),
        decreases content.encounters@.len() - index,
    {
        assert(keys[index as int].0 == content.encounters@[index as int].id@);
        if content.encounters[index].id.matches_text(text) {
            return Some(index);
        }
        index = index + 1;
    }
    None
}

/// Position of the first opposition participant of a roster.
fn find_opposition(roster: &Vec<EncounterParticipantDefinition>) -> (found: Option<usize>)
    ensures
        found matches Some(k) ==> first_opposition_from(roster@, 0) == Some(k as int) && k
            < roster@.len(),
        found is None ==> first_opposition_from(roster@, 0) is None,
{
    let mut index: usize = 0;
    while index < roster.len()
        invariant
            0 <= index <= roster@.len(),
            first_opposition_from(roster@, 0) == first_opposition_from(roster@, index as nat),
        decreases roster@.len() - index,
    {
        if roster[index].faction == EncounterFaction::Opposition {
            return Some(index);
        }
        index = index + 1;
    }
    None
}

/// Finds the actor a migrated encounter resumes with.
pub fn legacy_actor(
    content: &AdventureContent,
    adventure: &AdventureDefinition,
    active: &Option<String>,
    owner: Option<LegacyTurnOwner>,
) -> (result: Result<Option<EntityId>, GameRuntimeError>)
    ensures
        result == legacy_actor_of(*content, *adventure, text_of(*active), owner),
{
    match owner {
        None => Ok(None),
        Some(LegacyTurnOwner::Player) => match character_entity(content, adventure, &adventure.hero) {
            Ok(entity) => Ok(Some(entity)),
            Err(e) => Err(e),
        },
        Some(LegacyTurnOwner::Opposition) => {
            let a = match active {
                Some(a) => a,
                None => {
                    return Err(GameRuntimeError::InvalidSave(SaveProblem::LegacyTurnOwnerUnresolved));
                },
            };
            let i = match find_encounter(content, a) {
                Some(i) => i,
                None => {
                    return Err(GameRuntimeError::InvalidSave(SaveProblem::LegacyTurnOwnerUnresolved));
                },
            };
            let roster = &content.encounters[i].roster;
            match find_opposition(roster) {
                None => Err(GameRuntimeError::InvalidSave(SaveProblem::LegacyTurnOwnerUnresolved)),
                Some(k) => match character_entity(content, adventure, &roster[k].character) {
                    Ok(entity) => Ok(Some(entity)),
                    Err(e) => Err(e),
                },
            }
        },
    }
}

/// What the check of a campaign save answers for `save`.
pub open spec fn save_verdict(
    adventure: AdventureDefinition,
    adventure_id: Seq<char>,
    save: CampaignSave,
    result: Result<CampaignState, GameRuntimeError>,
) -> bool {
    match campaign_save_problem(adventure, adventure_id, save) {
        Some(problem) => result == Err::<CampaignState, GameRuntimeError>(
            GameRuntimeError::InvalidSave(problem),
        ),
        None => result == Ok::<CampaignState, GameRuntimeError>(campaign_of_save(save)),
    }
}

/// The campaign part of a schema-6 save: a campaign without exploration.
#[derive(Debug, PartialEq, Eq)]
pub struct SchemaSixCampaignSave {
    pub adventure_id: String,
    pub phase: CampaignPhase,
    pub active_encounter_id: Option<String>,
    pub resolved_encounter_id: Option<String>,
    pub turn_owner: Option<LegacyTurnOwner>,
    pub outcome: Option<EncounterOutcome>,
    pub completed_encounters: Vec<CompletedEncounter>,
}

/// Position, from `i` on, of the first dungeon trigger of encounter `key`.
pub open spec fn trigger_for_from(dungeon: DungeonDefinition, key: Seq<char>, i: nat) -> Option<int>
    decreases dungeon.encounters@.len() - i,
{
    if i >= dungeon.encounters@.len() {
        None
    } else if dungeon.encounters@[i as int].encounter@ == key {
        Some(i as int)
    } else {
        trigger_for_from(dungeon, key, i + 1)
    }
}

/// The exploration a schema-6 save resumes with: where the dungeon
/// triggers the encounter the campaign is in or has just resolved, facing
/// as at the start, having seen the start and that cell; none when the
/// campaign names no such encounter.
pub open spec fn schema_six_exploration(dungeon: DungeonDefinition, key: Option<Seq<char>>) -> Option<
    ExplorationStateView,
> {
    match key {
        None => None,
        Some(k) => match trigger_for_from(dungeon, k, 0) {
            None => None,
            Some(t) => {
                let start = DungeonPosition { x: dungeon.start_x, y: dungeon.start_y };
                let position = DungeonPosition {
                    x: dungeon.encounters@[t].x,
                    y: dungeon.encounters@[t].y,
                };
                Some(
                    ExplorationStateView {
                        position,
                        facing: dungeon.start_facing,
                        discovered: Set::empty().insert(start).insert(position),
                        inspected_landmarks: Set::empty(),
                        checkpoint_id: dungeon.start_checkpoint@,
                        opened_doors: Set::empty(),
                        collected_treasures: Set::empty(),
                    },
                )
            },
        },
    }
}

/// The encounter a campaign is in, else the one it has just resolved.
pub open spec fn legacy_key(active: Option<String>, resolved: Option<String>) -> Option<Seq<char>> {
    match text_of(active) {
        Some(a) => Some(a),
        None => text_of(resolved),
    }
}

/// Whether `m` is the current-schema save a schema-6 save migrates to,
/// with `actor` as its current actor.
pub open spec fn schema_six_migrated(
    adventure: AdventureDefinition,
    save: SchemaSixCampaignSave,
    actor: Option<EntityId>,
    m: CampaignSave,
) -> bool {
    &&& m.adventure_id == save.adventure_id
    &&& m.phase == save.phase
    &&& m.active_encounter_id == save.active_encounter_id
    &&& m.resolved_encounter_id == save.resolved_encounter_id
    &&& m.current_actor_id == actor
    &&& m.outcome == save.outcome
    &&& m.completed_encounters == save.completed_encounters
    &&& match schema_six_exploration(
        adventure.dungeon,
        legacy_key(save.active_encounter_id, save.resolved_encounter_id),
    ) {
        None => m.exploration is None,
        Some(view) => m.exploration matches Some(e) && e@ == view && positions_sorted(e.discovered@),
    }
}

/// Position of the first dungeon trigger of encounter `key`.
fn find_trigger(dungeon: &DungeonDefinition, key: &String) -> (found: Option<usize>)
    ensures
        found matches Some(t) ==> trigger_for_from(*dungeon, key@, 0) == Some(t as int) && t
            < dungeon.encounters@.len(),
        found is None ==> trigger_for_from(*dungeon, key@, 0) is None,
{
    let mut index: usize = 0;
    while index < dungeon.encounters.len()
        invariant
            0 <= index <= dungeon.encounters@.len(),
            trigger_for_from(*dungeon, key@, 0) == trigger_for_from(*dungeon, key@, index as nat),
        decreases dungeon.encounters@.len() - index,
    {
        if dungeon.encounters[index].encounter.matches_text(key) {
            return Some(index);
        }
        index = index + 1;
    }
    None
}

/// Checks the campaign part of a schema-6 save: it gains the exploration
/// of the encounter it is in or has resolved, its turn owner becomes an
/// actor, and the result is checked as a current save.
pub fn validate_schema_six_campaign_save(
    content: &AdventureContent,
    adventure: &AdventureDefinition,
    adventure_id: &D20Id,
    save: SchemaSixCampaignSave,
) -> (result: Result<CampaignState, GameRuntimeError>)
    ensures
        match legacy_actor_of(*content, *adventure, text_of(save.active_encounter_id), save.turn_owner) {
            Err(e) => result == Err::<CampaignState, GameRuntimeError>(e),
            Ok(actor) => exists|m: CampaignSave|
                schema_six_migrated(*adventure, save, actor, m) && save_verdict(
                    *adventure,
                    adventure_id@,
                    m,
                    result,
                ),
        },
{
    let ghost original = save;
    let actor = legacy_actor(content, adventure, &save.active_encounter_id, save.turn_owner)?;
    let key = match &save.active_encounter_id {
        Some(a) => Some(a),
        None => save.resolved_encounter_id.as_ref(),
    };
    let trigger = match key {
        Some(k) => find_trigger(&adventure.dungeon, k),
        None => None,
    };
    let exploration = match trigger {
        None => None,
        Some(t) => {
            let dungeon = &adventure.dungeon;
            let mut state = begin_exploration_state(dungeon, None);
            let position = DungeonPosition { x: dungeon.encounters[t].x, y: dungeon.encounters[t].y };
            let ghost before = state.discovered@;
            insert_position(&mut state.discovered, position);
            state.position = position;
            proof {
                assert(state.discovered@.to_set() == before.to_set().insert(position));
            }
            Some(state)
        },
    };
    let migrated = CampaignSave {
        adventure_id: save.adventure_id,
        phase: save.phase,
        active_encounter_id: save.active_encounter_id,
        resolved_encounter_id: save.resolved_encounter_id,
        current_actor_id: actor,
        outcome: save.outcome,
        completed_encounters: save.completed_encounters,
        exploration,
    };
    let ghost m = migrated;
    let result = validate_campaign_save(adventure, adventure_id, migrated);
    proof {
        assert(schema_six_migrated(*adventure, original, actor, m));
    }
    result
}

/// The campaign part of a schema-5 save: its last resolution, no record of
/// earlier ones, and no exploration.
#[derive(Debug, PartialEq, Eq)]
pub struct SchemaFiveCampaignSave {
    pub adventure_id: String,
    pub phase: CampaignPhase,
    pub active_encounter_id: Option<String>,
    pub resolved_encounter_id: Option<String>,
    pub turn_owner: Option<LegacyTurnOwner>,
    pub outcome: Option<EncounterOutcome>,
}

/// Whether `completed` records exactly the resolution `resolved` ended
/// with `outcome`: one completion when both are named, none when neither
/// is.
pub open spec fn records_resolution(
    completed: Seq<CompletedEncounter>,
    resolved: Option<String>,
    outcome: Option<EncounterOutcome>,
) -> bool {
    match (resolved, outcome) {
        (Some(r), Some(o)) => completed.len() == 1 && completed[0].encounter_id == r
            && completed[0].outcome == o,
        _ => completed.len() == 0,
    }
}

/// Whether `m` is the current-schema save a schema-5 save migrates to,
/// with `actor` as its current actor.
pub open spec fn schema_five_migrated(save: SchemaFiveCampaignSave, actor: Option<EntityId>, m: CampaignSave) -> bool {
    &&& m.adventure_id == save.adventure_id
    &&& m.phase == save.phase
    &&& m.active_encounter_id == save.active_encounter_id
    &&& m.resolved_encounter_id == save.resolved_encounter_id
    &&& m.current_actor_id == actor
    &&& m.outcome == save.outcome
    &&& records_resolution(m.completed_encounters@, save.resolved_encounter_id, save.outcome)
    &&& m.exploration is None
}

/// The completions a resolution leaves on record.
fn resolution_record(resolved: &Option<String>, outcome: Option<EncounterOutcome>) -> (completed: Vec<
    CompletedEncounter,
>)
    ensures
        records_resolution(completed@, *resolved, outcome),
{
    let mut completed: Vec<CompletedEncounter> = Vec::new();
    match (resolved, outcome) {
        (Some(r), Some(o)) => {
            completed.push(CompletedEncounter { encounter_id: r.clone(), outcome: o });
        },
        _ => {},
    }
    completed
}

/// Checks the campaign part of a schema-5 save: its resolved encounter and
/// outcome must be named together and become its one completion, its turn
/// owner becomes an actor, and the result is checked as a current save.
pub fn validate_schema_five_campaign_save(
    content: &AdventureContent,
    adventure: &AdventureDefinition,
    adventure_id: &D20Id,
    save: SchemaFiveCampaignSave,
) -> (result: Result<CampaignState, GameRuntimeError>)
    ensures
        save.resolved_encounter_id is Some != save.outcome is Some ==> result == Err::<
            CampaignState,
            GameRuntimeError,
        >(GameRuntimeError::InvalidSave(SaveProblem::SchemaFiveResolvedInconsistent)),
        save.resolved_encounter_id is Some == save.outcome is Some ==> match legacy_actor_of(
            *content,
            *adventure,
            text_of(save.active_encounter_id),
            save.turn_owner,
        ) {
            Err(e) => result == Err::<CampaignState, GameRuntimeError>(e),
            Ok(actor) => exists|m: CampaignSave|
                schema_five_migrated(save, actor, m) && save_verdict(*adventure, adventure_id@, m, result),
        },
{
    let ghost original = save;
    if save.resolved_encounter_id.is_some() != save.outcome.is_some() {
        return Err(GameRuntimeError::InvalidSave(SaveProblem::SchemaFiveResolvedInconsistent));
    }
    let actor = legacy_actor(content, adventure, &save.active_encounter_id, save.turn_owner)?;
    let completed = resolution_record(&save.resolved_encounter_id, save.outcome);
    let migrated = CampaignSave {
        adventure_id: save.adventure_id,
        phase: save.phase,
        active_encounter_id: save.active_encounter_id,
        resolved_encounter_id: save.resolved_encounter_id,
        current_actor_id: actor,
        outcome: save.outcome,
        completed_encounters: completed,
        exploration: None,
    };
    let ghost m = migrated;
    let result = validate_campaign_save(adventure, adventure_id, migrated);
    proof {
        assert(schema_five_migrated(original, actor, m));
    }
    result
}

/// The campaign part of a schema-4 save: its outcome but not the
/// encounter it resolved.
#[derive(Debug, PartialEq, Eq)]
pub struct SchemaFourCampaignSave {
    pub adventure_id: String,
    pub phase: CampaignPhase,
    pub active_encounter_id: Option<String>,
    pub turn_owner: Option<LegacyTurnOwner>,
    pub outcome: Option<EncounterOutcome>,
}

/// The encounter a schema-4 outcome resolved: the active one, else the
/// adventure's first; none without an outcome.
pub open spec fn schema_four_resolved(adventure: AdventureDefinition, save: SchemaFourCampaignSave) -> Option<
    Seq<char>,
> {
    if save.outcome is None {
        None
    } else {
        match text_of(save.active_encounter_id) {
            Some(a) => Some(a),
            None => if adventure.encounters@.len() > 0 {
                Some(adventure.encounters@[0]@)
            } else {
                None
            },
        }
    }
}

/// Whether `m` is the current-schema save a schema-4 save migrates to,
/// with `actor` as its current actor.
pub open spec fn schema_four_migrated(
    adventure: AdventureDefinition,
    save: SchemaFourCampaignSave,
    actor: Option<EntityId>,
    m: CampaignSave,
) -> bool {
    let resolved = schema_four_resolved(adventure, save);
    &&& m.adventure_id == save.adventure_id
    &&& m.phase == save.phase
    &&& m.active_encounter_id == save.active_encounter_id
    &&& text_of(m.resolved_encounter_id) == resolved
    &&& m.current_actor_id == actor
    &&& m.outcome == save.outcome
    &&& records_resolution(m.completed_encounters@, m.resolved_encounter_id, save.outcome)
    &&& m.exploration is None
}

/// Checks the campaign part of a schema-4 save: an outcome resolves the
/// active encounter (else the adventure's first) and becomes its one
/// completion, its turn owner becomes an actor, and the result is checked
/// as a current save.
pub fn validate_schema_four_campaign_save(
    content: &AdventureContent,
    adventure: &AdventureDefinition,
    adventure_id: &D20Id,
    save: SchemaFourCampaignSave,
) -> (result: Result<CampaignState, GameRuntimeError>)
    ensures
        match legacy_actor_of(*content, *adventure, text_of(save.active_encounter_id), save.turn_owner) {
            Err(e) => result == Err::<CampaignState, GameRuntimeError>(e),
            Ok(actor) => exists|m: CampaignSave|
                schema_four_migrated(*adventure, save, actor, m) && save_verdict(
                    *adventure,
                    adventure_id@,
                    m,
                    result,
                ),
        },
{
    let ghost original = save;
    let actor = legacy_actor(content, adventure, &save.active_encounter_id, save.turn_owner)?;
    let resolved: Option<String> = if save.outcome.is_some() {
        match &save.active_encounter_id {
            Some(a) => Some(a.clone()),
            None => if adventure.encounters.len() > 0 {
                Some(adventure.encounters[0].as_str().to_owned())
            } else {
                None
            },
        }
    } else {
        None
    };
    let completed = resolution_record(&resolved, save.outcome);
    let migrated = CampaignSave {
        adventure_id: save.adventure_id,
        phase: save.phase,
        active_encounter_id: save.active_encounter_id,
        resolved_encounter_id: resolved,
        current_actor_id: actor,
        outcome: save.outcome,
        completed_encounters: completed,
        exploration: None,
    };
    let ghost m = migrated;
    let result = validate_campaign_save(adventure, adventure_id, migrated);
    proof {
        assert(schema_four_migrated(*adventure, original, actor, m));
    }
    result
}

/// The phase of a schema-2 or schema-3 campaign.
#[derive(Debug, Clone, Copy, PartialEq, Eq, Structural)]
pub enum LegacyCampaignPhase {
    Camp,
    Encounter,
}

/// The campaign part of a schema-2 or schema-3 save.
#[derive(Debug, PartialEq, Eq)]
pub struct LegacyCampaignSave {
    pub adventure_id: String,
    pub phase: LegacyCampaignPhase,
    pub active_encounter_id: Option<String>,
}

/// The phase a schema-2 or schema-3 phase becomes.
pub open spec fn legacy_phase(phase: LegacyCampaignPhase) -> CampaignPhase {
    match phase {
        LegacyCampaignPhase::Camp => CampaignPhase::Camp,
        LegacyCampaignPhase::Encounter => CampaignPhase::Encounter,
    }
}

/// The turn owner a schema-2 or schema-3 campaign had: the player, in an
/// encounter.
pub open spec fn legacy_owner(phase: LegacyCampaignPhase) -> Option<LegacyTurnOwner> {
    match phase {
        LegacyCampaignPhase::Camp => None,
        LegacyCampaignPhase::Encounter => Some(LegacyTurnOwner::Player),
    }
}

/// Whether `m` is the current-schema save a schema-2 or schema-3 save
/// migrates to, with `actor` as its current actor.
pub open spec fn legacy_campaign_migrated(save: LegacyCampaignSave, actor: Option<EntityId>, m: CampaignSave) -> bool {
    &&& m.adventure_id == save.adventure_id
    &&& m.phase == legacy_phase(save.phase)
    &&& m.active_encounter_id == save.active_encounter_id
    &&& m.resolved_encounter_id is None
    &&& m.current_actor_id == actor
    &&& m.outcome is None
    &&& m.completed_encounters@.len() == 0
    &&& m.exploration is None
}

/// Checks the campaign part of a schema-2 or schema-3 save: a camp, or an
/// encounter the player is to act in, with nothing resolved yet, checked
/// as a current save.
pub fn validate_legacy_campaign_save(
    content: &AdventureContent,
    adventure: &AdventureDefinition,
    adventure_id: &D20Id,
    save: LegacyCampaignSave,
) -> (result: Result<CampaignState, GameRuntimeError>)
    ensures
        match legacy_actor_of(
            *content,
            *adventure,
            text_of(save.active_encounter_id),
            legacy_owner(save.phase),
        ) {
            Err(e) => result == Err::<CampaignState, GameRuntimeError>(e),
            Ok(actor) => exists|m: CampaignSave|
                legacy_campaign_migrated(save, actor, m) && save_verdict(
                    *adventure,
                    adventure_id@,
                    m,
                    result,
                ),
        },
{
    let ghost original = save;
    let (phase, owner) = match save.phase {
        LegacyCampaignPhase::Camp => (CampaignPhase::Camp, None),
        LegacyCampaignPhase::Encounter => (CampaignPhase::Encounter, Some(LegacyTurnOwner::Player)),
    };
    let actor = legacy_actor(content, adventure, &save.active_encounter_id, owner)?;
    let migrated = CampaignSave {
        adventure_id: save.adventure_id,
        phase,
        active_encounter_id: save.active_encounter_id,
        resolved_encounter_id: None,
        current_actor_id: actor,
        outcome: None,
        completed_encounters: Vec::new(),
        exploration: None,
    };
    let ghost m = migrated;
    let result = validate_campaign_save(adventure, adventure_id, migrated);
    proof {
        assert(legacy_campaign_migrated(original, actor, m));
    }
    result
}

/// What reading a save of schema 4 and before refuses when the default
/// adventure has no first encounter.
pub const NO_LEGACY_ENCOUNTER: &'static str = "default adventure does not define a legacy encounter";

/// The encounter saves of schema 4 and before were made in: the default
/// adventure's first.
pub fn legacy_encounter(adventure: &AdventureDefinition) -> (result: Result<String, GameRuntimeError>)
    ensures
        adventure.encounters@.len() > 0 ==> (result matches Ok(id) && id@ == adventure.encounters@[0]@),
        adventure.encounters@.len() == 0 ==> (result matches Err(GameRuntimeError::Catalog(message))
            && message@ == NO_LEGACY_ENCOUNTER@),
{
    if adventure.encounters.len() == 0 {
        return Err(GameRuntimeError::Catalog(NO_LEGACY_ENCOUNTER.to_owned()));
    }
    Ok(adventure.encounters[0].as_str().to_owned())
}

/// The campaign a schema-1 save resumes: the default adventure's first
/// encounter, with the player to act and nothing resolved.
pub open spec fn schema_one_campaign_of(encounter: Seq<char>, hero: EntityId, c: CampaignState) -> bool {
    &&& c.phase == CampaignPhase::Encounter
    &&& text_of(c.active_encounter_id) == Some(encounter)
    &&& c.resolved_encounter_id is None
    &&& c.current_actor_id == Some(hero)
    &&& c.outcome is None
    &&& c.completed_encounters@.len() == 0
    &&& c.exploration is None
}

/// The campaign a schema-1 save, which holds none, resumes with.
pub fn schema_one_campaign(content: &AdventureContent, adventure: &AdventureDefinition) -> (result:
    Result<CampaignState, GameRuntimeError>)
    ensures
        adventure.encounters@.len() == 0 ==> (result matches Err(GameRuntimeError::Catalog(message))
            && message@ == NO_LEGACY_ENCOUNTER@),
        adventure.encounters@.len() > 0 ==> match character_entity_of(
            *content,
            *adventure,
            adventure.hero@,
        ) {
            Err(e) => result == Err::<CampaignState, GameRuntimeError>(e),
            Ok(hero) => result matches Ok(c) && schema_one_campaign_of(
                adventure.encounters@[0]@,
                hero,
                c,
            ),
        },
{
    let encounter = legacy_encounter(adventure)?;
    let hero = character_entity(content, adventure, &adventure.hero)?;
    Ok(
        CampaignState {
            phase: CampaignPhase::Encounter,
            active_encounter_id: Some(encounter),
            resolved_encounter_id: None,
            current_actor_id: Some(hero),
            outcome: None,
            completed_encounters: Vec::new(),
            exploration: None,
        },
    )
}

} // verus!
