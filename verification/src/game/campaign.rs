use vstd::prelude::*;

use crate::component::index_of;
use crate::definitions::{contains_id, find_named, ids_view, names};
use crate::game::content::{
    completed_ids, first_open_from, is_completed, lemma_first_open_from, lemma_index_in_range,
    next_available_encounter_definition, next_available_of, AdventureContent, AdventureDefinition,
};
use crate::game::error::{CommandProblem, GameRuntimeError, SaveProblem, StateProblem};
use crate::game::exploration::{
    begin_exploration_state, checkpoint_from, dungeon_floor, exploration_command,
    exploration_next, exploration_state_valid, exploration_view_valid, find_checkpoint,
    insert_position, is_checkpoint_id, lemma_checkpoint_from, lemma_exploration_keeps_validity,
    lemma_exploration_valid_view, positions_sorted, validate_exploration_state, DungeonDefinition,
    ExplorationEvent, ExplorationState, ExplorationStateView,
};
use crate::game::dto::ExplorationCommandKindDto;
use crate::game::state::{CampaignPhase, CompletedEncounter, DungeonPosition, EncounterOutcome};
use crate::identity::D20Id;
use crate::session::error::EntityId;

verus! {

/// Where a campaign stands: its phase, the encounter it is in or has just
/// resolved, who acts, the last outcome, what it has completed, and where
/// the party stands in the dungeon.
#[derive(Debug, PartialEq, Eq)]
pub struct CampaignState {
    pub phase: CampaignPhase,
    pub active_encounter_id: Option<String>,
    pub resolved_encounter_id: Option<String>,
    pub current_actor_id: Option<EntityId>,
    pub outcome: Option<EncounterOutcome>,
    pub completed_encounters: Vec<CompletedEncounter>,
    pub exploration: Option<ExplorationState>,
}

/// The campaign part of a save, as read back.
#[derive(Debug, PartialEq, Eq)]
pub struct CampaignSave {
    pub adventure_id: String,
    pub phase: CampaignPhase,
    pub active_encounter_id: Option<String>,
    pub resolved_encounter_id: Option<String>,
    pub current_actor_id: Option<EntityId>,
    pub outcome: Option<EncounterOutcome>,
    pub completed_encounters: Vec<CompletedEncounter>,
    pub exploration: Option<ExplorationState>,
}

/// The text of an optional identity.
pub open spec fn text_of(value: Option<String>) -> Option<Seq<char>> {
    match value {
        Some(text) => Some(text@),
        None => None,
    }
}

/// Whether the completed encounters are, in order, the first authored
/// encounters of the campaign.
pub open spec fn authored_prefix(listed: Seq<Seq<char>>, completed: Seq<CompletedEncounter>) -> bool {
    &&& completed.len() <= listed.len()
    &&& forall|i: int| 0 <= i < completed.len() ==> #[trigger] completed[i].encounter_id@ == listed[i]
}

/// Whether the last completed encounter is `id` with `outcome`.
pub open spec fn latest_is(
    completed: Seq<CompletedEncounter>,
    id: Seq<char>,
    outcome: EncounterOutcome,
) -> bool {
    &&& completed.len() > 0
    &&& completed.last().encounter_id@ == id
    &&& completed.last().outcome == outcome
}

/// Whether the remembered outcome and resolved encounter agree with the
/// completed encounters: both absent before any completion, or both the
/// latest completion (a victory only, where `victory_only`).
pub open spec fn resolution_consistent(
    completed: Seq<CompletedEncounter>,
    outcome: Option<EncounterOutcome>,
    resolved: Option<Seq<char>>,
    victory_only: bool,
) -> bool {
    match (outcome, resolved) {
        (None, None) => completed.len() == 0,
        (Some(o), Some(r)) => (!victory_only || o == EncounterOutcome::Victory) && latest_is(
            completed,
            r,
            o,
        ),
        _ => false,
    }
}

/// Whether the dungeon triggers `encounter` at `position`.
pub open spec fn triggered_at(dungeon: DungeonDefinition, encounter: Seq<char>, position: DungeonPosition) -> bool {
    exists|k: int|
        0 <= k < dungeon.encounters@.len() && #[trigger] dungeon.encounters@[k].encounter@
            == encounter && dungeon.encounters@[k].x == position.x && dungeon.encounters@[k].y
            == position.y
}

/// Whether the phase agrees with the encounter fields: camp and
/// exploration have no active encounter or actor; an encounter is the next
/// authored one, has an actor and no outcome yet, and (while exploring) is
/// triggered where the party stands; an outcome names the encounter it
/// resolved as the latest completion; a finished adventure has completed
/// every authored encounter.
pub open spec fn phase_consistent(adventure: AdventureDefinition, c: CampaignState) -> bool {
    let listed = ids_view(adventure.encounters@);
    let completed = c.completed_encounters@;
    let active = text_of(c.active_encounter_id);
    let resolved = text_of(c.resolved_encounter_id);
    match c.phase {
        CampaignPhase::Camp => {
            &&& active is None
            &&& c.current_actor_id is None
            &&& resolution_consistent(completed, c.outcome, resolved, false)
        },
        CampaignPhase::Exploration => {
            &&& c.exploration is Some
            &&& active is None
            &&& c.current_actor_id is None
            &&& resolution_consistent(completed, c.outcome, resolved, true)
        },
        CampaignPhase::Encounter => match active {
            Some(a) => {
                &&& listed.contains(a)
                &&& resolved is None
                &&& c.current_actor_id is Some
                &&& c.outcome is None
                &&& completed.len() < listed.len()
                &&& listed[completed.len() as int] == a
                &&& c.exploration matches Some(e) ==> triggered_at(adventure.dungeon, a, e.position)
            },
            None => false,
        },
        CampaignPhase::Outcome => match active {
            Some(a) => {
                &&& listed.contains(a)
                &&& resolved == Some(a)
                &&& c.current_actor_id is None
                &&& c.outcome matches Some(o) && latest_is(completed, a, o)
            },
            None => false,
        },
        CampaignPhase::AdventureComplete => {
            &&& active is None
            &&& c.current_actor_id is None
            &&& completed.len() == listed.len()
            &&& c.outcome is Some
            &&& resolution_consistent(completed, c.outcome, resolved, false)
        },
    }
}

/// Whether a campaign is one the runtime can stand in: its completions are
/// the authored prefix, its exploration is valid for the dungeon, and its
/// phase agrees with its encounter fields.
pub open spec fn campaign_consistent(adventure: AdventureDefinition, c: CampaignState) -> bool {
    &&& authored_prefix(ids_view(adventure.encounters@), c.completed_encounters@)
    &&& c.exploration matches Some(e) ==> exploration_state_valid(adventure.dungeon, e)
    &&& phase_consistent(adventure, c)
}

/// The campaign a save describes.
pub open spec fn campaign_of_save(save: CampaignSave) -> CampaignState {
    CampaignState {
        phase: save.phase,
        active_encounter_id: save.active_encounter_id,
        resolved_encounter_id: save.resolved_encounter_id,
        current_actor_id: save.current_actor_id,
        outcome: save.outcome,
        completed_encounters: save.completed_encounters,
        exploration: save.exploration,
    }
}

/// Why a campaign save is refused, checked in this order; `None` when it
/// is accepted.
pub open spec fn campaign_save_problem(
    adventure: AdventureDefinition,
    adventure_id: Seq<char>,
    save: CampaignSave,
) -> Option<SaveProblem> {
    let c = campaign_of_save(save);
    if save.adventure_id@ != adventure_id {
        Some(SaveProblem::UnknownAdventure)
    } else if !authored_prefix(ids_view(adventure.encounters@), save.completed_encounters@) {
        Some(SaveProblem::CompletedNotAuthoredPrefix)
    } else if save.exploration matches Some(e) && !exploration_state_valid(adventure.dungeon, e) {
        Some(SaveProblem::InvalidExploration)
    } else if !phase_consistent(adventure, c) {
        Some(SaveProblem::PhaseInconsistent)
    } else {
        None
    }
}

/// Whether `text` is one of the identities.
pub fn lists_text(ids: &Vec<D20Id>, text: &String) -> (found: bool)
    ensures
        found == ids_view(ids@).contains(text@),
{
    let mut index: usize = 0;
    while index < ids.len()
        invariant
            0 <= index <= ids@.len(),
            forall|j: int| 0 <= j < index ==> ids@[j]@ != text@,
        decreases ids@.len() - index,
    {
        if ids[index].matches_text(text) {
            assert(ids_view(ids@)[index as int] == text@);
            return true;
        }
        index = index + 1;
    }
    assert forall|j: int| 0 <= j < ids_view(ids@).len() implies ids_view(ids@)[j] != text@ by {
        assert(ids@[j]@ != text@);
    }
    false
}

/// Whether the completed encounters are the authored prefix.
fn is_authored_prefix(listed: &Vec<D20Id>, completed: &Vec<CompletedEncounter>) -> (prefix: bool)
    ensures
        prefix == authored_prefix(ids_view(listed@), completed@),
{
    if completed.len() > listed.len() {
        return false;
    }
    let mut index: usize = 0;
    while index < completed.len()
        invariant
            0 <= index <= completed@.len() <= listed@.len(),
            forall|j: int| 0 <= j < index ==> #[trigger] completed@[j].encounter_id@ == ids_view(
                listed@,
            )[j],
        decreases completed@.len() - index,
    {
        if !listed[index].matches_text(&completed[index].encounter_id) {
            assert(completed@[index as int].encounter_id@ != ids_view(listed@)[index as int]);
            return false;
        }
        index = index + 1;
    }
    true
}

/// Whether the last completion is `id` with `outcome`.
fn is_latest(completed: &Vec<CompletedEncounter>, id: &String, outcome: EncounterOutcome) -> (latest:
    bool)
    ensures
        latest == latest_is(completed@, id@, outcome),
{
    if completed.len() == 0 {
        return false;
    }
    let last = &completed[completed.len() - 1];
    last.encounter_id == *id && last.outcome == outcome
}

/// Whether the outcome and resolved encounter agree with the completions.
fn resolution_holds(
    completed: &Vec<CompletedEncounter>,
    outcome: Option<EncounterOutcome>,
    resolved: &Option<String>,
    victory_only: bool,
) -> (holds: bool)
    ensures
        holds == resolution_consistent(completed@, outcome, text_of(*resolved), victory_only),
{
    match (outcome, resolved) {
        (None, None) => completed.len() == 0,
        (Some(o), Some(r)) => (!victory_only || o == EncounterOutcome::Victory) && is_latest(
            completed,
            r,
            o,
        ),
        _ => false,
    }
}

/// Whether the dungeon triggers `encounter` at `position`.
fn triggers_here(dungeon: &DungeonDefinition, encounter: &String, position: DungeonPosition) -> (found:
    bool)
    ensures
        found == triggered_at(*dungeon, encounter@, position),
{
    let mut index: usize = 0;
    while index < dungeon.encounters.len()
        invariant
            0 <= index <= dungeon.encounters@.len(),
            forall|k: int|
                0 <= k < index ==> !(#[trigger] dungeon.encounters@[k].encounter@ == encounter@
                    && dungeon.encounters@[k].x == position.x && dungeon.encounters@[k].y
                    == position.y),
        decreases dungeon.encounters@.len() - index,
    {
        let trigger = &dungeon.encounters[index];
        if trigger.encounter.matches_text(encounter) && trigger.x == position.x && trigger.y
            == position.y {
            return true;
        }
        index = index + 1;
    }
    false
}

/// Whether the phase agrees with the encounter fields.
fn phase_holds(adventure: &AdventureDefinition, c: &CampaignState) -> (holds: bool)
    ensures
        holds == phase_consistent(*adventure, *c),
{
    let listed = &adventure.encounters;
    let completed = &c.completed_encounters;
    match c.phase {
        CampaignPhase::Camp => c.active_encounter_id.is_none() && c.current_actor_id.is_none()
            && resolution_holds(completed, c.outcome, &c.resolved_encounter_id, false),
        CampaignPhase::Exploration => c.exploration.is_some() && c.active_encounter_id.is_none()
            && c.current_actor_id.is_none() && resolution_holds(
            completed,
            c.outcome,
            &c.resolved_encounter_id,
            true,
        ),
        CampaignPhase::Encounter => match &c.active_encounter_id {
            Some(a) => {
                if !(lists_text(listed, a) && c.resolved_encounter_id.is_none()
                    && c.current_actor_id.is_some() && c.outcome.is_none() && completed.len()
                    < listed.len()) {
                    return false;
                }
                if !listed[completed.len()].matches_text(a) {
                    return false;
                }
                match &c.exploration {
                    Some(e) => triggers_here(&adventure.dungeon, a, e.position),
                    None => true,
                }
            },
            None => false,
        },
        CampaignPhase::Outcome => match &c.active_encounter_id {
            Some(a) => {
                let resolved_same = match &c.resolved_encounter_id {
                    Some(r) => *r == *a,
                    None => false,
                };
                lists_text(listed, a) && resolved_same && c.current_actor_id.is_none() && match c.outcome {
                    Some(o) => is_latest(completed, a, o),
                    None => false,
                }
            },
            None => false,
        },
        CampaignPhase::AdventureComplete => c.active_encounter_id.is_none()
            && c.current_actor_id.is_none() && completed.len() == listed.len()
            && c.outcome.is_some() && resolution_holds(
            completed,
            c.outcome,
            &c.resolved_encounter_id,
            false,
        ),
    }
}

/// Checks the campaign part of a save against its adventure and returns
/// the campaign it describes.
pub fn validate_campaign_save(
    adventure: &AdventureDefinition,
    adventure_id: &D20Id,
    save: CampaignSave,
) -> (result: Result<CampaignState, GameRuntimeError>)
    ensures
        match campaign_save_problem(*adventure, adventure_id@, save) {
            Some(problem) => result == Err::<CampaignState, GameRuntimeError>(
                GameRuntimeError::InvalidSave(problem),
            ),
            None => result == Ok::<CampaignState, GameRuntimeError>(campaign_of_save(save)),
        },
{
    if !adventure_id.matches_text(&save.adventure_id) {
        return Err(GameRuntimeError::InvalidSave(SaveProblem::UnknownAdventure));
    }
    if !is_authored_prefix(&adventure.encounters, &save.completed_encounters) {
        return Err(GameRuntimeError::InvalidSave(SaveProblem::CompletedNotAuthoredPrefix));
    }
    if let Some(exploration) = &save.exploration {
        if validate_exploration_state(&adventure.dungeon, exploration).is_err() {
            return Err(GameRuntimeError::InvalidSave(SaveProblem::InvalidExploration));
        }
    }
    let campaign = CampaignState {
        phase: save.phase,
        active_encounter_id: save.active_encounter_id,
        resolved_encounter_id: save.resolved_encounter_id,
        current_actor_id: save.current_actor_id,
        outcome: save.outcome,
        completed_encounters: save.completed_encounters,
        exploration: save.exploration,
    };
    if !phase_holds(adventure, &campaign) {
        return Err(GameRuntimeError::InvalidSave(SaveProblem::PhaseInconsistent));
    }
    Ok(campaign)
}

/// The authored facts a campaign rests on: the encounters of the campaign
/// are distinct, the dungeon's start cell and every checkpoint are floor,
/// and the start checkpoint is authored.
pub open spec fn adventure_wf(adventure: AdventureDefinition) -> bool {
    let listed = ids_view(adventure.encounters@);
    let dungeon = adventure.dungeon;
    &&& forall|i: int, j: int| 0 <= i < j < listed.len() ==> #[trigger] listed[i] != #[trigger] listed[j]
    &&& dungeon_floor(dungeon, dungeon.start_x as int, dungeon.start_y as int)
    &&& is_checkpoint_id(dungeon, dungeon.start_checkpoint@)
    &&& forall|k: int|
        0 <= k < dungeon.checkpoints@.len() ==> dungeon_floor(
            dungeon,
            (#[trigger] dungeon.checkpoints@[k]).x as int,
            dungeon.checkpoints@[k].y as int,
        )
}

/// Every encounter of the adventure has a compiled definition.
pub open spec fn content_covers(content: AdventureContent, adventure: AdventureDefinition) -> bool {
    forall|k: int|
        0 <= k < adventure.encounters@.len() ==> index_of(
            names(content.encounters@),
            #[trigger] adventure.encounters@[k]@,
        ) is Some
}

/// The discovered cells of an exploration are kept sorted.
pub open spec fn exploration_sorted(c: CampaignState) -> bool {
    c.exploration matches Some(e) ==> positions_sorted(e.discovered@)
}

/// A campaign just begun: in camp, with nothing completed or explored.
pub open spec fn fresh_campaign(c: CampaignState) -> bool {
    &&& c.phase == CampaignPhase::Camp
    &&& c.active_encounter_id is None
    &&& c.resolved_encounter_id is None
    &&& c.current_actor_id is None
    &&& c.outcome is None
    &&& c.completed_encounters@.len() == 0
    &&& c.exploration is None
}

/// The campaign of a new adventure.
pub fn new_campaign() -> (c: CampaignState)
    ensures
        fresh_campaign(c),
{
    CampaignState {
        phase: CampaignPhase::Camp,
        active_encounter_id: None,
        resolved_encounter_id: None,
        current_actor_id: None,
        outcome: None,
        completed_encounters: Vec::new(),
        exploration: None,
    }
}

/// A new campaign is one the save accepts.
pub proof fn lemma_new_campaign_consistent(adventure: AdventureDefinition, c: CampaignState)
    requires
        fresh_campaign(c),
    ensures
        campaign_consistent(adventure, c),
        exploration_sorted(c),
{
}

/// Why starting `encounter` is refused, or the position of its
/// definition: it must be an encounter of the adventure, started from camp
/// (when camp may start it) or from its trigger cell while exploring, and
/// be the next authored encounter not yet completed.
pub open spec fn encounter_entry_of(
    content: AdventureContent,
    adventure: AdventureDefinition,
    c: CampaignState,
    encounter: Seq<char>,
) -> Result<int, GameRuntimeError> {
    let listed = ids_view(adventure.encounters@);
    let definition = index_of(names(content.encounters@), encounter);
    if !listed.contains(encounter) {
        Err(GameRuntimeError::InvalidCommand(CommandProblem::UnknownEncounter))
    } else if !(c.phase == CampaignPhase::Camp || c.phase == CampaignPhase::Exploration) {
        Err(GameRuntimeError::InvalidCommand(CommandProblem::EncounterNotFromHere))
    } else if c.phase == CampaignPhase::Camp && !content.encounters@[definition->0].available_from_camp {
        Err(GameRuntimeError::InvalidCommand(CommandProblem::EncounterNotAvailableFromCamp))
    } else if c.phase == CampaignPhase::Exploration && c.exploration is None {
        Err(GameRuntimeError::InvalidState(StateProblem::MissingExploration))
    } else if c.phase == CampaignPhase::Exploration && !triggered_at(
        adventure.dungeon,
        encounter,
        c.exploration->0.position,
    ) {
        Err(GameRuntimeError::InvalidCommand(CommandProblem::EncounterNotTriggeredHere))
    } else {
        match next_available_of(content, adventure, c.completed_encounters@) {
            Err(e) => Err(e),
            Ok(None) => Err(GameRuntimeError::InvalidCommand(CommandProblem::NoIncompleteEncounter)),
            Ok(Some(next)) => if content.encounters@[next].id@ != encounter {
                Err(GameRuntimeError::InvalidCommand(CommandProblem::NotNextEncounter))
            } else {
                Ok(definition->0)
            },
        }
    }
}

/// Decides whether the campaign may start `encounter`, and finds its
/// definition.
pub fn encounter_entry(
    content: &AdventureContent,
    adventure: &AdventureDefinition,
    c: &CampaignState,
    encounter: &D20Id,
) -> (result: Result<usize, GameRuntimeError>)
    requires
        content_covers(*content, *adventure),
    ensures
        match encounter_entry_of(*content, *adventure, *c, encounter@) {
            Ok(i) => result matches Ok(n) && n == i && i < content.encounters@.len(),
            Err(e) => result == Err::<usize, GameRuntimeError>(e),
        },
{
    if !contains_id(&adventure.encounters, encounter) {
        return Err(GameRuntimeError::InvalidCommand(CommandProblem::UnknownEncounter));
    }
    proof {
        let listed = ids_view(adventure.encounters@);
        let k = choose|k: int| 0 <= k < listed.len() && listed[k] == encounter@;
        assert(adventure.encounters@[k]@ == encounter@);
        lemma_index_in_range(content.encounters@, encounter@);
    }
    let definition = match find_named(&content.encounters, encounter) {
        Some(found) => found,
        None => {
            return Err(GameRuntimeError::InvalidState(StateProblem::MissingEncounter));
        },
    };
    let from_camp = match c.phase {
        CampaignPhase::Camp => true,
        CampaignPhase::Exploration => false,
        _ => {
            return Err(GameRuntimeError::InvalidCommand(CommandProblem::EncounterNotFromHere));
        },
    };
    if from_camp && !content.encounters[definition].available_from_camp {
        return Err(GameRuntimeError::InvalidCommand(CommandProblem::EncounterNotAvailableFromCamp));
    }
    if !from_camp {
        match &c.exploration {
            None => {
                return Err(GameRuntimeError::InvalidState(StateProblem::MissingExploration));
            },
            Some(e) => {
                let text = encounter.as_str().to_owned();
                if !triggers_here(&adventure.dungeon, &text, e.position) {
                    return Err(
                        GameRuntimeError::InvalidCommand(CommandProblem::EncounterNotTriggeredHere),
                    );
                }
            },
        }
    }
    match next_available_encounter_definition(content, adventure, &c.completed_encounters) {
        Err(e) => Err(e),
        Ok(None) => Err(GameRuntimeError::InvalidCommand(CommandProblem::NoIncompleteEncounter)),
        Ok(Some(next)) => if !content.encounters[next].id.same_as(encounter) {
            Err(GameRuntimeError::InvalidCommand(CommandProblem::NotNextEncounter))
        } else {
            Ok(definition)
        },
    }
}

/// A campaign that has started `encounter`, with `actor` to act first.
pub open spec fn entry_step(c: CampaignState, next: CampaignState, encounter: Seq<char>, actor: EntityId) -> bool {
    &&& next.phase == CampaignPhase::Encounter
    &&& text_of(next.active_encounter_id) == Some(encounter)
    &&& next.resolved_encounter_id is None
    &&& next.current_actor_id == Some(actor)
    &&& next.outcome is None
    &&& next.completed_encounters == c.completed_encounters
    &&& next.exploration == c.exploration
}

/// Moves the campaign into `encounter`, with `first_actor` to act.
pub fn begin_encounter(c: &mut CampaignState, encounter: &D20Id, first_actor: EntityId)
    ensures
        entry_step(*old(c), *final(c), encounter@, first_actor),
{
    c.phase = CampaignPhase::Encounter;
    c.active_encounter_id = Some(encounter.as_str().to_owned());
    c.resolved_encounter_id = None;
    c.current_actor_id = Some(first_actor);
    c.outcome = None;
}

/// The first authored encounter not yet completed follows the completed
/// prefix.
proof fn lemma_next_follows_prefix(listed: Seq<Seq<char>>, completed: Seq<CompletedEncounter>)
    requires
        authored_prefix(listed, completed),
        forall|i: int, j: int| 0 <= i < j < listed.len() ==> #[trigger] listed[i] != #[trigger] listed[j],
    ensures
        completed.len() < listed.len() ==> first_open_from(listed, completed_ids(completed), 0)
            == Some(completed.len() as int),
        completed.len() == listed.len() ==> first_open_from(listed, completed_ids(completed), 0)
            is None,
{
    let done = completed_ids(completed);
    lemma_first_open_from(listed, done, 0);
    assert forall|j: int| 0 <= j < completed.len() implies done.contains(#[trigger] listed[j]) by {
        assert(done[j] == completed[j].encounter_id@);
    }
    if completed.len() < listed.len() {
        let n = completed.len() as int;
        if done.contains(listed[n]) {
            let m = choose|m: int| 0 <= m < done.len() && done[m] == listed[n];
            assert(done[m] == completed[m].encounter_id@);
            assert(listed[m] != listed[n]);
        }
        match first_open_from(listed, done, 0) {
            Some(k) => {
                if k > n {
                    assert(done.contains(listed[n]));
                }
                if k < n {
                    assert(done.contains(listed[k]));
                }
            },
            None => {
                assert(done.contains(listed[n]));
            },
        }
    } else {
        match first_open_from(listed, done, 0) {
            Some(k) => {
                assert(done.contains(listed[k]));
            },
            None => {},
        }
    }
}

/// Starting an encounter the campaign may start keeps the campaign one the
/// save accepts. From camp, an exploration kept from earlier must stand on
/// the encounter's trigger.
pub proof fn lemma_entry_keeps_consistency(
    content: AdventureContent,
    adventure: AdventureDefinition,
    c: CampaignState,
    next: CampaignState,
    encounter: Seq<char>,
    actor: EntityId,
)
    requires
        adventure_wf(adventure),
        content_covers(content, adventure),
        campaign_consistent(adventure, c),
        exploration_sorted(c),
        encounter_entry_of(content, adventure, c, encounter) is Ok,
        c.phase == CampaignPhase::Camp && c.exploration is Some ==> triggered_at(
            adventure.dungeon,
            encounter,
            c.exploration->0.position,
        ),
        entry_step(c, next, encounter, actor),
    ensures
        campaign_consistent(adventure, next),
        exploration_sorted(next),
{
    let listed = ids_view(adventure.encounters@);
    let completed = c.completed_encounters@;
    lemma_next_follows_prefix(listed, completed);
    lemma_first_open_from(listed, completed_ids(completed), 0);
    let k = first_open_from(listed, completed_ids(completed), 0)->0;
    lemma_index_in_range(content.encounters@, listed[k]);
}

/// A campaign that has completed `encounter` with `outcome`: it is in the
/// outcome phase, remembers the encounter it resolved and the outcome, and
/// has the encounter appended to its completions.
pub open spec fn completion_step(
    c: CampaignState,
    next: CampaignState,
    encounter: Seq<char>,
    outcome: EncounterOutcome,
) -> bool {
    let before = c.completed_encounters@;
    let after = next.completed_encounters@;
    &&& next.phase == CampaignPhase::Outcome
    &&& next.active_encounter_id == c.active_encounter_id
    &&& text_of(next.resolved_encounter_id) == text_of(c.active_encounter_id)
    &&& next.current_actor_id is None
    &&& next.outcome == Some(outcome)
    &&& after.len() == before.len() + 1
    &&& after.take(before.len() as int) == before
    &&& after.last().encounter_id@ == encounter
    &&& after.last().outcome == outcome
    &&& next.exploration == c.exploration
}

/// Records the end of `encounter` with `outcome`. An encounter completed
/// before is refused and the campaign left as it was.
pub fn complete_campaign_encounter(
    c: &mut CampaignState,
    encounter: &D20Id,
    outcome: EncounterOutcome,
) -> (result: Result<(), GameRuntimeError>)
    ensures
        completed_ids(old(c).completed_encounters@).contains(encounter@) ==> result == Err::<
            (),
            GameRuntimeError,
        >(GameRuntimeError::InvalidState(StateProblem::EncounterAlreadyCompleted))
            && *final(c) == *old(c),
        !completed_ids(old(c).completed_encounters@).contains(encounter@) ==> result == Ok::<
            (),
            GameRuntimeError,
        >(()) && completion_step(*old(c), *final(c), encounter@, outcome),
{
    if is_completed(&c.completed_encounters, encounter) {
        return Err(GameRuntimeError::InvalidState(StateProblem::EncounterAlreadyCompleted));
    }
    let ghost before = c.completed_encounters@;
    c.phase = CampaignPhase::Outcome;
    c.resolved_encounter_id = match &c.active_encounter_id {
        Some(active) => Some(active.clone()),
        None => None,
    };
    c.current_actor_id = None;
    c.outcome = Some(outcome);
    c.completed_encounters.push(
        CompletedEncounter { encounter_id: encounter.as_str().to_owned(), outcome },
    );
    assert(c.completed_encounters@.take(before.len() as int) =~= before);
    Ok(())
}

/// Completing the encounter the campaign is in keeps the campaign one the
/// save accepts, and the encounter was never completed before.
pub proof fn lemma_completion_keeps_consistency(
    adventure: AdventureDefinition,
    c: CampaignState,
    next: CampaignState,
    encounter: Seq<char>,
    outcome: EncounterOutcome,
)
    requires
        adventure_wf(adventure),
        campaign_consistent(adventure, c),
        exploration_sorted(c),
        c.phase == CampaignPhase::Encounter,
        text_of(c.active_encounter_id) == Some(encounter),
        completion_step(c, next, encounter, outcome),
    ensures
        !completed_ids(c.completed_encounters@).contains(encounter),
        campaign_consistent(adventure, next),
        exploration_sorted(next),
{
    let listed = ids_view(adventure.encounters@);
    let before = c.completed_encounters@;
    let after = next.completed_encounters@;
    let done = completed_ids(before);
    if done.contains(encounter) {
        let m = choose|m: int| 0 <= m < done.len() && done[m] == encounter;
        assert(done[m] == before[m].encounter_id@);
        assert(listed[m] != listed[before.len() as int]);
    }
    assert(listed[before.len() as int] == encounter);
    assert forall|i: int| 0 <= i < after.len() implies #[trigger] after[i].encounter_id@
        == listed[i] by {
        if i < before.len() {
            assert(after.take(before.len() as int)[i] == after[i]);
            assert(before[i] == after[i]);
            assert(before[i].encounter_id@ == listed[i]);
        } else {
            assert(i == before.len());
            assert(after[i] == after.last());
        }
    }
}

/// The phase a campaign returns to after an outcome: the end of the
/// adventure once every encounter is completed, the dungeon after a
/// victory found while exploring, and camp otherwise.
pub open spec fn phase_after_outcome(c: CampaignState, adventure_complete: bool) -> CampaignPhase {
    if adventure_complete {
        CampaignPhase::AdventureComplete
    } else if c.outcome == Some(EncounterOutcome::Victory) && c.exploration is Some {
        CampaignPhase::Exploration
    } else {
        CampaignPhase::Camp
    }
}

/// Whether returning sends the party back to its checkpoint: it goes back
/// to camp while it has an exploration.
pub open spec fn returns_to_checkpoint(c: CampaignState, adventure_complete: bool) -> bool {
    phase_after_outcome(c, adventure_complete) == CampaignPhase::Camp && c.exploration is Some
}

/// Why leaving an outcome is refused: the outcome is missing, or the
/// party must go back to a checkpoint the dungeon does not have.
pub open spec fn return_problem(dungeon: DungeonDefinition, c: CampaignState, adventure_complete: bool) -> Option<
    StateProblem,
> {
    if c.outcome is None {
        Some(StateProblem::MissingOutcome)
    } else if returns_to_checkpoint(c, adventure_complete) && !is_checkpoint_id(
        dungeon,
        c.exploration->0.checkpoint_id@,
    ) {
        Some(StateProblem::MissingCheckpoint)
    } else {
        None
    }
}

/// An exploration sent back to its checkpoint: it stands on the
/// checkpoint, faces the dungeon's start direction, and has discovered the
/// checkpoint cell.
pub open spec fn at_checkpoint(
    dungeon: DungeonDefinition,
    before: ExplorationStateView,
    after: ExplorationStateView,
) -> bool {
    let k = checkpoint_from(dungeon.checkpoints@, before.checkpoint_id, 0)->0;
    let cell = DungeonPosition { x: dungeon.checkpoints@[k].x, y: dungeon.checkpoints@[k].y };
    after == ExplorationStateView {
        position: cell,
        facing: dungeon.start_facing,
        discovered: before.discovered.insert(cell),
        ..before
    }
}

/// A campaign that has left its outcome.
pub open spec fn return_step(
    dungeon: DungeonDefinition,
    c: CampaignState,
    next: CampaignState,
    adventure_complete: bool,
) -> bool {
    &&& next.phase == phase_after_outcome(c, adventure_complete)
    &&& next.active_encounter_id is None
    &&& next.current_actor_id is None
    &&& next.resolved_encounter_id == c.resolved_encounter_id
    &&& next.outcome == c.outcome
    &&& next.completed_encounters == c.completed_encounters
    &&& if returns_to_checkpoint(c, adventure_complete) {
        next.exploration matches Some(e) && positions_sorted(e.discovered@) && at_checkpoint(
            dungeon,
            c.exploration->0@,
            e@,
        )
    } else {
        next.exploration == c.exploration
    }
}

/// Leaves the outcome of an encounter: to the end of the adventure, back
/// into the dungeon, or to camp (and the party's checkpoint). A refusal
/// leaves the campaign as it was.
pub fn return_campaign_to_camp(
    dungeon: &DungeonDefinition,
    c: &mut CampaignState,
    adventure_complete: bool,
) -> (result: Result<CampaignPhase, GameRuntimeError>)
    requires
        exploration_sorted(*old(c)),
    ensures
        match return_problem(*dungeon, *old(c), adventure_complete) {
            Some(problem) => result == Err::<CampaignPhase, GameRuntimeError>(
                GameRuntimeError::InvalidState(problem),
            ) && *final(c) == *old(c),
            None => result == Ok::<CampaignPhase, GameRuntimeError>(
                phase_after_outcome(*old(c), adventure_complete),
            ) && return_step(*dungeon, *old(c), *final(c), adventure_complete),
        },
{
    let outcome = match c.outcome {
        Some(outcome) => outcome,
        None => {
            return Err(GameRuntimeError::InvalidState(StateProblem::MissingOutcome));
        },
    };
    let continue_exploring = outcome == EncounterOutcome::Victory && c.exploration.is_some()
        && !adventure_complete;
    let phase = if adventure_complete {
        CampaignPhase::AdventureComplete
    } else if continue_exploring {
        CampaignPhase::Exploration
    } else {
        CampaignPhase::Camp
    };
    let mut checkpoint: Option<DungeonPosition> = None;
    if !continue_exploring && !adventure_complete {
        if let Some(e) = &c.exploration {
            proof {
                lemma_checkpoint_from(dungeon.checkpoints@, e.checkpoint_id@, 0);
            }
            match find_checkpoint(dungeon, &e.checkpoint_id) {
                Some(k) => {
                    checkpoint = Some(
                        DungeonPosition { x: dungeon.checkpoints[k].x, y: dungeon.checkpoints[k].y },
                    );
                },
                None => {
                    return Err(GameRuntimeError::InvalidState(StateProblem::MissingCheckpoint));
                },
            }
        }
    }
    c.phase = phase;
    c.active_encounter_id = None;
    c.current_actor_id = None;
    if let Some(cell) = checkpoint {
        let taken = c.exploration.take();
        if let Some(mut e) = taken {
            e.position = cell;
            e.facing = dungeon.start_facing;
            insert_position(&mut e.discovered, cell);
            c.exploration = Some(e);
        }
    }
    Ok(phase)
}

/// Every authored encounter listed is among the completed ones.
proof fn lemma_all_completed(listed: Seq<Seq<char>>, completed: Seq<CompletedEncounter>)
    requires
        authored_prefix(listed, completed),
        forall|i: int, j: int| 0 <= i < j < listed.len() ==> #[trigger] listed[i] != #[trigger] listed[j],
        first_open_from(listed, completed_ids(completed), 0) is None,
    ensures
        completed.len() == listed.len(),
{
    lemma_next_follows_prefix(listed, completed);
}

/// Leaving an outcome keeps the campaign one the save accepts, provided
/// the end of the adventure is declared exactly when no encounter is left.
pub proof fn lemma_return_keeps_consistency(
    content: AdventureContent,
    adventure: AdventureDefinition,
    c: CampaignState,
    next: CampaignState,
    adventure_complete: bool,
)
    requires
        adventure_wf(adventure),
        campaign_consistent(adventure, c),
        exploration_sorted(c),
        c.phase == CampaignPhase::Outcome,
        next_available_of(content, adventure, c.completed_encounters@) matches Ok(found)
            && adventure_complete == (found is None),
        return_step(adventure.dungeon, c, next, adventure_complete),
    ensures
        return_problem(adventure.dungeon, c, adventure_complete) is None,
        campaign_consistent(adventure, next),
        exploration_sorted(next),
{
    let listed = ids_view(adventure.encounters@);
    let dungeon = adventure.dungeon;
    if adventure_complete {
        lemma_all_completed(listed, c.completed_encounters@);
    }
    if returns_to_checkpoint(c, adventure_complete) {
        let e = c.exploration->0;
        let e2 = next.exploration->0;
        lemma_exploration_valid_view(dungeon, e);
        lemma_checkpoint_from(dungeon.checkpoints@, e.checkpoint_id@, 0);
        let k = checkpoint_from(dungeon.checkpoints@, e.checkpoint_id@, 0)->0;
        assert(dungeon_floor(
            dungeon,
            dungeon.checkpoints@[k].x as int,
            dungeon.checkpoints@[k].y as int,
        ));
        lemma_exploration_valid_view(dungeon, e2);
    }
}

/// A campaign that has entered the dungeon from camp: it resumes its
/// exploration (rediscovering its own cell) or starts one at the dungeon's
/// start.
pub open spec fn exploration_entry_step(dungeon: DungeonDefinition, c: CampaignState, next: CampaignState) -> bool {
    &&& next.phase == CampaignPhase::Exploration
    &&& next.active_encounter_id is None
    &&& next.current_actor_id is None
    &&& next.resolved_encounter_id == c.resolved_encounter_id
    &&& next.outcome == c.outcome
    &&& next.completed_encounters == c.completed_encounters
    &&& next.exploration matches Some(e) && positions_sorted(e.discovered@) && match c.exploration {
        Some(s) => e@ == (ExplorationStateView { discovered: s@.discovered.insert(s.position), ..s@ }),
        None => e@ == (ExplorationStateView {
            position: DungeonPosition { x: dungeon.start_x, y: dungeon.start_y },
            facing: dungeon.start_facing,
            discovered: Set::empty().insert(DungeonPosition { x: dungeon.start_x, y: dungeon.start_y }),
            inspected_landmarks: Set::empty(),
            checkpoint_id: dungeon.start_checkpoint@,
            opened_doors: Set::empty(),
            collected_treasures: Set::empty(),
        }),
    }
}

/// Takes the party from camp into the dungeon.
pub fn begin_campaign_exploration(dungeon: &DungeonDefinition, c: &mut CampaignState)
    requires
        exploration_sorted(*old(c)),
    ensures
        exploration_entry_step(*dungeon, *old(c), *final(c)),
{
    let existing = c.exploration.take();
    c.exploration = Some(begin_exploration_state(dungeon, existing));
    c.phase = CampaignPhase::Exploration;
    c.active_encounter_id = None;
    c.current_actor_id = None;
}

/// Entering the dungeon from camp keeps the campaign one the save accepts,
/// unless the camp followed a defeat.
pub proof fn lemma_exploration_entry_keeps_consistency(
    adventure: AdventureDefinition,
    c: CampaignState,
    next: CampaignState,
)
    requires
        adventure_wf(adventure),
        campaign_consistent(adventure, c),
        exploration_sorted(c),
        c.phase == CampaignPhase::Camp,
        c.outcome != Some(EncounterOutcome::Defeat),
        exploration_entry_step(adventure.dungeon, c, next),
    ensures
        campaign_consistent(adventure, next),
        exploration_sorted(next),
{
    let dungeon = adventure.dungeon;
    let e2 = next.exploration->0;
    if let Some(e) = c.exploration {
        lemma_exploration_valid_view(dungeon, e);
        assert(e@.discovered.insert(e.position) =~= e@.discovered);
    } else {
        assert forall|t: Seq<char>| #[trigger] e2@.inspected_landmarks.contains(t) implies false by {
        }
    }
    lemma_exploration_valid_view(dungeon, e2);
}

/// A campaign whose party has carried out an exploration command.
pub open spec fn exploration_move_step(
    dungeon: DungeonDefinition,
    c: CampaignState,
    next: CampaignState,
    command: ExplorationCommandKindDto,
) -> bool {
    &&& c.exploration matches Some(e) && exploration_next(dungeon, e@, command) matches Ok((view, _))
        && next.exploration matches Some(e2) && e2@ == view && positions_sorted(e2.discovered@)
    &&& next.phase == c.phase
    &&& next.active_encounter_id == c.active_encounter_id
    &&& next.resolved_encounter_id == c.resolved_encounter_id
    &&& next.current_actor_id == c.current_actor_id
    &&& next.outcome == c.outcome
    &&& next.completed_encounters == c.completed_encounters
}

/// Carries out an exploration command on the campaign's exploration. A
/// refused command leaves the campaign as it was.
pub fn explore(
    dungeon: &DungeonDefinition,
    c: &mut CampaignState,
    command: ExplorationCommandKindDto,
) -> (result: Result<ExplorationEvent, GameRuntimeError>)
    requires
        exploration_sorted(*old(c)),
    ensures
        exploration_sorted(*final(c)),
        match old(c).exploration {
            None => result == Err::<ExplorationEvent, GameRuntimeError>(
                GameRuntimeError::InvalidState(StateProblem::MissingExploration),
            ) && *final(c) == *old(c),
            Some(e) => match exploration_next(*dungeon, e@, command) {
                Ok((_, event)) => result == Ok::<ExplorationEvent, GameRuntimeError>(event)
                    && exploration_move_step(*dungeon, *old(c), *final(c), command),
                Err(problem) => result == Err::<ExplorationEvent, GameRuntimeError>(
                    GameRuntimeError::InvalidCommand(problem),
                ) && (final(c).exploration matches Some(e2) && e2@ == e@) && final(c).phase
                    == old(c).phase,
            },
        },
{
    let taken = c.exploration.take();
    match taken {
        None => Err(GameRuntimeError::InvalidState(StateProblem::MissingExploration)),
        Some(mut e) => {
            let result = exploration_command(dungeon, &mut e, command);
            c.exploration = Some(e);
            result
        },
    }
}

/// Every exploration command the party carries out keeps the campaign one
/// the save accepts.
pub proof fn lemma_exploration_move_keeps_consistency(
    adventure: AdventureDefinition,
    c: CampaignState,
    next: CampaignState,
    command: ExplorationCommandKindDto,
)
    requires
        campaign_consistent(adventure, c),
        exploration_sorted(c),
        c.phase == CampaignPhase::Exploration,
        exploration_move_step(adventure.dungeon, c, next, command),
    ensures
        campaign_consistent(adventure, next),
        exploration_sorted(next),
{
    let dungeon = adventure.dungeon;
    let e = c.exploration->0;
    let e2 = next.exploration->0;
    lemma_exploration_valid_view(dungeon, e);
    lemma_exploration_keeps_validity(dungeon, e@, command);
    lemma_exploration_valid_view(dungeon, e2);
}

/// The campaign part of the save of `c` in the adventure `adventure_id`.
pub fn campaign_save(adventure_id: &D20Id, c: CampaignState) -> (save: CampaignSave)
    ensures
        save.adventure_id@ == adventure_id@,
        campaign_of_save(save) == c,
{
    CampaignSave {
        adventure_id: adventure_id.as_str().to_owned(),
        phase: c.phase,
        active_encounter_id: c.active_encounter_id,
        resolved_encounter_id: c.resolved_encounter_id,
        current_actor_id: c.current_actor_id,
        outcome: c.outcome,
        completed_encounters: c.completed_encounters,
        exploration: c.exploration,
    }
}

/// A campaign the runtime stands in is accepted when its save is read
/// back, and comes back unchanged.
pub proof fn lemma_saved_campaign_restores(
    adventure: AdventureDefinition,
    adventure_id: Seq<char>,
    c: CampaignState,
    save: CampaignSave,
)
    requires
        campaign_consistent(adventure, c),
        save.adventure_id@ == adventure_id,
        campaign_of_save(save) == c,
    ensures
        campaign_save_problem(adventure, adventure_id, save) is None,
{
}

/// The encounter a campaign refers to: its active encounter, else the one
/// it has resolved.
pub open spec fn encounter_key(c: CampaignState) -> Option<Seq<char>> {
    match text_of(c.active_encounter_id) {
        Some(active) => Some(active),
        None => text_of(c.resolved_encounter_id),
    }
}

/// The definition of the encounter a campaign is in or has just left: the
/// authored encounter it refers to, else the adventure's first.
pub open spec fn current_encounter_of(
    content: AdventureContent,
    adventure: AdventureDefinition,
    c: CampaignState,
) -> Result<int, GameRuntimeError> {
    let listed = ids_view(adventure.encounters@);
    let chosen = match encounter_key(c) {
        Some(key) => if listed.contains(key) {
            Some(key)
        } else {
            None
        },
        None => None,
    };
    let id = match chosen {
        Some(key) => Some(key),
        None => if listed.len() > 0 {
            Some(listed[0])
        } else {
            None
        },
    };
    match id {
        None => Err(GameRuntimeError::InvalidState(StateProblem::AdventureWithoutEncounter)),
        Some(key) => match index_of(names(content.encounters@), key) {
            Some(i) => Ok(i),
            None => Err(GameRuntimeError::InvalidState(StateProblem::MissingEncounter)),
        },
    }
}

/// Finds the definition of the encounter the campaign is in or has just
/// left, as a position in the content's encounters.
pub fn current_encounter_definition(
    content: &AdventureContent,
    adventure: &AdventureDefinition,
    c: &CampaignState,
) -> (result: Result<usize, GameRuntimeError>)
    ensures
        match current_encounter_of(*content, *adventure, *c) {
            Ok(i) => result matches Ok(n) && n == i && i < content.encounters@.len(),
            Err(e) => result == Err::<usize, GameRuntimeError>(e),
        },
{
    let key = match &c.active_encounter_id {
        Some(active) => Some(active),
        None => c.resolved_encounter_id.as_ref(),
    };
    let mut chosen: Option<usize> = None;
    if let Some(key) = key {
        let mut index: usize = 0;
        while index < adventure.encounters.len() && chosen.is_none()
            invariant
                0 <= index <= adventure.encounters@.len(),
                chosen is None ==> forall|j: int|
                    0 <= j < index ==> adventure.encounters@[j]@ != key@,
                chosen matches Some(i) ==> i < adventure.encounters@.len()
                    && adventure.encounters@[i as int]@ == key@,
            decreases adventure.encounters@.len() - index,
        {
            if adventure.encounters[index].matches_text(key) {
                chosen = Some(index);
            }
            index = index + 1;
        }
        match chosen {
            Some(i) => {
                assert(ids_view(adventure.encounters@)[i as int] == key@);
            },
            None => {
                assert forall|j: int| 0 <= j < ids_view(adventure.encounters@).len() implies ids_view(
                    adventure.encounters@,
                )[j] != key@ by {
                    assert(adventure.encounters@[j]@ != key@);
                }
            },
        }
    }
    let position = match chosen {
        Some(index) => index,
        None => {
            if adventure.encounters.len() == 0 {
                return Err(GameRuntimeError::InvalidState(StateProblem::AdventureWithoutEncounter));
            }
            0
        },
    };
    let encounter = &adventure.encounters[position];
    proof {
        lemma_index_in_range(content.encounters@, encounter@);
    }
    match find_named(&content.encounters, encounter) {
        Some(found) => Ok(found),
        None => Err(GameRuntimeError::InvalidState(StateProblem::MissingEncounter)),
    }
}

} // verus!
