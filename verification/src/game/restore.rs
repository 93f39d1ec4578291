use vstd::prelude::*;

use crate::component::{entries_view, entry_value, index_of, value_of, EncounterFaction, TacticalPosition};
use crate::definitions::{find_named, ids_view, names};
use crate::game::campaign::{current_encounter_definition, current_encounter_of, CampaignState};
use crate::game::content::{
    character_entity, character_entity_of, lemma_index_in_range, AdventureContent,
    AdventureDefinition, EncounterParticipantDefinition,
};
use crate::game::error::{GameRuntimeError, SaveProblem};
use crate::game::state::{CampaignPhase, EncounterOutcome};
use crate::game::tactical::{board_floor, TacticalBoardDefinition};
use crate::identity::D20Id;
use crate::session::error::EntityId;

verus! {

/// The saved vitality of an entity, as the session holds it.
#[derive(Debug, Clone, Copy, PartialEq, Eq, Structural)]
pub struct VitalityFact {
    pub entity: EntityId,
    pub vitality: i64,
}

/// What the session holds about one encounter participant.
#[derive(Debug, PartialEq, Eq)]
pub struct ParticipationFact {
    pub entity: EntityId,
    pub encounter: D20Id,
    pub faction: EncounterFaction,
    pub initiative: i16,
    pub position: TacticalPosition,
}

/// What the authored roster expects of one participant.
#[derive(Debug, Clone, Copy, PartialEq, Eq, Structural)]
pub struct RosterFact {
    pub entity: EntityId,
    pub faction: EncounterFaction,
    pub initiative: i16,
}

/// Position, from `i` on, of the first vitality of `entity`.
pub open spec fn vitality_from(table: Seq<VitalityFact>, entity: EntityId, i: nat) -> Option<int>
    decreases table.len() - i,
{
    if i >= table.len() {
        None
    } else if table[i as int].entity == entity {
        Some(i as int)
    } else {
        vitality_from(table, entity, i + 1)
    }
}

proof fn lemma_vitality_from(table: Seq<VitalityFact>, entity: EntityId, i: nat)
    ensures
        vitality_from(table, entity, i) matches Some(k) ==> i <= k < table.len()
            && table[k].entity == entity,
    decreases table.len() - i,
{
    if i < table.len() {
        lemma_vitality_from(table, entity, i + 1);
    }
}

/// The saved vitality of `entity`; missing vitality refuses the save.
pub open spec fn saved_vitality_of(table: Seq<VitalityFact>, entity: EntityId) -> Result<
    i64,
    GameRuntimeError,
> {
    match vitality_from(table, entity, 0) {
        Some(k) => Ok(table[k].vitality),
        None => Err(GameRuntimeError::InvalidSave(SaveProblem::MissingVitality)),
    }
}

/// Looks up the saved vitality of `entity`.
pub fn saved_vitality(table: &Vec<VitalityFact>, entity: EntityId) -> (result: Result<
    i64,
    GameRuntimeError,
>)
    ensures
        result == saved_vitality_of(table@, entity),
{
    proof {
        lemma_vitality_from(table@, entity, 0);
    }
    let mut index: usize = 0;
    while index < table.len()
        invariant
            0 <= index <= table@.len(),
            vitality_from(table@, entity, 0) == vitality_from(table@, entity, index as nat),
        decreases table@.len() - index,
    {
        if table[index].entity == entity {
            return Ok(table[index].vitality);
        }
        index = index + 1;
    }
    Err(GameRuntimeError::InvalidSave(SaveProblem::MissingVitality))
}

/// The entities of the party members from position `i` on; the first
/// member that is not a character of the adventure refuses.
pub open spec fn party_entities_from(
    content: AdventureContent,
    adventure: AdventureDefinition,
    i: nat,
) -> Result<Seq<EntityId>, GameRuntimeError>
    decreases adventure.party@.len() - i,
{
    if i >= adventure.party@.len() {
        Ok(Seq::empty())
    } else {
        match character_entity_of(content, adventure, adventure.party@[i as int]@) {
            Err(e) => Err(e),
            Ok(entity) => match party_entities_from(content, adventure, i + 1) {
                Err(e) => Err(e),
                Ok(rest) => Ok(seq![entity] + rest),
            },
        }
    }
}

/// How many of `entities`, from position `i` on, have positive saved
/// vitality; an entity without vitality refuses.
pub open spec fn alive_from(table: Seq<VitalityFact>, entities: Seq<EntityId>, i: nat) -> Result<
    nat,
    GameRuntimeError,
>
    decreases entities.len() - i,
{
    if i >= entities.len() {
        Ok(0)
    } else {
        match saved_vitality_of(table, entities[i as int]) {
            Err(e) => Err(e),
            Ok(v) => match alive_from(table, entities, i + 1) {
                Err(e) => Err(e),
                Ok(n) => Ok(if v > 0 {
                    n + 1
                } else {
                    n
                }),
            },
        }
    }
}

/// How many party members have positive saved vitality.
pub open spec fn party_alive_of(
    content: AdventureContent,
    adventure: AdventureDefinition,
    table: Seq<VitalityFact>,
) -> Result<nat, GameRuntimeError> {
    match party_entities_from(content, adventure, 0) {
        Err(e) => Err(e),
        Ok(entities) => alive_from(table, entities, 0),
    }
}

/// Collects the entities of the party members.
pub fn party_entities(content: &AdventureContent, adventure: &AdventureDefinition) -> (result: Result<
    Vec<EntityId>,
    GameRuntimeError,
>)
    ensures
        match party_entities_from(*content, *adventure, 0) {
            Ok(entities) => result matches Ok(v) && v@ == entities,
            Err(e) => result == Err::<Vec<EntityId>, GameRuntimeError>(e),
        },
{
    let mut entities: Vec<EntityId> = Vec::new();
    let mut index: usize = 0;
    while index < adventure.party.len()
        invariant
            0 <= index <= adventure.party@.len(),
            party_entities_from(*content, *adventure, 0) == match party_entities_from(
                *content,
                *adventure,
                index as nat,
            ) {
                Ok(rest) => Ok(entities@ + rest),
                Err(e) => Err::<Seq<EntityId>, GameRuntimeError>(e),
            },
        decreases adventure.party@.len() - index,
    {
        match character_entity(content, adventure, &adventure.party[index]) {
            Err(e) => {
                return Err(e);
            },
            Ok(entity) => {
                proof {
                    match party_entities_from(*content, *adventure, (index + 1) as nat) {
                        Ok(rest) => {
                            assert(entities@ + (seq![entity] + rest) =~= entities@.push(entity)
                                + rest);
                        },
                        Err(_) => {},
                    }
                }
                entities.push(entity);
            },
        }
        index = index + 1;
    }
    assert(entities@ + Seq::<EntityId>::empty() =~= entities@);
    Ok(entities)
}

/// Counts the entities with positive saved vitality.
fn count_alive(table: &Vec<VitalityFact>, entities: &Vec<EntityId>) -> (result: Result<
    u64,
    GameRuntimeError,
>)
    ensures
        match alive_from(table@, entities@, 0) {
            Ok(n) => result matches Ok(k) && k == n && n <= entities@.len(),
            Err(e) => result == Err::<u64, GameRuntimeError>(e),
        },
{
    let mut vitalities: Vec<i64> = Vec::new();
    let mut index: usize = 0;
    while index < entities.len()
        invariant
            0 <= index <= entities@.len(),
            vitalities@.len() == index,
            forall|j: int| 0 <= j < index ==> saved_vitality_of(table@, entities@[j]) == Ok::<
                i64,
                GameRuntimeError,
            >(#[trigger] vitalities@[j]),
        decreases entities@.len() - index,
    {
        match saved_vitality(table, entities[index]) {
            Err(e) => {
                proof {
                    assert forall|j: int| 0 <= j < index implies saved_vitality_of(
                        table@,
                        entities@[j],
                    ) is Ok by {
                        assert(saved_vitality_of(table@, entities@[j]) == Ok::<
                            i64,
                            GameRuntimeError,
                        >(vitalities@[j]));
                    }
                    lemma_alive_first_error(table@, entities@, 0, index as nat);
                }
                return Err(e);
            },
            Ok(v) => {
                vitalities.push(v);
            },
        }
        index = index + 1;
    }
    let mut alive: u64 = 0;
    let mut counted: usize = entities.len();
    proof {
        lemma_alive_bounded(table@, entities@, entities@.len());
    }
    while counted > 0
        invariant
            0 <= counted <= entities@.len(),
            vitalities@.len() == entities@.len(),
            forall|j: int| 0 <= j < entities@.len() ==> saved_vitality_of(table@, entities@[j]) == Ok::<
                i64,
                GameRuntimeError,
            >(#[trigger] vitalities@[j]),
            alive_from(table@, entities@, counted as nat) == Ok::<nat, GameRuntimeError>(
                alive as nat,
            ),
            alive <= entities@.len() - counted,
        decreases counted,
    {
        counted = counted - 1;
        if vitalities[counted] > 0 {
            alive = alive + 1;
        }
    }
    Ok(alive)
}

/// Where every entity before `upto` has vitality, the count from `i`
/// fails exactly as the count from `upto`.
proof fn lemma_alive_first_error(table: Seq<VitalityFact>, entities: Seq<EntityId>, i: nat, upto: nat)
    requires
        i <= upto < entities.len(),
        forall|j: int| i <= j < upto ==> saved_vitality_of(table, entities[j]) is Ok,
        saved_vitality_of(table, entities[upto as int]) is Err,
    ensures
        alive_from(table, entities, i) == Err::<nat, GameRuntimeError>(
            saved_vitality_of(table, entities[upto as int])->Err_0,
        ),
    decreases upto - i,
{
    if i < upto {
        lemma_alive_first_error(table, entities, i + 1, upto);
    }
}

/// The count from the end is zero.
proof fn lemma_alive_bounded(table: Seq<VitalityFact>, entities: Seq<EntityId>, i: nat)
    requires
        i == entities.len(),
    ensures
        alive_from(table, entities, i) == Ok::<nat, GameRuntimeError>(0),
{
}

/// Every participant of a roster has a compiled character.
pub open spec fn roster_covered(content: AdventureContent, roster: Seq<EncounterParticipantDefinition>) -> bool {
    forall|k: int|
        0 <= k < roster.len() ==> index_of(names(content.characters@), #[trigger] roster[k].character@)
            is Some
}

/// What the roster from position `i` on expects of its participants: the
/// entity, faction and initiative ability score of each; `None` when a
/// character lacks that ability.
pub open spec fn roster_from(
    content: AdventureContent,
    roster: Seq<EncounterParticipantDefinition>,
    ability: Seq<char>,
    i: nat,
) -> Option<Seq<RosterFact>>
    decreases roster.len() - i,
{
    if i >= roster.len() {
        Some(Seq::empty())
    } else {
        let template = content.characters@[index_of(
            names(content.characters@),
            roster[i as int].character@,
        )->0];
        match value_of(entries_view(template.abilities@), ability) {
            None => None,
            Some(initiative) => match roster_from(content, roster, ability, i + 1) {
                None => None,
                Some(rest) => Some(
                    seq![
                        RosterFact {
                            entity: template.entity_id,
                            faction: roster[i as int].faction,
                            initiative,
                        },
                    ] + rest,
                ),
            },
        }
    }
}

/// Computes what the roster expects of its participants.
pub fn expected_roster(
    content: &AdventureContent,
    roster: &Vec<EncounterParticipantDefinition>,
    ability: &D20Id,
) -> (result: Option<Vec<RosterFact>>)
    requires
        roster_covered(*content, roster@),
    ensures
        match roster_from(*content, roster@, ability@, 0) {
            Some(facts) => result matches Some(v) && v@ == facts,
            None => result is None,
        },
{
    let mut facts: Vec<RosterFact> = Vec::new();
    let mut index: usize = 0;
    while index < roster.len()
        invariant
            0 <= index <= roster@.len(),
            roster_covered(*content, roster@),
            roster_from(*content, roster@, ability@, 0) == match roster_from(
                *content,
                roster@,
                ability@,
                index as nat,
            ) {
                Some(rest) => Some(facts@ + rest),
                None => None::<Seq<RosterFact>>,
            },
        decreases roster@.len() - index,
    {
        let participant = &roster[index];
        proof {
            lemma_index_in_range(content.characters@, participant.character@);
        }
        let template = match find_named(&content.characters, &participant.character) {
            Some(found) => &content.characters[found],
            None => {
                return None;
            },
        };
        match entry_value(&template.abilities, ability) {
            None => {
                return None;
            },
            Some(initiative) => {
                let fact = RosterFact {
                    entity: template.entity_id,
                    faction: participant.faction,
                    initiative,
                };
                proof {
                    match roster_from(*content, roster@, ability@, (index + 1) as nat) {
                        Some(rest) => {
                            assert(facts@ + (seq![fact] + rest) =~= facts@.push(fact) + rest);
                        },
                        None => {},
                    }
                }
                facts.push(fact);
            },
        }
        index = index + 1;
    }
    assert(facts@ + Seq::<RosterFact>::empty() =~= facts@);
    Some(facts)
}

/// Whether a participation fact is what a roster fact expects.
pub open spec fn fact_matches(fact: ParticipationFact, expected: RosterFact) -> bool {
    &&& fact.entity == expected.entity
    &&& fact.faction == expected.faction
    &&& fact.initiative == expected.initiative
}

/// Whether the participation is exactly the roster of `encounter`: one
/// fact per expected participant, all of them of that encounter.
pub open spec fn roster_matches(
    expected: Seq<RosterFact>,
    facts: Seq<ParticipationFact>,
    encounter: Seq<char>,
) -> bool {
    &&& facts.len() == expected.len()
    &&& forall|i: int| 0 <= i < facts.len() ==> #[trigger] facts[i].encounter@ == encounter
    &&& forall|j: int| 0 <= j < expected.len() ==> matched(facts, #[trigger] expected[j])
}

/// Whether some participation fact is what `expected` expects.
pub open spec fn matched(facts: Seq<ParticipationFact>, expected: RosterFact) -> bool {
    exists|i: int| 0 <= i < facts.len() && fact_matches(facts[i], expected)
}

/// Whether participants stand on distinct floor cells of the board.
pub open spec fn positions_valid(board: TacticalBoardDefinition, facts: Seq<ParticipationFact>) -> bool {
    &&& forall|i: int, j: int|
        0 <= i < j < facts.len() ==> #[trigger] facts[i].position != #[trigger] facts[j].position
    &&& forall|i: int|
        0 <= i < facts.len() ==> board_floor(
            board,
            (#[trigger] facts[i]).position.x as int,
            facts[i].position.y as int,
        )
}

/// Whether the participation is the roster, computed.
fn roster_holds(expected: &Vec<RosterFact>, facts: &Vec<ParticipationFact>, encounter: &D20Id) -> (holds:
    bool)
    ensures
        holds == roster_matches(expected@, facts@, encounter@),
{
    if facts.len() != expected.len() {
        return false;
    }
    let mut index: usize = 0;
    while index < facts.len()
        invariant
            0 <= index <= facts@.len(),
            forall|i: int| 0 <= i < index ==> #[trigger] facts@[i].encounter@ == encounter@,
        decreases facts@.len() - index,
    {
        if !facts[index].encounter.same_as(encounter) {
            return false;
        }
        index = index + 1;
    }
    let mut checked: usize = 0;
    while checked < expected.len()
        invariant
            0 <= checked <= expected@.len(),
            facts@.len() == expected@.len(),
            forall|i: int| 0 <= i < facts@.len() ==> #[trigger] facts@[i].encounter@ == encounter@,
            forall|j: int| 0 <= j < checked ==> matched(facts@, #[trigger] expected@[j]),
        decreases expected@.len() - checked,
    {
        let wanted = expected[checked];
        let mut found = false;
        let mut at: usize = 0;
        while at < facts.len() && !found
            invariant
                0 <= at <= facts@.len(),
                0 <= checked < expected@.len(),
                wanted == expected@[checked as int],
                found ==> exists|i: int| 0 <= i < facts@.len() && fact_matches(facts@[i], wanted),
                !found ==> forall|i: int| 0 <= i < at ==> !fact_matches(facts@[i], wanted),
            decreases facts@.len() - at,
        {
            let fact = &facts[at];
            if fact.entity == wanted.entity && fact.faction == wanted.faction && fact.initiative
                == wanted.initiative {
                found = true;
            }
            at = at + 1;
        }
        if !found {
            assert(!matched(facts@, expected@[checked as int]));
            return false;
        }
        assert(matched(facts@, expected@[checked as int]));
        checked = checked + 1;
    }
    true
}

/// Whether participants stand on distinct floor cells, computed.
fn positions_hold(board: &TacticalBoardDefinition, facts: &Vec<ParticipationFact>) -> (holds: bool)
    ensures
        holds == positions_valid(*board, facts@),
{
    let mut index: usize = 0;
    while index < facts.len()
        invariant
            0 <= index <= facts@.len(),
            forall|i: int, j: int|
                0 <= i < j < index ==> #[trigger] facts@[i].position != #[trigger] facts@[j].position,
            forall|i: int|
                0 <= i < index ==> board_floor(
                    *board,
                    (#[trigger] facts@[i]).position.x as int,
                    facts@[i].position.y as int,
                ),
        decreases facts@.len() - index,
    {
        let cell = facts[index].position;
        if !board.is_floor(cell.x, cell.y) {
            return false;
        }
        let mut before: usize = 0;
        while before < index
            invariant
                0 <= before <= index < facts@.len(),
                cell == facts@[index as int].position,
                forall|i: int| 0 <= i < before ==> facts@[i].position != cell,
            decreases index - before,
        {
            if facts[before].position == cell {
                assert(facts@[before as int].position == facts@[index as int].position);
                return false;
            }
            before = before + 1;
        }
        index = index + 1;
    }
    true
}

/// The entities, among the first `n` facts, of one faction.
pub open spec fn faction_entities(facts: Seq<ParticipationFact>, faction: EncounterFaction, n: nat) -> Seq<
    EntityId,
>
    decreases n,
{
    if n == 0 || n > facts.len() {
        Seq::empty()
    } else {
        let rest = faction_entities(facts, faction, (n - 1) as nat);
        if facts[n - 1].faction == faction {
            rest.push(facts[n - 1].entity)
        } else {
            rest
        }
    }
}

/// Collects the entities of one faction.
fn entities_of_faction(facts: &Vec<ParticipationFact>, faction: EncounterFaction) -> (entities: Vec<
    EntityId,
>)
    ensures
        entities@ == faction_entities(facts@, faction, facts@.len()),
{
    let mut entities: Vec<EntityId> = Vec::new();
    let mut index: usize = 0;
    while index < facts.len()
        invariant
            0 <= index <= facts@.len(),
            entities@ == faction_entities(facts@, faction, index as nat),
        decreases facts@.len() - index,
    {
        if facts[index].faction == faction {
            entities.push(facts[index].entity);
        }
        index = index + 1;
    }
    entities
}

/// Phases in which no encounter runs.
pub open spec fn resting(phase: CampaignPhase) -> bool {
    phase == CampaignPhase::Camp || phase == CampaignPhase::Exploration || phase
        == CampaignPhase::AdventureComplete
}

/// Whether the phase and outcome agree with who is alive: an encounter
/// under way has a living current participant and living members on both
/// sides; a victory leaves only the party standing and a defeat only the
/// opposition.
pub open spec fn outcome_agrees(
    c: CampaignState,
    table: Seq<VitalityFact>,
    facts: Seq<ParticipationFact>,
    party: nat,
    opposition: nat,
) -> bool {
    match (c.phase, c.outcome) {
        (CampaignPhase::Encounter, None) => {
            &&& c.current_actor_id matches Some(actor) && (exists|i: int|
                0 <= i < facts.len() && #[trigger] facts[i].entity == actor) && (saved_vitality_of(
                table,
                actor,
            ) matches Ok(v) && v > 0)
            &&& party > 0
            &&& opposition > 0
        },
        (CampaignPhase::Outcome, Some(EncounterOutcome::Victory)) => c.current_actor_id is None
            && party > 0 && opposition == 0,
        (CampaignPhase::Outcome, Some(EncounterOutcome::Defeat)) => c.current_actor_id is None
            && party == 0 && opposition > 0,
        _ => false,
    }
}

/// Whether the campaign's phase agrees with who is alive and who takes
/// part in an encounter, as a restored save must: at rest nobody acts, no
/// encounter is installed and some party member lives; otherwise the
/// participation is the current encounter's roster on distinct floor cells
/// and the outcome agrees with who is alive.
pub open spec fn campaign_vitality_of(
    content: AdventureContent,
    adventure: AdventureDefinition,
    c: CampaignState,
    ability: Seq<char>,
    table: Seq<VitalityFact>,
    facts: Seq<ParticipationFact>,
) -> Result<(), GameRuntimeError> {
    match party_alive_of(content, adventure, table) {
        Err(e) => Err(e),
        Ok(party_alive) => if resting(c.phase) {
            if c.current_actor_id is Some || facts.len() > 0 || party_alive == 0 {
                Err(GameRuntimeError::InvalidSave(SaveProblem::CampOrExplorationContradiction))
            } else {
                Ok(())
            }
        } else {
            match current_encounter_of(content, adventure, c) {
                Err(e) => Err(e),
                Ok(i) => {
                    let encounter = content.encounters@[i];
                    match roster_from(content, encounter.roster@, ability, 0) {
                        None => Err(GameRuntimeError::InvalidSave(SaveProblem::MissingInitiative)),
                        Some(expected) => if !roster_matches(expected, facts, encounter.id@) {
                            Err(GameRuntimeError::InvalidSave(SaveProblem::RosterMismatch))
                        } else if !positions_valid(encounter.board, facts) {
                            Err(GameRuntimeError::InvalidSave(SaveProblem::PositionsInvalid))
                        } else {
                            match (
                                alive_from(
                                    table,
                                    faction_entities(facts, EncounterFaction::Party, facts.len()),
                                    0,
                                ),
                                alive_from(
                                    table,
                                    faction_entities(
                                        facts,
                                        EncounterFaction::Opposition,
                                        facts.len(),
                                    ),
                                    0,
                                ),
                            ) {
                                (Err(e), _) => Err(e),
                                (Ok(_), Err(e)) => Err(e),
                                (Ok(party), Ok(opposition)) => if outcome_agrees(
                                    c,
                                    table,
                                    facts,
                                    party,
                                    opposition,
                                ) {
                                    Ok(())
                                } else {
                                    Err(
                                        GameRuntimeError::InvalidSave(
                                            SaveProblem::PhaseContradictsFactions {
                                                party_alive: party as u64,
                                                opposition_alive: opposition as u64,
                                            },
                                        ),
                                    )
                                },
                            }
                        },
                    }
                },
            }
        },
    }
}

/// Every encounter roster of the content has compiled characters.
pub open spec fn rosters_covered(content: AdventureContent) -> bool {
    forall|i: int|
        0 <= i < content.encounters@.len() ==> roster_covered(
            content,
            (#[trigger] content.encounters@[i]).roster@,
        )
}

/// Checks a restored campaign against the saved vitality and encounter
/// participation of its session. `ability` is the ability whose score is
/// the initiative.
pub fn validate_campaign_vitality(
    content: &AdventureContent,
    adventure: &AdventureDefinition,
    c: &CampaignState,
    ability: &D20Id,
    table: &Vec<VitalityFact>,
    facts: &Vec<ParticipationFact>,
) -> (result: Result<(), GameRuntimeError>)
    requires
        rosters_covered(*content),
    ensures
        result == campaign_vitality_of(*content, *adventure, *c, ability@, table@, facts@),
{
    let party = party_entities(content, adventure)?;
    let party_alive = count_alive(table, &party)?;
    let at_rest = match c.phase {
        CampaignPhase::Camp | CampaignPhase::Exploration | CampaignPhase::AdventureComplete => true,
        _ => false,
    };
    if at_rest {
        if c.current_actor_id.is_some() || facts.len() > 0 || party_alive == 0 {
            return Err(GameRuntimeError::InvalidSave(SaveProblem::CampOrExplorationContradiction));
        }
        return Ok(());
    }
    let position = current_encounter_definition(content, adventure, c)?;
    let encounter = &content.encounters[position];
    let expected = match expected_roster(content, &encounter.roster, ability) {
        Some(expected) => expected,
        None => {
            return Err(GameRuntimeError::InvalidSave(SaveProblem::MissingInitiative));
        },
    };
    if !roster_holds(&expected, facts, &encounter.id) {
        return Err(GameRuntimeError::InvalidSave(SaveProblem::RosterMismatch));
    }
    if !positions_hold(&encounter.board, facts) {
        return Err(GameRuntimeError::InvalidSave(SaveProblem::PositionsInvalid));
    }
    let party_side = entities_of_faction(facts, EncounterFaction::Party);
    let opposition_side = entities_of_faction(facts, EncounterFaction::Opposition);
    let party_count = count_alive(table, &party_side)?;
    let opposition_count = count_alive(table, &opposition_side)?;
    let valid = match (c.phase, c.outcome) {
        (CampaignPhase::Encounter, None) => match c.current_actor_id {
            Some(actor) => {
                let mut present = false;
                let mut index: usize = 0;
                while index < facts.len() && !present
                    invariant
                        0 <= index <= facts@.len(),
                        present ==> exists|i: int| 0 <= i < facts@.len() && #[trigger] facts@[i].entity == actor,
                        !present ==> forall|i: int| 0 <= i < index ==> facts@[i].entity != actor,
                    decreases facts@.len() - index,
                {
                    if facts[index].entity == actor {
                        present = true;
                    }
                    index = index + 1;
                }
                let living = match saved_vitality(table, actor) {
                    Ok(v) => v > 0,
                    Err(_) => false,
                };
                present && living && party_count > 0 && opposition_count > 0
            },
            None => false,
        },
        (CampaignPhase::Outcome, Some(EncounterOutcome::Victory)) => c.current_actor_id.is_none()
            && party_count > 0 && opposition_count == 0,
        (CampaignPhase::Outcome, Some(EncounterOutcome::Defeat)) => c.current_actor_id.is_none()
            && party_count == 0 && opposition_count > 0,
        _ => false,
    };
    if !valid {
        return Err(
            GameRuntimeError::InvalidSave(
                SaveProblem::PhaseContradictsFactions {
                    party_alive: party_count,
                    opposition_alive: opposition_count,
                },
            ),
        );
    }
    Ok(())
}

} // verus!
