use vstd::prelude::*;

use crate::component::{EncounterFaction, TacticalPosition};
use crate::game::content::{AdventureContent, EncounterParticipantDefinition};
use crate::game::error::{GameRuntimeError, StateProblem};
use crate::game::projection::{encounter_named, unknown_completion_from};
use crate::game::restore::{expected_roster, roster_covered, roster_from};
use crate::game::state::CompletedEncounter;
use crate::identity::D20Id;
use crate::session::runtime::EncounterParticipationSeed;

verus! {

/// The participation an encounter installs: for each participant of its
/// roster, the character's entity, faction and initiative ability score,
/// placed on its authored cell; `None` when a character lacks that ability.
pub open spec fn seeds_of(
    content: AdventureContent,
    roster: Seq<EncounterParticipantDefinition>,
    ability: Seq<char>,
) -> Option<Seq<EncounterParticipationSeed>> {
    match roster_from(content, roster, ability, 0) {
        None => None,
        Some(facts) => Some(
            Seq::new(
                facts.len(),
                |i: int|
                    EncounterParticipationSeed {
                        entity: facts[i].entity,
                        faction: facts[i].faction,
                        initiative: facts[i].initiative,
                        position: TacticalPosition { x: roster[i].x, y: roster[i].y },
                    },
            ),
        ),
    }
}

proof fn lemma_roster_length(
    content: AdventureContent,
    roster: Seq<EncounterParticipantDefinition>,
    ability: Seq<char>,
    i: nat,
)
    requires
        i <= roster.len(),
    ensures
        roster_from(content, roster, ability, i) matches Some(facts) ==> facts.len() == roster.len() - i,
    decreases roster.len() - i,
{
    if i < roster.len() {
        lemma_roster_length(content, roster, ability, i + 1);
    }
}

/// Builds the participation an encounter installs. A character without
/// the initiative ability is an inconsistent state.
pub fn participation_seeds(
    content: &AdventureContent,
    roster: &Vec<EncounterParticipantDefinition>,
    ability: &D20Id,
) -> (result: Result<Vec<EncounterParticipationSeed>, GameRuntimeError>)
    requires
        roster_covered(*content, roster@),
    ensures
        match seeds_of(*content, roster@, ability@) {
            Some(seeds) => result matches Ok(v) && v@ == seeds,
            None => result == Err::<Vec<EncounterParticipationSeed>, GameRuntimeError>(
                GameRuntimeError::InvalidState(StateProblem::MissingInitiative),
            ),
        },
{
    proof {
        lemma_roster_length(*content, roster@, ability@, 0);
    }
    let facts = match expected_roster(content, roster, ability) {
        Some(facts) => facts,
        None => {
            return Err(GameRuntimeError::InvalidState(StateProblem::MissingInitiative));
        },
    };
    let ghost expected = seeds_of(*content, roster@, ability@)->0;
    let mut seeds: Vec<EncounterParticipationSeed> = Vec::new();
    let mut index: usize = 0;
    while index < facts.len()
        invariant
            0 <= index <= facts@.len(),
            facts@.len() == roster@.len(),
            expected.len() == facts@.len(),
            forall|i: int|
                0 <= i < facts@.len() ==> #[trigger] expected[i] == (EncounterParticipationSeed {
                    entity: facts@[i].entity,
                    faction: facts@[i].faction,
                    initiative: facts@[i].initiative,
                    position: TacticalPosition { x: roster@[i].x, y: roster@[i].y },
                }),
            seeds@ == expected.take(index as int),
        decreases facts@.len() - index,
    {
        let fact = facts[index];
        let placement = &roster[index];
        let seed = EncounterParticipationSeed {
            entity: fact.entity,
            faction: fact.faction,
            initiative: fact.initiative,
            position: TacticalPosition { x: placement.x, y: placement.y },
        };
        assert(expected.take(index + 1) =~= expected.take(index as int).push(seed));
        seeds.push(seed);
        index = index + 1;
    }
    assert(expected.take(facts@.len() as int) =~= expected);
    Ok(seeds)
}

/// Whether the encounter at position `k` of the content has `character`
/// in its opposition.
pub open spec fn opposes_in(content: AdventureContent, k: int, character: Seq<char>) -> bool {
    exists|p: int|
        0 <= p < content.encounters@[k].roster@.len()
            && #[trigger] content.encounters@[k].roster@[p].faction == EncounterFaction::Opposition
            && content.encounters@[k].roster@[p].character@ == character
}

/// Whether a completed encounter had `character` in its opposition.
pub open spec fn completion_opposes(
    content: AdventureContent,
    entry: CompletedEncounter,
    character: Seq<char>,
) -> bool {
    match encounter_named(content, entry.encounter_id@) {
        Some(k) => opposes_in(content, k, character),
        None => false,
    }
}

/// Whether `character` stood in the opposition of a completed encounter.
pub open spec fn opposed_before(
    content: AdventureContent,
    completed: Seq<CompletedEncounter>,
    character: Seq<char>,
) -> bool {
    exists|j: int| 0 <= j < completed.len() && completion_opposes(content, #[trigger] completed[j], character)
}

/// The positions, from `i` on, of the roster's opponents that already
/// stood in the opposition of a completed encounter.
pub open spec fn returning_from(
    content: AdventureContent,
    completed: Seq<CompletedEncounter>,
    roster: Seq<EncounterParticipantDefinition>,
    i: nat,
) -> Seq<usize>
    decreases roster.len() - i,
{
    if i >= roster.len() {
        Seq::empty()
    } else {
        let rest = returning_from(content, completed, roster, i + 1);
        if roster[i as int].faction == EncounterFaction::Opposition && opposed_before(
            content,
            completed,
            roster[i as int].character@,
        ) {
            seq![i as usize] + rest
        } else {
            rest
        }
    }
}

/// Whether the encounter at `k` of the content has `character` in its
/// opposition, computed.
fn in_opposition(content: &AdventureContent, k: usize, character: &D20Id) -> (found: bool)
    requires
        k < content.encounters@.len(),
    ensures
        found == opposes_in(*content, k as int, character@),
{
    let roster = &content.encounters[k].roster;
    let mut index: usize = 0;
    while index < roster.len()
        invariant
            0 <= index <= roster@.len(),
            roster == content.encounters@[k as int].roster,
            forall|p: int|
                0 <= p < index ==> !(#[trigger] roster@[p].faction == EncounterFaction::Opposition
                    && roster@[p].character@ == character@),
        decreases roster@.len() - index,
    {
        let participant = &roster[index];
        if participant.faction == EncounterFaction::Opposition && participant.character.same_as(
            character,
        ) {
            return true;
        }
        index = index + 1;
    }
    false
}

/// Whether `character` stood in the opposition of a completed encounter,
/// computed, given that every completed encounter is defined.
fn was_opposed(content: &AdventureContent, completed: &Vec<CompletedEncounter>, character: &D20Id) -> (found:
    bool)
    requires
        unknown_completion_from(*content, completed@, 0) is None,
    ensures
        found == opposed_before(*content, completed@, character@),
{
    let mut index: usize = 0;
    while index < completed.len()
        invariant
            0 <= index <= completed@.len(),
            unknown_completion_from(*content, completed@, 0) == unknown_completion_from(
                *content,
                completed@,
                index as nat,
            ),
            unknown_completion_from(*content, completed@, 0) is None,
            forall|j: int|
                0 <= j < index ==> !completion_opposes(*content, #[trigger] completed@[j], character@),
        decreases completed@.len() - index,
    {
        let position = crate::game::projection::find_encounter_named(
            content,
            &completed[index].encounter_id,
        );
        match position {
            None => {
                return false;
            },
            Some(k) => {
                if in_opposition(content, k, character) {
                    return true;
                }
            },
        }
        index = index + 1;
    }
    false
}

/// Finds the opponents of an encounter that return from earlier
/// encounters (and so recover before it starts), as positions in its
/// roster. A completed encounter without a definition is an inconsistent
/// state.
pub fn returning_opponents(
    content: &AdventureContent,
    completed: &Vec<CompletedEncounter>,
    roster: &Vec<EncounterParticipantDefinition>,
) -> (result: Result<Vec<usize>, GameRuntimeError>)
    ensures
        unknown_completion_from(*content, completed@, 0) is Some ==> result == Err::<
            Vec<usize>,
            GameRuntimeError,
        >(GameRuntimeError::InvalidState(StateProblem::MissingEncounter)),
        unknown_completion_from(*content, completed@, 0) is None ==> (result matches Ok(v) && v@
            == returning_from(*content, completed@, roster@, 0)),
{
    let mut checked: usize = 0;
    while checked < completed.len()
        invariant
            0 <= checked <= completed@.len(),
            unknown_completion_from(*content, completed@, 0) == unknown_completion_from(
                *content,
                completed@,
                checked as nat,
            ),
        decreases completed@.len() - checked,
    {
        if crate::game::projection::find_encounter_named(content, &completed[checked].encounter_id).is_none() {
            return Err(GameRuntimeError::InvalidState(StateProblem::MissingEncounter));
        }
        checked = checked + 1;
    }
    let mut positions: Vec<usize> = Vec::new();
    let mut index: usize = roster.len();
    while index > 0
        invariant
            0 <= index <= roster@.len(),
            unknown_completion_from(*content, completed@, 0) is None,
            positions@ == returning_from(*content, completed@, roster@, index as nat),
        decreases index,
    {
        index = index - 1;
        let participant = &roster[index];
        if participant.faction == EncounterFaction::Opposition && was_opposed(
            content,
            completed,
            &participant.character,
        ) {
            let mut prefixed: Vec<usize> = Vec::new();
            prefixed.push(index);
            let mut k: usize = 0;
            while k < positions.len()
                invariant
                    0 <= k <= positions@.len(),
                    prefixed@ == seq![index] + positions@.take(k as int),
                decreases positions@.len() - k,
            {
                prefixed.push(positions[k]);
                assert(positions@.take(k + 1) =~= positions@.take(k as int).push(positions@[k as int]));
                assert(prefixed@ =~= seq![index] + positions@.take(k + 1));
                k = k + 1;
            }
            assert(positions@.take(positions@.len() as int) =~= positions@);
            positions = prefixed;
        }
    }
    Ok(positions)
}

} // verus!
