//! The catalog of authored adventures, the choice of a new adventure, and
//! what a snapshot of the runtime shows.

use vstd::prelude::*;

use crate::game::dto::{AdventureChoiceDto, NewAdventureRequestDto};
use crate::game::error::{CommandProblem, GameErrorView, GameRuntimeError, StaleRevision, StateProblem};
use crate::game::projection::copy_texts;
use crate::game::state::CampaignPhase;
use crate::game::support::texts_view;
use crate::identity::{id_parse_error, valid_d20_id_bytes, D20Id};
use vstd::utf8::encode_utf8;

verus! {

/// An adventure of the catalog, with what the choice screen shows of it.
#[derive(Debug, PartialEq, Eq)]
pub struct AdventureListing {
    pub id: D20Id,
    pub title: String,
    pub summary: String,
    pub details: Vec<String>,
    pub selectable: bool,
}

/// The texts of an adventure choice: identity, title, summary, details.
pub open spec fn choice_view(choice: AdventureChoiceDto) -> (Seq<char>, Seq<char>, Seq<char>, Seq<Seq<char>>) {
    (choice.id@, choice.title@, choice.summary@, texts_view(choice.details@))
}

/// The choices a catalog offers: its selectable adventures, in order.
pub open spec fn offered_choices(catalog: Seq<AdventureListing>) -> Seq<
    (Seq<char>, Seq<char>, Seq<char>, Seq<Seq<char>>),
>
    decreases catalog.len(),
{
    if catalog.len() == 0 {
        Seq::empty()
    } else {
        let rest = offered_choices(catalog.drop_last());
        let last = catalog.last();
        if last.selectable {
            rest.push((last.id@, last.title@, last.summary@, texts_view(last.details@)))
        } else {
            rest
        }
    }
}

/// Lists the adventures a player may start.
pub fn available_adventures(catalog: &Vec<AdventureListing>) -> (choices: Vec<AdventureChoiceDto>)
    ensures
        choices@.map_values(|choice: AdventureChoiceDto| choice_view(choice)) == offered_choices(
            catalog@,
        ),
{
    let mut choices: Vec<AdventureChoiceDto> = Vec::new();
    let mut index: usize = 0;
    while index < catalog.len()
        invariant
            0 <= index <= catalog@.len(),
            choices@.map_values(|choice: AdventureChoiceDto| choice_view(choice)) == offered_choices(
                catalog@.take(index as int),
            ),
        decreases catalog@.len() - index,
    {
        proof {
            assert(catalog@.take(index as int + 1).drop_last() =~= catalog@.take(index as int));
        }
        let listing = &catalog[index];
        if listing.selectable {
            let choice = AdventureChoiceDto {
                id: listing.id.as_str().to_owned(),
                title: listing.title.clone(),
                summary: listing.summary.clone(),
                details: copy_texts(&listing.details),
            };
            let ghost before = choices@;
            choices.push(choice);
            proof {
                assert(choices@.map_values(|choice: AdventureChoiceDto| choice_view(choice))
                    =~= before.map_values(|choice: AdventureChoiceDto| choice_view(choice)).push(
                    choice_view(choices@.last()),
                ));
            }
        }
        index = index + 1;
    }
    proof {
        assert(catalog@.take(catalog@.len() as int) =~= catalog@);
    }
    choices
}

/// Position of the first listing, from `i`, with identity `id`.
pub open spec fn listing_from(catalog: Seq<AdventureListing>, id: Seq<char>, i: nat) -> Option<int>
    decreases catalog.len() - i,
{
    if i >= catalog.len() {
        None
    } else if catalog[i as int].id@ == id {
        Some(i as int)
    } else {
        listing_from(catalog, id, i + 1)
    }
}

/// The outcome of a request for a new adventure: it must be written
/// against the current revision, with no adventure under way, and name a
/// selectable adventure of the catalog.
pub open spec fn selection_outcome(
    request: NewAdventureRequestDto,
    revision: u64,
    active: bool,
    catalog: Seq<AdventureListing>,
) -> Result<int, GameErrorView> {
    if request.expected_revision != revision {
        Err(
            GameErrorView::StaleCommand(
                StaleRevision { expected: request.expected_revision, current: revision },
            ),
        )
    } else if active {
        Err(GameErrorView::InvalidCommand(CommandProblem::AdventureAlreadyActive))
    } else if id_parse_error(request.adventure_id@) is Some {
        Err(GameErrorView::D20Identity(id_parse_error(request.adventure_id@)->0))
    } else {
        match listing_from(catalog, request.adventure_id@, 0) {
            None => Err(GameErrorView::InvalidCommand(CommandProblem::UnknownAdventure)),
            Some(k) => if !catalog[k].selectable {
                Err(GameErrorView::InvalidCommand(CommandProblem::AdventureNotSelectable))
            } else {
                Ok(k)
            },
        }
    }
}

/// Picks the adventure a request names, by its position in the catalog.
pub fn select_adventure(
    request: &NewAdventureRequestDto,
    revision: u64,
    active: bool,
    catalog: &Vec<AdventureListing>,
) -> (result: Result<usize, GameRuntimeError>)
    ensures
        match selection_outcome(*request, revision, active, catalog@) {
            Ok(k) => result matches Ok(i) && i == k,
            Err(view) => result matches Err(error) && error@ == view,
        },
{
    if request.expected_revision != revision {
        return Err(
            GameRuntimeError::StaleCommand(
                StaleRevision { expected: request.expected_revision, current: revision },
            ),
        );
    }
    if active {
        return Err(GameRuntimeError::InvalidCommand(CommandProblem::AdventureAlreadyActive));
    }
    let id = match D20Id::parse(request.adventure_id.clone()) {
        Err(error) => {
            return Err(GameRuntimeError::D20Identity(error));
        },
        Ok(id) => id,
    };
    let mut index: usize = 0;
    while index < catalog.len()
        invariant
            0 <= index <= catalog@.len(),
            id@ == request.adventure_id@,
            request.expected_revision == revision,
            !active,
            valid_d20_id_bytes(encode_utf8(request.adventure_id@)),
            listing_from(catalog@, id@, 0) == listing_from(catalog@, id@, index as nat),
        decreases catalog@.len() - index,
    {
        if catalog[index].id.same_as(&id) {
            if !catalog[index].selectable {
                return Err(GameRuntimeError::InvalidCommand(CommandProblem::AdventureNotSelectable));
            }
            return Ok(index);
        }
        index = index + 1;
    }
    Err(GameRuntimeError::InvalidCommand(CommandProblem::UnknownAdventure))
}

/// Refuses to start the selected adventure unless the request is current,
/// no adventure is under way, and the revision and the log can advance.
pub fn ensure_adventure_may_start(
    expected_revision: u64,
    revision: u64,
    active: bool,
    next_log_id: u64,
) -> (result: Result<(), GameRuntimeError>)
    ensures
        result == (if expected_revision != revision {
            Err(GameRuntimeError::StaleCommand(StaleRevision { expected: expected_revision, current: revision }))
        } else if active {
            Err(GameRuntimeError::InvalidCommand(CommandProblem::AdventureAlreadyActive))
        } else if revision == u64::MAX || next_log_id == u64::MAX {
            Err(GameRuntimeError::CounterOverflow)
        } else {
            Ok::<(), GameRuntimeError>(())
        }),
{
    if expected_revision != revision {
        return Err(
            GameRuntimeError::StaleCommand(
                StaleRevision { expected: expected_revision, current: revision },
            ),
        );
    }
    if active {
        return Err(GameRuntimeError::InvalidCommand(CommandProblem::AdventureAlreadyActive));
    }
    if revision == u64::MAX || next_log_id == u64::MAX {
        return Err(GameRuntimeError::CounterOverflow);
    }
    Ok(())
}

/// Which parts a snapshot projects.
#[derive(Debug, Clone, Copy, PartialEq, Eq, Structural)]
pub struct SnapshotPlan {
    pub campaign: bool,
    pub encounter: bool,
    pub exploration: bool,
}

/// A snapshot shows the campaign while one is under way, the encounter
/// during an encounter and its outcome, and the exploration from the
/// moment the party enters the dungeon until it returns. A campaign
/// without a session, or a session without a campaign, is refused.
pub open spec fn snapshot_plan_spec(phase: Option<CampaignPhase>, has_session: bool) -> Result<
    SnapshotPlan,
    GameRuntimeError,
> {
    match phase {
        None => if has_session {
            Err(GameRuntimeError::InvalidState(StateProblem::CampaignSessionDiverged))
        } else {
            Ok(SnapshotPlan { campaign: false, encounter: false, exploration: false })
        },
        Some(p) => if !has_session {
            Err(GameRuntimeError::InvalidState(StateProblem::CampaignSessionDiverged))
        } else {
            Ok(
                SnapshotPlan {
                    campaign: true,
                    encounter: p == CampaignPhase::Encounter || p == CampaignPhase::Outcome,
                    exploration: p == CampaignPhase::Exploration || p == CampaignPhase::Encounter
                        || p == CampaignPhase::Outcome,
                },
            )
        },
    }
}

/// Decides which parts a snapshot projects.
pub fn snapshot_plan(phase: Option<CampaignPhase>, has_session: bool) -> (result: Result<
    SnapshotPlan,
    GameRuntimeError,
>)
    ensures
        result == snapshot_plan_spec(phase, has_session),
{
    match phase {
        None => if has_session {
            Err(GameRuntimeError::InvalidState(StateProblem::CampaignSessionDiverged))
        } else {
            Ok(SnapshotPlan { campaign: false, encounter: false, exploration: false })
        },
        Some(p) => if !has_session {
            Err(GameRuntimeError::InvalidState(StateProblem::CampaignSessionDiverged))
        } else {
            let encounter = match p {
                CampaignPhase::Encounter | CampaignPhase::Outcome => true,
                _ => false,
            };
            let exploration = match p {
                CampaignPhase::Exploration | CampaignPhase::Encounter | CampaignPhase::Outcome => true,
                _ => false,
            };
            Ok(SnapshotPlan { campaign: true, encounter, exploration })
        },
    }
}

/// Whether the runtime can be written to a save: not while a reaction
/// prompt waits for an answer, and only with both a campaign and its
/// session.
pub open spec fn save_admission_of(pending_prompt: bool, has_campaign: bool, has_session: bool) -> Result<
    (),
    GameRuntimeError,
> {
    if pending_prompt {
        Err(GameRuntimeError::ReactionPromptCannotBeSaved)
    } else if !has_campaign || !has_session {
        Err(GameRuntimeError::NoEncounter)
    } else {
        Ok(())
    }
}

/// Decides whether the runtime can be written to a save.
pub fn save_admission(pending_prompt: bool, has_campaign: bool, has_session: bool) -> (result: Result<
    (),
    GameRuntimeError,
>)
    ensures
        result == save_admission_of(pending_prompt, has_campaign, has_session),
{
    if pending_prompt {
        return Err(GameRuntimeError::ReactionPromptCannotBeSaved);
    }
    if !has_campaign || !has_session {
        return Err(GameRuntimeError::NoEncounter);
    }
    Ok(())
}

/// Whether the runtime's state is the one last saved.
pub fn is_saved(saved_revision: Option<u64>, revision: u64) -> (saved: bool)
    ensures
        saved == (saved_revision == Some(revision)),
{
    match saved_revision {
        Some(saved) => saved == revision,
        None => false,
    }
}

} // verus!
