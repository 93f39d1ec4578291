use vstd::prelude::*;
use vstd::utf8::encode_utf8;

use crate::component::{entries_view, AbilityScore, ActionResource, ActivationCost};
use crate::definitions::{find_named, names, ActionDefinition, DamageDefinition, ResourceDefinition};
use crate::game::campaign::{
    current_encounter_definition, current_encounter_of, text_of, CampaignState,
};
use crate::game::content::{
    next_available_encounter_definition, next_available_of, AdventureContent,
    AdventureDefinition,
};
use crate::game::dto::{
    AbilityReadoutDto, ActionDto, AdventureCompletionDto, AffinityReadoutDto, CampaignDto, CampaignOutcomeDto, CampaignPhaseDto,
    CompletedEncounterDto, EncounterChoiceDto, EncounterOutcomeKindDto, PartyMemberDto,
    ReactionDto, ResetSessionRequestDto, ResourceDto, SaveStateDto, SaveStatusDto,
};
use crate::game::error::{GameRuntimeError, SaveStaleness, SaveStalenessView, StateProblem};
use crate::game::state::{CampaignPhase, CompletedEncounter, EncounterOutcome};
use crate::game::support::{decimal_digits, plus_signed_digits, plus_signed_text, texts_view, u64_text};
use crate::game::text::{ascii_text, humanize, humanized};
use crate::component::index_of;
use crate::session::resolution::{ReactionOption, ScheduledEffect};
use crate::session::seed::{AffinitySeed, DamageAffinity};
use crate::identity::D20Id;

verus! {

/// The readable label of an identity text.
pub open spec fn label_of(id: Seq<char>) -> Seq<char> {
    ascii_text(humanized(encode_utf8(id)))
}

/// The protocol value of a campaign phase.
pub open spec fn phase_dto(phase: CampaignPhase) -> CampaignPhaseDto {
    match phase {
        CampaignPhase::Camp => CampaignPhaseDto::Camp,
        CampaignPhase::Exploration => CampaignPhaseDto::Exploration,
        CampaignPhase::Encounter => CampaignPhaseDto::Encounter,
        CampaignPhase::Outcome => CampaignPhaseDto::Outcome,
        CampaignPhase::AdventureComplete => CampaignPhaseDto::AdventureComplete,
    }
}

/// The protocol value of an encounter outcome.
pub open spec fn outcome_dto(outcome: EncounterOutcome) -> EncounterOutcomeKindDto {
    match outcome {
        EncounterOutcome::Victory => EncounterOutcomeKindDto::Victory,
        EncounterOutcome::Defeat => EncounterOutcomeKindDto::Defeat,
    }
}

/// The protocol value of a campaign phase, computed.
pub fn campaign_phase_dto(phase: CampaignPhase) -> (dto: CampaignPhaseDto)
    ensures
        dto == phase_dto(phase),
{
    match phase {
        CampaignPhase::Camp => CampaignPhaseDto::Camp,
        CampaignPhase::Exploration => CampaignPhaseDto::Exploration,
        CampaignPhase::Encounter => CampaignPhaseDto::Encounter,
        CampaignPhase::Outcome => CampaignPhaseDto::Outcome,
        CampaignPhase::AdventureComplete => CampaignPhaseDto::AdventureComplete,
    }
}

/// The protocol value of an encounter outcome, computed.
pub fn outcome_kind_dto(outcome: EncounterOutcome) -> (dto: EncounterOutcomeKindDto)
    ensures
        dto == outcome_dto(outcome),
{
    match outcome {
        EncounterOutcome::Victory => EncounterOutcomeKindDto::Victory,
        EncounterOutcome::Defeat => EncounterOutcomeKindDto::Defeat,
    }
}

/// A copy of a list of texts.
pub fn copy_texts(texts: &Vec<String>) -> (copy: Vec<String>)
    ensures
        texts_view(copy@) == texts_view(texts@),
{
    let mut copy: Vec<String> = Vec::new();
    let mut index: usize = 0;
    while index < texts.len()
        invariant
            0 <= index <= texts@.len(),
            texts_view(copy@) == texts_view(texts@.take(index as int)),
        decreases texts@.len() - index,
    {
        copy.push(texts[index].clone());
        assert(texts_view(texts@.take(index + 1)) =~= texts_view(texts@.take(index as int)).push(
            texts@[index as int]@,
        ));
        assert(texts_view(copy@) =~= texts_view(texts@.take(index as int)).push(texts@[index as int]@));
        index = index + 1;
    }
    assert(texts@.take(texts@.len() as int) =~= texts@);
    copy
}

/// The readouts of a character's ability scores: identity, label, score
/// and modifier.
pub fn project_abilities(scores: &Vec<AbilityScore>) -> (readouts: Vec<AbilityReadoutDto>)
    ensures
        readouts@.len() == scores@.len(),
        forall|i: int|
            0 <= i < scores@.len() ==> {
                let readout = #[trigger] readouts@[i];
                &&& readout.id@ == scores@[i].id@
                &&& readout.label@ == label_of(scores@[i].id@)
                &&& readout.score == scores@[i].value
                &&& readout.modifier == (scores@[i].value - 10) / 2
            },
{
    let mut readouts: Vec<AbilityReadoutDto> = Vec::new();
    let mut index: usize = 0;
    while index < scores.len()
        invariant
            0 <= index <= scores@.len(),
            readouts@.len() == index,
            forall|i: int|
                0 <= i < index ==> {
                    let readout = #[trigger] readouts@[i];
                    &&& readout.id@ == scores@[i].id@
                    &&& readout.label@ == label_of(scores@[i].id@)
                    &&& readout.score == scores@[i].value
                    &&& readout.modifier == (scores@[i].value - 10) / 2
                },
        decreases scores@.len() - index,
    {
        let score = &scores[index];
        readouts.push(
            AbilityReadoutDto {
                id: score.id.as_str().to_owned(),
                label: humanize(&score.id),
                score: score.value,
                modifier: crate::session::resolution::ability_modifier(score.value),
            },
        );
        index = index + 1;
    }
    readouts
}

/// Position, from `i` on, of the first resource without a definition.
pub open spec fn undefined_resource_from(
    definitions: Seq<ResourceDefinition>,
    resources: Seq<(Seq<char>, u16)>,
    i: nat,
) -> Option<int>
    decreases resources.len() - i,
{
    if i >= resources.len() {
        None
    } else if index_of(names(definitions), resources[i as int].0) is None {
        Some(i as int)
    } else {
        undefined_resource_from(definitions, resources, i + 1)
    }
}

/// The readouts of a character's resources: identity, label, current
/// amount and the authored maximum; a resource without a definition is an
/// inconsistent state.
pub fn project_resources(definitions: &Vec<ResourceDefinition>, resources: &Vec<ActionResource>) -> (result:
    Result<Vec<ResourceDto>, GameRuntimeError>)
    ensures
        undefined_resource_from(definitions@, entries_view(resources@), 0) is Some ==> result
            == Err::<Vec<ResourceDto>, GameRuntimeError>(
            GameRuntimeError::InvalidState(StateProblem::MissingResourceDefinition),
        ),
        undefined_resource_from(definitions@, entries_view(resources@), 0) is None ==> (result matches Ok(
            readouts,
        ) && readouts@.len() == resources@.len() && forall|i: int|
            0 <= i < resources@.len() ==> {
                let readout = #[trigger] readouts@[i];
                &&& readout.id@ == resources@[i].id@
                &&& readout.label@ == label_of(resources@[i].id@)
                &&& readout.current == resources@[i].value
                &&& readout.maximum == definitions@[index_of(
                    names(definitions@),
                    resources@[i].id@,
                )->0].maximum
            }),
{
    let ghost view = entries_view(resources@);
    let mut readouts: Vec<ResourceDto> = Vec::new();
    let mut index: usize = 0;
    while index < resources.len()
        invariant
            0 <= index <= resources@.len(),
            view == entries_view(resources@),
            readouts@.len() == index,
            undefined_resource_from(definitions@, view, 0) == undefined_resource_from(
                definitions@,
                view,
                index as nat,
            ),
            forall|i: int|
                0 <= i < index ==> {
                    let readout = #[trigger] readouts@[i];
                    &&& readout.id@ == resources@[i].id@
                    &&& readout.label@ == label_of(resources@[i].id@)
                    &&& readout.current == resources@[i].value
                    &&& readout.maximum == definitions@[index_of(
                        names(definitions@),
                        resources@[i].id@,
                    )->0].maximum
                },
        decreases resources@.len() - index,
    {
        let resource = &resources[index];
        assert(view[index as int].0 == resource.id@);
        match find_named(definitions, &resource.id) {
            None => {
                return Err(GameRuntimeError::InvalidState(StateProblem::MissingResourceDefinition));
            },
            Some(found) => {
                readouts.push(
                    ResourceDto {
                        id: resource.id.as_str().to_owned(),
                        label: humanize(&resource.id),
                        current: resource.value,
                        maximum: definitions[found].maximum,
                    },
                );
            },
        }
        index = index + 1;
    }
    Ok(readouts)
}

/// The readouts of the reactions a defender may take.
pub fn project_reactions(options: &Vec<ReactionOption>) -> (readouts: Vec<ReactionDto>)
    ensures
        readouts@.len() == options@.len(),
        forall|i: int|
            0 <= i < options@.len() ==> {
                let readout = #[trigger] readouts@[i];
                let option = options@[i]@;
                &&& readout.id@ == option.reaction
                &&& readout.label@ == label_of(option.reaction)
                &&& readout.resource@ == label_of(option.resource)
                &&& readout.cost == option.cost
                &&& readout.available == option.available
                &&& readout.bonus == option.bonus
                &&& readout.effect@ == label_of(option.effect)
            },
{
    let mut readouts: Vec<ReactionDto> = Vec::new();
    let mut index: usize = 0;
    while index < options.len()
        invariant
            0 <= index <= options@.len(),
            readouts@.len() == index,
            forall|i: int|
                0 <= i < index ==> {
                    let readout = #[trigger] readouts@[i];
                    let option = options@[i]@;
                    &&& readout.id@ == option.reaction
                    &&& readout.label@ == label_of(option.reaction)
                    &&& readout.resource@ == label_of(option.resource)
                    &&& readout.cost == option.cost
                    &&& readout.available == option.available
                    &&& readout.bonus == option.bonus
                    &&& readout.effect@ == label_of(option.effect)
                },
        decreases options@.len() - index,
    {
        let option = &options[index];
        readouts.push(
            ReactionDto {
                id: option.reaction().as_str().to_owned(),
                label: humanize(option.reaction()),
                resource: humanize(option.resource()),
                cost: option.cost(),
                available: option.available(),
                bonus: option.bonus(),
                effect: humanize(option.effect()),
            },
        );
        index = index + 1;
    }
    readouts
}

/// Position of the definition of the encounter named `text`.
pub open spec fn encounter_named(content: AdventureContent, text: Seq<char>) -> Option<int> {
    index_of(names(content.encounters@), text)
}

/// Position, from `i` on, of the first completion whose encounter has no
/// definition.
pub open spec fn unknown_completion_from(
    content: AdventureContent,
    completed: Seq<CompletedEncounter>,
    i: nat,
) -> Option<int>
    decreases completed.len() - i,
{
    if i >= completed.len() {
        None
    } else if encounter_named(content, completed[i as int].encounter_id@) is None {
        Some(i as int)
    } else {
        unknown_completion_from(content, completed, i + 1)
    }
}

/// The definition of the encounter named `text`, computed.
pub(crate) fn find_encounter_named(content: &AdventureContent, text: &String) -> (found: Option<usize>)
    ensures
        match encounter_named(*content, text@) {
            Some(k) => found matches Some(n) && n == k && k < content.encounters@.len(),
            None => found is None,
        },
{
    proof {
        crate::component::lemma_index_of_from(names(content.encounters@), text@, 0);
    }
    let mut index: usize = 0;
    while index < content.encounters.len()
        invariant
            0 <= index <= content.encounters@.len(),
            index_of(names(content.encounters@), text@) == crate::component::index_of_from(
                names(content.encounters@),
                text@,
                index as nat,
            ),
        decreases content.encounters@.len() - index,
    {
        assert(names(content.encounters@)[index as int].0 == content.encounters@[index as int].id@);
        if content.encounters[index].id.matches_text(text) {
            return Some(index);
        }
        index = index + 1;
    }
    None
}

/// The readouts of the completed encounters, in completion order.
pub fn project_completed(content: &AdventureContent, completed: &Vec<CompletedEncounter>) -> (result:
    Result<Vec<CompletedEncounterDto>, GameRuntimeError>)
    ensures
        unknown_completion_from(*content, completed@, 0) is Some ==> result == Err::<
            Vec<CompletedEncounterDto>,
            GameRuntimeError,
        >(GameRuntimeError::InvalidState(StateProblem::MissingEncounter)),
        unknown_completion_from(*content, completed@, 0) is None ==> (result matches Ok(readouts)
            && readouts@.len() == completed@.len() && forall|i: int|
            0 <= i < completed@.len() ==> {
                let readout = #[trigger] readouts@[i];
                &&& readout.encounter_id@ == completed@[i].encounter_id@
                &&& readout.title@ == content.encounters@[encounter_named(
                    *content,
                    completed@[i].encounter_id@,
                )->0].title@
                &&& readout.outcome == outcome_dto(completed@[i].outcome)
            }),
{
    let mut readouts: Vec<CompletedEncounterDto> = Vec::new();
    let mut index: usize = 0;
    while index < completed.len()
        invariant
            0 <= index <= completed@.len(),
            readouts@.len() == index,
            unknown_completion_from(*content, completed@, 0) == unknown_completion_from(
                *content,
                completed@,
                index as nat,
            ),
            forall|i: int|
                0 <= i < index ==> {
                    let readout = #[trigger] readouts@[i];
                    &&& readout.encounter_id@ == completed@[i].encounter_id@
                    &&& readout.title@ == content.encounters@[encounter_named(
                        *content,
                        completed@[i].encounter_id@,
                    )->0].title@
                    &&& readout.outcome == outcome_dto(completed@[i].outcome)
                },
        decreases completed@.len() - index,
    {
        let entry = &completed[index];
        match find_encounter_named(content, &entry.encounter_id) {
            None => {
                return Err(GameRuntimeError::InvalidState(StateProblem::MissingEncounter));
            },
            Some(found) => {
                readouts.push(
                    CompletedEncounterDto {
                        encounter_id: entry.encounter_id.clone(),
                        title: content.encounters[found].title.clone(),
                        outcome: outcome_kind_dto(entry.outcome),
                    },
                );
            },
        }
        index = index + 1;
    }
    Ok(readouts)
}

/// The entity of the item an encounter's victory rewards, if it has one.
pub open spec fn reward_entity_of(
    content: AdventureContent,
    encounter: crate::game::content::EncounterDefinition,
) -> Option<u64> {
    match encounter.reward_item {
        None => None,
        Some(item) => match index_of(names(content.items@), item@) {
            Some(k) => Some(content.items@[k].entity_id),
            None => None,
        },
    }
}

/// Whether a readout is the latest outcome of `encounter`.
pub open spec fn outcome_readout(
    content: AdventureContent,
    encounter: crate::game::content::EncounterDefinition,
    outcome: EncounterOutcome,
    readout: CampaignOutcomeDto,
) -> bool {
    &&& readout.kind == outcome_dto(outcome)
    &&& readout.encounter_id@ == encounter.id@
    &&& match outcome {
        EncounterOutcome::Victory => {
            &&& readout.title@ == encounter.victory.title@
            &&& readout.summary@ == encounter.victory.summary@
            &&& readout.reward_item_id == reward_entity_of(content, encounter)
            &&& text_of(readout.reward) == text_of(encounter.victory.reward_label)
        },
        EncounterOutcome::Defeat => {
            &&& readout.title@ == encounter.defeat.title@
            &&& readout.summary@ == encounter.defeat.summary@
            &&& readout.reward_item_id is None
            &&& readout.reward is None
        },
    }
}

/// Whether a readout is the completion of `adventure` with `outcome`.
pub open spec fn completion_readout(
    adventure: AdventureDefinition,
    outcome: EncounterOutcome,
    readout: AdventureCompletionDto,
) -> bool {
    let completion = adventure.completion;
    &&& readout.kind == outcome_dto(outcome)
    &&& readout.source@ == completion.source@
    &&& readout.title@ == (if outcome == EncounterOutcome::Victory {
        completion.victory_title@
    } else {
        completion.defeat_title@
    })
    &&& readout.text@ == (if outcome == EncounterOutcome::Victory {
        completion.victory_text@
    } else {
        completion.defeat_text@
    })
    &&& texts_view(readout.details@) == texts_view(completion.details@)
}

/// Whether `readout` is the campaign readout of `c`, with `party` as the
/// readouts of the party, the encounter at position `current` as the
/// current one and the encounter at position `offered` as the one camp
/// offers.
pub open spec fn campaign_readout(
    content: AdventureContent,
    adventure: AdventureDefinition,
    c: CampaignState,
    party: Vec<PartyMemberDto>,
    current: int,
    offered: Option<int>,
    readout: CampaignDto,
) -> bool {
    let encounter = content.encounters@[current];
    &&& readout.id@ == adventure.id@
    &&& readout.title@ == adventure.title@
    &&& readout.phase == phase_dto(c.phase)
    &&& readout.party == party
    &&& text_of(readout.active_encounter_id) == text_of(c.active_encounter_id)
    &&& match offered {
        Some(i) => readout.available_encounters@.len() == 1
            && readout.available_encounters@[0].id@ == content.encounters@[i].id@
            && readout.available_encounters@[0].title@ == content.encounters@[i].title@
            && readout.available_encounters@[0].summary@ == content.encounters@[i].summary@,
        None => readout.available_encounters@.len() == 0,
    }
    &&& match c.outcome {
        None => readout.latest_outcome is None,
        Some(outcome) => readout.latest_outcome matches Some(latest) && outcome_readout(
            content,
            encounter,
            outcome,
            latest,
        ),
    }
    &&& readout.completed_encounters@.len() == c.completed_encounters@.len()
    &&& forall|i: int|
        0 <= i < c.completed_encounters@.len() ==> {
            let entry = #[trigger] readout.completed_encounters@[i];
            &&& entry.encounter_id@ == c.completed_encounters@[i].encounter_id@
            &&& entry.title@ == content.encounters@[encounter_named(
                content,
                c.completed_encounters@[i].encounter_id@,
            )->0].title@
            &&& entry.outcome == outcome_dto(c.completed_encounters@[i].outcome)
        }
    &&& if c.phase == CampaignPhase::AdventureComplete && c.outcome is Some {
        readout.completion matches Some(completion) && completion_readout(
            adventure,
            c.outcome->0,
            completion,
        )
    } else {
        readout.completion is None
    }
}

/// The encounter camp offers, if any: only camp offers one.
pub open spec fn offered_of(
    content: AdventureContent,
    adventure: AdventureDefinition,
    c: CampaignState,
) -> Result<Option<int>, GameRuntimeError> {
    if c.phase == CampaignPhase::Camp {
        next_available_of(content, adventure, c.completed_encounters@)
    } else {
        Ok(None)
    }
}

/// The campaign readout of a snapshot, with `party` as the readouts of
/// the party members.
pub fn project_campaign(
    content: &AdventureContent,
    adventure: &AdventureDefinition,
    c: &CampaignState,
    party: Vec<PartyMemberDto>,
) -> (result: Result<CampaignDto, GameRuntimeError>)
    ensures
        match current_encounter_of(*content, *adventure, *c) {
            Err(e) => result == Err::<CampaignDto, GameRuntimeError>(e),
            Ok(current) => match offered_of(*content, *adventure, *c) {
                Err(e) => result == Err::<CampaignDto, GameRuntimeError>(e),
                Ok(offered) => if unknown_completion_from(
                    *content,
                    c.completed_encounters@,
                    0,
                ) is Some {
                    result == Err::<CampaignDto, GameRuntimeError>(
                        GameRuntimeError::InvalidState(StateProblem::MissingEncounter),
                    )
                } else {
                    result matches Ok(readout) && campaign_readout(
                        *content,
                        *adventure,
                        *c,
                        party,
                        current,
                        offered,
                        readout,
                    )
                },
            },
        },
{
    let current = current_encounter_definition(content, adventure, c)?;
    let offered = match c.phase {
        CampaignPhase::Camp => next_available_encounter_definition(
            content,
            adventure,
            &c.completed_encounters,
        )?,
        _ => None,
    };
    let completed = project_completed(content, &c.completed_encounters)?;
    let available = match offered {
        Some(i) => {
            let choice = &content.encounters[i];
            vec![
                EncounterChoiceDto {
                    id: choice.id.as_str().to_owned(),
                    title: choice.title.clone(),
                    summary: choice.summary.clone(),
                },
            ]
        },
        None => Vec::new(),
    };
    let encounter = &content.encounters[current];
    let latest = match c.outcome {
        None => None,
        Some(EncounterOutcome::Victory) => {
            let reward_item_id = match &encounter.reward_item {
                None => None,
                Some(item) => match find_named(&content.items, item) {
                    Some(k) => Some(content.items[k].entity_id),
                    None => None,
                },
            };
            let reward = match &encounter.victory.reward_label {
                Some(label) => Some(label.clone()),
                None => None,
            };
            Some(
                CampaignOutcomeDto {
                    kind: EncounterOutcomeKindDto::Victory,
                    encounter_id: encounter.id.as_str().to_owned(),
                    title: encounter.victory.title.clone(),
                    summary: encounter.victory.summary.clone(),
                    reward_item_id,
                    reward,
                },
            )
        },
        Some(EncounterOutcome::Defeat) => Some(
            CampaignOutcomeDto {
                kind: EncounterOutcomeKindDto::Defeat,
                encounter_id: encounter.id.as_str().to_owned(),
                title: encounter.defeat.title.clone(),
                summary: encounter.defeat.summary.clone(),
                reward_item_id: None,
                reward: None,
            },
        ),
    };
    let completion = match (c.phase, c.outcome) {
        (CampaignPhase::AdventureComplete, Some(outcome)) => {
            let finale = &adventure.completion;
            let victory = outcome == EncounterOutcome::Victory;
            Some(
                AdventureCompletionDto {
                    kind: outcome_kind_dto(outcome),
                    source: finale.source.clone(),
                    title: if victory {
                        finale.victory_title.clone()
                    } else {
                        finale.defeat_title.clone()
                    },
                    text: if victory {
                        finale.victory_text.clone()
                    } else {
                        finale.defeat_text.clone()
                    },
                    details: copy_texts(&finale.details),
                },
            )
        },
        _ => None,
    };
    let active = match &c.active_encounter_id {
        Some(active) => Some(active.clone()),
        None => None,
    };
    Ok(
        CampaignDto {
            id: adventure.id.as_str().to_owned(),
            title: adventure.title.clone(),
            phase: campaign_phase_dto(c.phase),
            party,
            active_encounter_id: active,
            available_encounters: available,
            latest_outcome: latest,
            completed_encounters: completed,
            completion,
        },
    )
}

/// The save status a host reports. A persistence error means recovery is
/// required and nothing more is told; otherwise the status is ready with
/// the campaign's identity and title while one is under way, empty
/// without one, and carries the revision.
pub open spec fn save_status_spec(
    save_identity: String,
    persistence_error: Option<String>,
    campaign: Option<(String, String)>,
    revision: u64,
) -> SaveStatusDto {
    match persistence_error {
        Some(error) => SaveStatusDto {
            save_identity,
            state: SaveStateDto::RecoveryRequired,
            campaign_id: None,
            campaign_title: None,
            revision: None,
            persistence_error: Some(error),
        },
        None => match campaign {
            Some((id, title)) => SaveStatusDto {
                save_identity,
                state: SaveStateDto::Ready,
                campaign_id: Some(id),
                campaign_title: Some(title),
                revision: Some(revision),
                persistence_error: None,
            },
            None => SaveStatusDto {
                save_identity,
                state: SaveStateDto::Empty,
                campaign_id: None,
                campaign_title: None,
                revision: Some(revision),
                persistence_error: None,
            },
        },
    }
}

/// Builds the save status of a host whose save is named `save_identity`.
pub fn save_status_of(
    save_identity: String,
    persistence_error: Option<String>,
    campaign: Option<(String, String)>,
    revision: u64,
) -> (status: SaveStatusDto)
    ensures
        status == save_status_spec(save_identity, persistence_error, campaign, revision),
{
    match persistence_error {
        Some(error) => SaveStatusDto {
            save_identity,
            state: SaveStateDto::RecoveryRequired,
            campaign_id: None,
            campaign_title: None,
            revision: None,
            persistence_error: Some(error),
        },
        None => match campaign {
            Some((id, title)) => SaveStatusDto {
                save_identity,
                state: SaveStateDto::Ready,
                campaign_id: Some(id),
                campaign_title: Some(title),
                revision: Some(revision),
                persistence_error: None,
            },
            None => SaveStatusDto {
                save_identity,
                state: SaveStateDto::Empty,
                campaign_id: None,
                campaign_title: None,
                revision: Some(revision),
                persistence_error: None,
            },
        },
    }
}

/// Why a reset request is refused, if it is: it must name the save the
/// host uses, and the campaign and the revision that save holds.
pub open spec fn reset_refusal(request: ResetSessionRequestDto, status: SaveStatusDto) -> Option<
    SaveStalenessView,
> {
    if request.expected_save_identity@ != status.save_identity@ {
        Some(
            SaveStalenessView::IdentityChanged {
                expected: request.expected_save_identity@,
                current: status.save_identity@,
            },
        )
    } else if request.expected_revision != status.revision || text_of(request.expected_adventure_id)
        != text_of(status.campaign_id) {
        Some(SaveStalenessView::CampaignChanged)
    } else {
        None
    }
}

fn same_text(a: &Option<String>, b: &Option<String>) -> (same: bool)
    ensures
        same == (text_of(*a) == text_of(*b)),
{
    match a {
        Some(x) => match b {
            Some(y) => {
                let equal = *x == *y;
                proof {
                    assert(equal == (x@ == y@));
                }
                equal
            },
            None => false,
        },
        None => b.is_none(),
    }
}

/// Checks a reset request against the save status it was written for.
pub fn check_reset(request: &ResetSessionRequestDto, status: &SaveStatusDto) -> (result: Result<
    (),
    GameRuntimeError,
>)
    ensures
        match reset_refusal(*request, *status) {
            None => result == Ok::<(), GameRuntimeError>(()),
            Some(stale) => result matches Err(GameRuntimeError::StaleSave(s)) && s@ == stale,
        },
{
    if request.expected_save_identity != status.save_identity {
        return Err(
            GameRuntimeError::StaleSave(
                SaveStaleness::IdentityChanged {
                    expected: request.expected_save_identity.clone(),
                    current: status.save_identity.clone(),
                },
            ),
        );
    }
    let same_revision = match (request.expected_revision, status.revision) {
        (Some(a), Some(b)) => a == b,
        (None, None) => true,
        _ => false,
    };
    if !same_revision || !same_text(&request.expected_adventure_id, &status.campaign_id) {
        return Err(GameRuntimeError::StaleSave(SaveStaleness::CampaignChanged));
    }
    Ok(())
}

/// The label of one activation cost: the amount, then the budget.
pub open spec fn cost_label(cost: ActivationCost) -> Seq<char> {
    decimal_digits(cost.value as nat) + " "@ + label_of(cost.id@)
}

/// Labels the activation costs of an action or reaction, in order.
pub fn activation_labels(costs: &Vec<ActivationCost>) -> (labels: Vec<String>)
    ensures
        texts_view(labels@) == costs@.map_values(|cost: ActivationCost| cost_label(cost)),
{
    let mut labels: Vec<String> = Vec::new();
    let mut index: usize = 0;
    while index < costs.len()
        invariant
            0 <= index <= costs@.len(),
            texts_view(labels@) == costs@.take(index as int).map_values(
                |cost: ActivationCost| cost_label(cost),
            ),
        decreases costs@.len() - index,
    {
        let cost = &costs[index];
        let mut label = u64_text(cost.value as u64);
        label.append(" ");
        let budget = humanize(&cost.id);
        label.append(budget.as_str());
        proof {
            assert(label@ =~= cost_label(costs@[index as int]));
        }
        let ghost before = labels@;
        labels.push(label);
        proof {
            assert(costs@.take(index as int + 1) =~= costs@.take(index as int).push(costs@[index as int]));
            assert(texts_view(labels@) =~= texts_view(before).push(cost_label(costs@[index as int])));
        }
        index = index + 1;
    }
    proof {
        assert(costs@.take(costs@.len() as int) =~= costs@);
    }
    labels
}

/// The label of a damage roll: dice, sides, signed bonus, and kind, as
/// in `2d6+1 Slashing`.
pub open spec fn damage_label_spec(damage: DamageDefinition) -> Seq<char> {
    decimal_digits(damage.dice as nat) + "d"@ + decimal_digits(damage.sides as nat)
        + plus_signed_digits(damage.bonus as int) + " "@ + label_of(damage.kind@)
}

/// Labels a damage roll.
pub fn damage_label(damage: &DamageDefinition) -> (label: String)
    ensures
        label@ == damage_label_spec(*damage),
{
    let mut label = u64_text(damage.dice as u64);
    label.append("d");
    let sides = u64_text(damage.sides as u64);
    label.append(sides.as_str());
    let bonus = plus_signed_text(damage.bonus as i64);
    label.append(bonus.as_str());
    label.append(" ");
    let kind = humanize(&damage.kind);
    label.append(kind.as_str());
    proof {
        assert(label@ =~= damage_label_spec(*damage));
    }
    label
}

fn labels_of(ids: &Vec<D20Id>) -> (labels: Vec<String>)
    ensures
        texts_view(labels@) == ids@.map_values(|id: D20Id| label_of(id@)),
{
    let mut labels: Vec<String> = Vec::new();
    let mut index: usize = 0;
    while index < ids.len()
        invariant
            0 <= index <= ids@.len(),
            texts_view(labels@) == ids@.take(index as int).map_values(|id: D20Id| label_of(id@)),
        decreases ids@.len() - index,
    {
        let label = humanize(&ids[index]);
        let ghost before = labels@;
        labels.push(label);
        proof {
            assert(ids@.take(index as int + 1) =~= ids@.take(index as int).push(ids@[index as int]));
            assert(texts_view(labels@) =~= texts_view(before).push(label_of(ids@[index as int]@)));
        }
        index = index + 1;
    }
    proof {
        assert(ids@.take(ids@.len() as int) =~= ids@);
    }
    labels
}

/// The readout of an authored action. `ability`, `defense` and `damage`
/// are its attack profile (its own, or its implement's), `implement` the
/// implement it uses, and `target` the description of its targeting.
pub fn project_action(
    action: &ActionDefinition,
    ability: &D20Id,
    defense: &D20Id,
    damage: &DamageDefinition,
    implement: Option<&D20Id>,
    target: String,
) -> (dto: ActionDto)
    ensures
        dto.id@ == action.id@,
        dto.label@ == label_of(action.id@),
        dto.ability@ == label_of(ability@),
        dto.defense@ == label_of(defense@),
        dto.damage@ == damage_label_spec(*damage),
        texts_view(dto.activation@) == action.activation_costs@.map_values(
            |cost: ActivationCost| cost_label(cost),
        ),
        dto.target == target,
        dto.range == action.range,
        text_of(dto.implement) == (match implement {
            Some(id) => Some(label_of(id@)),
            None => None,
        }),
        texts_view(dto.tags@) == action.tags@.map_values(|id: D20Id| label_of(id@)),
        text_of(dto.effect) == (match action.effect {
            Some(id) => Some(label_of(id@)),
            None => None,
        }),
        dto.forced_movement == action.forced_movement,
{
    let implement_label = match implement {
        Some(id) => Some(humanize(id)),
        None => None,
    };
    let effect_label = match &action.effect {
        Some(id) => Some(humanize(id)),
        None => None,
    };
    ActionDto {
        id: action.id.as_str().to_owned(),
        label: humanize(&action.id),
        ability: humanize(ability),
        defense: humanize(defense),
        damage: damage_label(damage),
        activation: activation_labels(&action.activation_costs),
        target,
        range: action.range,
        implement: implement_label,
        tags: labels_of(&action.tags),
        effect: effect_label,
        forced_movement: action.forced_movement,
    }
}

/// The label of a scheduled effect: its definition and the turn it lasts
/// through.
pub open spec fn effect_label(effect: ScheduledEffect) -> Seq<char> {
    label_of(effect.definition@) + " · through turn "@ + decimal_digits(effect.expires_at_turn as nat)
}

/// Labels a character's scheduled effects, which must match its active
/// effects one for one.
pub fn effect_labels(effects: &Vec<ScheduledEffect>, active_count: usize) -> (result: Result<
    Vec<String>,
    GameRuntimeError,
>)
    ensures
        active_count != effects@.len() ==> result == Err::<Vec<String>, GameRuntimeError>(
            GameRuntimeError::InvalidState(StateProblem::EffectsDiverged),
        ),
        active_count == effects@.len() ==> (result matches Ok(labels) && texts_view(labels@)
            == effects@.map_values(|effect: ScheduledEffect| effect_label(effect))),
{
    let mut labels: Vec<String> = Vec::new();
    let mut index: usize = 0;
    while index < effects.len()
        invariant
            0 <= index <= effects@.len(),
            texts_view(labels@) == effects@.take(index as int).map_values(
                |effect: ScheduledEffect| effect_label(effect),
            ),
        decreases effects@.len() - index,
    {
        let effect = &effects[index];
        let mut label = humanize(&effect.definition);
        label.append(" · through turn ");
        let turn = u64_text(effect.expires_at_turn);
        label.append(turn.as_str());
        proof {
            assert(label@ =~= effect_label(effects@[index as int]));
        }
        let ghost before = labels@;
        labels.push(label);
        proof {
            assert(effects@.take(index as int + 1) =~= effects@.take(index as int).push(
                effects@[index as int],
            ));
            assert(texts_view(labels@) =~= texts_view(before).push(effect_label(effects@[index as int])));
        }
        index = index + 1;
    }
    proof {
        assert(effects@.take(effects@.len() as int) =~= effects@);
    }
    if active_count != labels.len() {
        return Err(GameRuntimeError::InvalidState(StateProblem::EffectsDiverged));
    }
    Ok(labels)
}

/// The word for a damage affinity.
pub open spec fn affinity_word(affinity: DamageAffinity) -> Seq<char> {
    match affinity {
        DamageAffinity::Resistant => "resistant"@,
        DamageAffinity::Vulnerable => "vulnerable"@,
    }
}

/// The readouts of a character's damage affinities, in order.
pub fn project_affinities(affinities: &Vec<AffinitySeed>) -> (readouts: Vec<AffinityReadoutDto>)
    ensures
        readouts@.len() == affinities@.len(),
        forall|i: int|
            0 <= i < affinities@.len() ==> {
                let readout = #[trigger] readouts@[i];
                &&& readout.damage_type@ == affinities@[i].damage_type@
                &&& readout.label@ == label_of(affinities@[i].damage_type@)
                &&& readout.affinity@ == affinity_word(affinities@[i].affinity)
            },
{
    let mut readouts: Vec<AffinityReadoutDto> = Vec::new();
    let mut index: usize = 0;
    while index < affinities.len()
        invariant
            0 <= index <= affinities@.len(),
            readouts@.len() == index,
            forall|i: int|
                0 <= i < index ==> {
                    let readout = #[trigger] readouts@[i];
                    &&& readout.damage_type@ == affinities@[i].damage_type@
                    &&& readout.label@ == label_of(affinities@[i].damage_type@)
                    &&& readout.affinity@ == affinity_word(affinities@[i].affinity)
                },
        decreases affinities@.len() - index,
    {
        let affinity = &affinities[index];
        let word = match affinity.affinity {
            DamageAffinity::Resistant => "resistant".to_owned(),
            DamageAffinity::Vulnerable => "vulnerable".to_owned(),
        };
        readouts.push(
            AffinityReadoutDto {
                damage_type: affinity.damage_type.as_str().to_owned(),
                label: humanize(&affinity.damage_type),
                affinity: word,
            },
        );
        index = index + 1;
    }
    readouts
}

/// A reset request written against the save status the host reports is
/// accepted; one naming another save is refused as such, whatever else it
/// says.
pub proof fn lemma_reset_against_current_status(request: ResetSessionRequestDto, status: SaveStatusDto)
    ensures
        (request.expected_save_identity@ == status.save_identity@ && request.expected_revision
            == status.revision && text_of(request.expected_adventure_id) == text_of(
            status.campaign_id,
        )) ==> reset_refusal(request, status) is None,
        request.expected_save_identity@ != status.save_identity@ ==> reset_refusal(
            request,
            status,
        ) matches Some(SaveStalenessView::IdentityChanged { .. }),
{
}

} // verus!
