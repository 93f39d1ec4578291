use vstd::prelude::*;

use crate::component::{EncounterFaction, TacticalPosition};
use crate::game::encounter::{position_of_from, ParticipantStanding};
use crate::game::error::{CommandProblem, GameRuntimeError, PhaseRequirement, StateProblem};
use crate::game::state::CampaignPhase;
use crate::game::support::{decimal_digits, decimal_text, ensure_campaign_phase, ensure_mutation_capacity};
use crate::game::text::{ascii_text, humanize, humanized};
use crate::identity::D20Id;
use crate::session::error::{D20SessionError, EntityId};
use vstd::utf8::encode_utf8;

verus! {

/// The participant who owns the current activation, with its faction:
/// it must be named, take part in the encounter, and be alive.
pub open spec fn current_actor_spec(current: Option<EntityId>, order: Seq<ParticipantStanding>) -> Result<
    (EntityId, EncounterFaction),
    GameRuntimeError,
> {
    match current {
        None => Err(GameRuntimeError::InvalidState(StateProblem::CurrentActorMissing)),
        Some(actor) => match position_of_from(order, actor, 0) {
            None => Err(GameRuntimeError::InvalidState(StateProblem::CurrentActorNotParticipant)),
            Some(k) => if order[k].vitality == 0 {
                Err(GameRuntimeError::InvalidState(StateProblem::DefeatedCurrentActor))
            } else {
                Ok((actor, order[k].faction))
            },
        },
    }
}

/// Finds the owner of the current activation in the encounter's
/// participants.
pub fn current_actor_of(current: Option<EntityId>, order: &Vec<ParticipantStanding>) -> (result: Result<
    (EntityId, EncounterFaction),
    GameRuntimeError,
>)
    ensures
        result == current_actor_spec(current, order@),
{
    let actor = match current {
        None => {
            return Err(GameRuntimeError::InvalidState(StateProblem::CurrentActorMissing));
        },
        Some(actor) => actor,
    };
    let mut index: usize = 0;
    while index < order.len()
        invariant
            0 <= index <= order@.len(),
            current == Some(actor),
            position_of_from(order@, actor, 0) == position_of_from(order@, actor, index as nat),
        decreases order@.len() - index,
    {
        if order[index].entity == actor {
            if order[index].vitality == 0 {
                return Err(GameRuntimeError::InvalidState(StateProblem::DefeatedCurrentActor));
            }
            return Ok((actor, order[index].faction));
        }
        index = index + 1;
    }
    Err(GameRuntimeError::InvalidState(StateProblem::CurrentActorNotParticipant))
}

/// The requirement a command written for `expected`'s activation states.
pub open spec fn activation_requirement(expected: EncounterFaction) -> PhaseRequirement {
    match expected {
        EncounterFaction::Party => PhaseRequirement::PartyActivation,
        EncounterFaction::Opposition => PhaseRequirement::OppositionActivation,
    }
}

/// Refuses a command meant for one faction's activation while the other
/// faction acts.
pub fn ensure_current_faction(actual: EncounterFaction, expected: EncounterFaction) -> (result: Result<
    (),
    GameRuntimeError,
>)
    ensures
        result == (if actual == expected {
            Ok::<(), GameRuntimeError>(())
        } else {
            Err(GameRuntimeError::WrongPhase(activation_requirement(expected)))
        }),
{
    if actual == expected {
        Ok(())
    } else {
        match expected {
            EncounterFaction::Party => Err(GameRuntimeError::WrongPhase(PhaseRequirement::PartyActivation)),
            EncounterFaction::Opposition => Err(
                GameRuntimeError::WrongPhase(PhaseRequirement::OppositionActivation),
            ),
        }
    }
}

/// Whether the opposition may take its activation: an encounter is under
/// way, the current actor opposes the party, the counters can advance, and
/// no opposition action waits for a reaction. The first failing check is
/// reported.
pub open spec fn opposition_refusal(
    phase: Option<CampaignPhase>,
    actor: Result<(EntityId, EncounterFaction), GameRuntimeError>,
    revision: u64,
    next_operation: u64,
    next_log_id: u64,
    pending: bool,
) -> Option<GameRuntimeError> {
    match phase {
        None => Some(GameRuntimeError::NoEncounter),
        Some(p) => if p != CampaignPhase::Encounter {
            Some(GameRuntimeError::WrongPhase(PhaseRequirement::Encounter))
        } else {
            match actor {
                Err(error) => Some(error),
                Ok((_, faction)) => if faction != EncounterFaction::Opposition {
                    Some(GameRuntimeError::WrongPhase(PhaseRequirement::OppositionActivation))
                } else if revision == u64::MAX || next_operation == u64::MAX || next_log_id
                    == u64::MAX {
                    Some(GameRuntimeError::CounterOverflow)
                } else if pending {
                    Some(GameRuntimeError::InvalidCommand(CommandProblem::OppositionActionPending))
                } else {
                    None
                },
            }
        },
    }
}

/// Checks that the opposition may take its activation, and returns its
/// actor.
pub fn ensure_opposition_may_act(
    phase: Option<CampaignPhase>,
    actor: Result<(EntityId, EncounterFaction), GameRuntimeError>,
    revision: u64,
    next_operation: u64,
    next_log_id: u64,
    pending: bool,
) -> (result: Result<EntityId, GameRuntimeError>)
    ensures
        match opposition_refusal(phase, actor, revision, next_operation, next_log_id, pending) {
            Some(error) => result == Err::<EntityId, GameRuntimeError>(error),
            None => actor matches Ok((entity, _)) && result == Ok::<EntityId, GameRuntimeError>(
                entity,
            ),
        },
{
    match ensure_campaign_phase(phase, PhaseRequirement::Encounter) {
        Err(error) => {
            return Err(error);
        },
        Ok(()) => {},
    }
    let (entity, faction) = match actor {
        Err(error) => {
            return Err(error);
        },
        Ok(pair) => pair,
    };
    match ensure_current_faction(faction, EncounterFaction::Opposition) {
        Err(error) => {
            return Err(error);
        },
        Ok(()) => {},
    }
    match ensure_mutation_capacity(revision, next_operation, next_log_id, true, true) {
        Err(error) => {
            return Err(error);
        },
        Ok(()) => {},
    }
    if pending {
        return Err(GameRuntimeError::InvalidCommand(CommandProblem::OppositionActionPending));
    }
    Ok(entity)
}

/// The entities of the living participants in `order`, in order; with
/// `party_only`, those of the party alone.
pub open spec fn living_entities(order: Seq<ParticipantStanding>, party_only: bool) -> Seq<EntityId>
    decreases order.len(),
{
    if order.len() == 0 {
        Seq::empty()
    } else {
        let rest = living_entities(order.drop_last(), party_only);
        let last = order.last();
        if last.vitality > 0 && (!party_only || last.faction == EncounterFaction::Party) {
            rest.push(last.entity)
        } else {
            rest
        }
    }
}

/// Who the opposition may approach (the living party) and whom it may
/// target (every living participant), in initiative order.
pub fn opposition_targets(order: &Vec<ParticipantStanding>) -> (targets: (Vec<EntityId>, Vec<EntityId>))
    ensures
        targets.0@ == living_entities(order@, true),
        targets.1@ == living_entities(order@, false),
{
    let mut approach: Vec<EntityId> = Vec::new();
    let mut all: Vec<EntityId> = Vec::new();
    let mut index: usize = 0;
    while index < order.len()
        invariant
            0 <= index <= order@.len(),
            approach@ == living_entities(order@.take(index as int), true),
            all@ == living_entities(order@.take(index as int), false),
        decreases order@.len() - index,
    {
        let standing = order[index];
        proof {
            assert(order@.take(index as int + 1).drop_last() =~= order@.take(index as int));
        }
        if standing.vitality > 0 {
            all.push(standing.entity);
            match standing.faction {
                EncounterFaction::Party => approach.push(standing.entity),
                EncounterFaction::Opposition => {},
            }
        }
        index = index + 1;
    }
    proof {
        assert(order@.take(order@.len() as int) =~= order@);
    }
    (approach, all)
}

/// The squares a route of `path_len` cells crosses: all but its first.
pub open spec fn route_steps(path_len: nat) -> nat {
    if path_len == 0 {
        0
    } else {
        (path_len - 1) as nat
    }
}

/// The movement a route of `path_len` cells spends.
pub fn route_cost(path_len: usize) -> (result: Result<u16, GameRuntimeError>)
    ensures
        route_steps(path_len as nat) <= u16::MAX ==> result == Ok::<u16, GameRuntimeError>(
            route_steps(path_len as nat) as u16,
        ),
        route_steps(path_len as nat) > u16::MAX ==> result == Err::<u16, GameRuntimeError>(
            GameRuntimeError::CounterOverflow,
        ),
{
    let steps: usize = if path_len == 0 {
        0
    } else {
        path_len - 1
    };
    if steps > 65535 {
        Err(GameRuntimeError::CounterOverflow)
    } else {
        Ok(steps as u16)
    }
}

/// The bound handed to the choice policy: the number of legal choices.
pub fn choice_upper(legal: usize) -> (result: Result<u32, GameRuntimeError>)
    ensures
        legal <= u32::MAX ==> result == Ok::<u32, GameRuntimeError>(legal as u32),
        legal > u32::MAX ==> result == Err::<u32, GameRuntimeError>(
            GameRuntimeError::InvalidState(StateProblem::ChoiceCatalogTooLarge),
        ),
{
    if legal > 4294967295 {
        Err(GameRuntimeError::InvalidState(StateProblem::ChoiceCatalogTooLarge))
    } else {
        Ok(legal as u32)
    }
}

/// The legal choice the policy picked, as an index; the policy answers
/// within its bound or not at all.
pub fn chosen_index(choice: Option<u32>, upper: u32) -> (result: Result<usize, GameRuntimeError>)
    requires
        choice matches Some(i) ==> i < upper,
    ensures
        choice is None ==> result == Err::<usize, GameRuntimeError>(
            GameRuntimeError::InvalidState(StateProblem::NoAdmittedChoice),
        ),
        choice matches Some(i) ==> result matches Ok(k) && k == i && k < upper,
{
    match choice {
        None => Err(GameRuntimeError::InvalidState(StateProblem::NoAdmittedChoice)),
        Some(i) => Ok(i as usize),
    }
}

/// What the opposition's activation does next, after `moved` tells
/// whether it has already moved.
#[derive(Debug, Clone, Copy, PartialEq, Eq, Structural)]
pub enum OppositionStep {
    /// Move along the route toward the party, then look again.
    Relocate,
    /// End the activation: no legal action remains.
    Pass,
    /// Pick one of the legal actions.
    Choose,
}

/// The opposition acts when it can; with nothing in reach it first moves
/// along a route, once, and passes when still nothing is in reach.
pub open spec fn opposition_step_spec(legal: nat, has_route: bool, moved: bool) -> OppositionStep {
    if legal > 0 {
        OppositionStep::Choose
    } else if has_route && !moved {
        OppositionStep::Relocate
    } else {
        OppositionStep::Pass
    }
}

/// Decides the next step of the opposition's activation.
pub fn opposition_step(legal: usize, has_route: bool, moved: bool) -> (step: OppositionStep)
    ensures
        step == opposition_step_spec(legal as nat, has_route, moved),
{
    if legal > 0 {
        OppositionStep::Choose
    } else if has_route && !moved {
        OppositionStep::Relocate
    } else {
        OppositionStep::Pass
    }
}

/// Moving never follows a move: after one relocation the opposition
/// either chooses an action or passes.
pub proof fn lemma_opposition_moves_once(legal: nat, has_route: bool)
    ensures
        opposition_step_spec(legal, has_route, true) != OppositionStep::Relocate,
{
}

/// What the automatic opposition does next while it settles.
#[derive(Debug, Clone, Copy, PartialEq, Eq, Structural)]
pub enum SettleStep {
    /// The party acts, a reaction waits, or the encounter ended.
    Done,
    /// Take the opposition's next activation.
    Advance,
    /// The opposition kept acting past the bound.
    Exceeded,
}

/// Settling stops when a reaction waits, the encounter is over, or the
/// party acts; the opposition takes at most `bound` activations in a row.
pub open spec fn settle_step_spec(
    rounds: nat,
    bound: nat,
    waiting: bool,
    faction: EncounterFaction,
) -> SettleStep {
    if waiting || faction == EncounterFaction::Party {
        SettleStep::Done
    } else if rounds < bound {
        SettleStep::Advance
    } else {
        SettleStep::Exceeded
    }
}

/// Decides the next step of settling the automatic opposition, after
/// `rounds` opposition activations; `waiting` tells that a reaction waits
/// or that no encounter is under way.
pub fn settle_step(rounds: usize, bound: usize, waiting: bool, faction: EncounterFaction) -> (step:
    SettleStep)
    ensures
        step == settle_step_spec(rounds as nat, bound as nat, waiting, faction),
{
    if waiting {
        return SettleStep::Done;
    }
    match faction {
        EncounterFaction::Party => SettleStep::Done,
        EncounterFaction::Opposition => if rounds < bound {
            SettleStep::Advance
        } else {
            SettleStep::Exceeded
        },
    }
}

/// The refusal of a settling that ran past its bound.
pub fn settle_refusal(step: SettleStep) -> (result: Result<(), GameRuntimeError>)
    ensures
        step == SettleStep::Exceeded ==> result == Err::<(), GameRuntimeError>(
            GameRuntimeError::InvalidState(StateProblem::OppositionBoundExceeded),
        ),
        step != SettleStep::Exceeded ==> result == Ok::<(), GameRuntimeError>(()),
{
    match step {
        SettleStep::Exceeded => Err(GameRuntimeError::InvalidState(StateProblem::OppositionBoundExceeded)),
        _ => Ok(()),
    }
}

/// Settling always ends: past the bound it never advances again.
pub proof fn lemma_settle_bounded(rounds: nat, bound: nat, waiting: bool, faction: EncounterFaction)
    requires
        rounds >= bound,
    ensures
        settle_step_spec(rounds, bound, waiting, faction) != SettleStep::Advance,
{
}

/// The text of a decimal numeral of a cell coordinate pair, `(x, y)`.
pub open spec fn cell_text(cell: TacticalPosition) -> Seq<char> {
    "("@ + decimal_digits(cell.x as nat) + ", "@ + decimal_digits(cell.y as nat) + ")"@
}

pub(crate) fn push_cell(text: &mut String, cell: TacticalPosition)
    ensures
        final(text)@ == old(text)@ + cell_text(cell),
{
    text.append("(");
    let x = decimal_text(cell.x as usize);
    text.append(x.as_str());
    text.append(", ");
    let y = decimal_text(cell.y as usize);
    text.append(y.as_str());
    text.append(")");
    proof {
        assert(final(text)@ =~= old(text)@ + cell_text(cell));
    }
}

/// The log detail of an opposition move.
pub open spec fn movement_detail_text(
    name: Seq<char>,
    origin: TacticalPosition,
    destination: TacticalPosition,
    cost: nat,
) -> Seq<char> {
    name + " moved from "@ + cell_text(origin) + " to "@ + cell_text(destination)
        + " along an Engine-admitted "@ + decimal_digits(cost) + "-square route."@
}

/// Describes an opposition participant's move along a route.
pub fn movement_detail(
    name: &String,
    origin: TacticalPosition,
    destination: TacticalPosition,
    cost: u16,
) -> (text: String)
    ensures
        text@ == movement_detail_text(name@, origin, destination, cost as nat),
{
    let mut text = name.clone();
    proof {
        assert(text@ == name@);
    }
    text.append(" moved from ");
    push_cell(&mut text, origin);
    text.append(" to ");
    push_cell(&mut text, destination);
    text.append(" along an Engine-admitted ");
    let count = decimal_text(cost as usize);
    text.append(count.as_str());
    text.append("-square route.");
    proof {
        assert(text@ =~= movement_detail_text(name@, origin, destination, cost as nat));
    }
    text
}

/// The log detail of an opposition move an effect forbade.
pub open spec fn forbidden_movement_text(name: Seq<char>, effect: Seq<char>) -> Seq<char> {
    name + " could not move because "@ + ascii_text(humanized(encode_utf8(effect)))
        + " forbids voluntary movement."@
}

/// Describes an opposition move that `effect` forbade.
pub fn forbidden_movement_detail(name: &String, effect: &D20Id) -> (text: String)
    ensures
        text@ == forbidden_movement_text(name@, effect@),
{
    let mut text = name.clone();
    proof {
        assert(text@ == name@);
    }
    text.append(" could not move because ");
    let label = humanize(effect);
    text.append(label.as_str());
    text.append(" forbids voluntary movement.");
    proof {
        assert(text@ =~= forbidden_movement_text(name@, effect@));
    }
    text
}

/// The log detail of an opposition activation without a legal action.
pub open spec fn pass_detail_text(name: Seq<char>, unavailable: nat) -> Seq<char> {
    name + " had no legal authored action/target pair after tactical movement; "@
        + decimal_digits(unavailable) + " unavailable choice(s) were skipped."@
}

/// Describes an opposition activation that ends without an action.
pub fn pass_detail(name: &String, unavailable: usize) -> (text: String)
    ensures
        text@ == pass_detail_text(name@, unavailable as nat),
{
    let mut text = name.clone();
    proof {
        assert(text@ == name@);
    }
    text.append(" had no legal authored action/target pair after tactical movement; ");
    let count = decimal_text(unavailable);
    text.append(count.as_str());
    text.append(" unavailable choice(s) were skipped.");
    proof {
        assert(text@ =~= pass_detail_text(name@, unavailable as nat));
    }
    text
}

/// The log detail of the opposition policy's pick: the chosen place,
/// counted from one, among the legal choices.
pub open spec fn policy_detail_text(index: nat, legal: nat, unavailable: nat) -> Seq<char> {
    "Opposition policy selected legal choice "@ + decimal_digits(index + 1) + " of "@
        + decimal_digits(legal) + "; "@ + decimal_digits(unavailable)
        + " unavailable authored choice(s) were excluded."@
}

/// Describes the opposition policy's pick of legal choice `index` of `legal`.
pub fn policy_detail(index: usize, legal: usize, unavailable: usize) -> (text: String)
    requires
        index < legal,
    ensures
        text@ == policy_detail_text(index as nat, legal as nat, unavailable as nat),
{
    let mut text = String::new();
    text.append("Opposition policy selected legal choice ");
    let place = decimal_text(index + 1);
    text.append(place.as_str());
    text.append(" of ");
    let count = decimal_text(legal);
    text.append(count.as_str());
    text.append("; ");
    let skipped = decimal_text(unavailable);
    text.append(skipped.as_str());
    text.append(" unavailable authored choice(s) were excluded.");
    proof {
        assert(text@ =~= policy_detail_text(index as nat, legal as nat, unavailable as nat));
    }
    text
}

/// The log text of the action the opposition prepares.
pub open spec fn prepares_text(name: Seq<char>, action: Seq<char>, target: Seq<char>) -> Seq<char> {
    name + " prepares "@ + ascii_text(humanized(encode_utf8(action))) + " against "@ + target
        + "."@
}

/// Announces the action an opposition participant prepares against a
/// target.
pub fn prepares(name: &String, action: &D20Id, target: &String) -> (text: String)
    ensures
        text@ == prepares_text(name@, action@, target@),
{
    let mut text = name.clone();
    proof {
        assert(text@ == name@);
    }
    text.append(" prepares ");
    let label = humanize(action);
    text.append(label.as_str());
    text.append(" against ");
    text.append(target.as_str());
    text.append(".");
    proof {
        assert(text@ =~= prepares_text(name@, action@, target@));
    }
    text
}

/// Whether a session refusal only makes an action unavailable to its
/// actor (an effect forbids it, a required implement is not equipped, or
/// an activation budget is spent), rather than breaking the encounter.
pub open spec fn unavailable_action_spec(error: D20SessionError) -> bool {
    ||| error is ActionForbidden
    ||| error is RequiredImplementNotEquipped
    ||| error is ActivationBudgetUnavailable
}

/// Tells the refusals that leave an authored choice out of the legal ones.
pub fn is_unavailable_action_error(error: &D20SessionError) -> (unavailable: bool)
    ensures
        unavailable == unavailable_action_spec(*error),
{
    match error {
        D20SessionError::ActionForbidden { .. }
        | D20SessionError::RequiredImplementNotEquipped { .. }
        | D20SessionError::ActivationBudgetUnavailable { .. } => true,
        _ => false,
    }
}

} // verus!
