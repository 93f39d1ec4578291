use vstd::prelude::*;

use crate::component::EncounterFaction;
use crate::definitions::ActionTargetTeamDefinition;
use crate::game::error::{GameRuntimeError, StateProblem};
use crate::game::state::EncounterOutcome;
use crate::session::error::EntityId;

verus! {

broadcast use vstd::seq_lib::group_to_multiset_ensures;

/// An encounter participant as the initiative rules see it.
#[derive(Debug, Clone, Copy, PartialEq, Eq, Structural)]
pub struct ParticipantStanding {
    pub entity: EntityId,
    pub faction: EncounterFaction,
    pub initiative: i16,
    pub vitality: i64,
}

/// Whether `a` acts before `b`: higher initiative first, then the lower
/// entity identity.
pub open spec fn acts_before(a: ParticipantStanding, b: ParticipantStanding) -> bool {
    a.initiative > b.initiative || (a.initiative == b.initiative && a.entity < b.entity)
}

/// Whether a list is in initiative order.
pub open spec fn initiative_sorted(order: Seq<ParticipantStanding>) -> bool {
    forall|i: int, j: int| 0 <= i < j < order.len() ==> !acts_before(order[j], order[i])
}

fn acts_before_exec(a: &ParticipantStanding, b: &ParticipantStanding) -> (before: bool)
    ensures
        before == acts_before(*a, *b),
{
    a.initiative > b.initiative || (a.initiative == b.initiative && a.entity < b.entity)
}

/// The participants in initiative order: higher initiative first, ties
/// broken by the lower entity identity. The order holds exactly the given
/// participants.
pub fn initiative_order(participants: &Vec<ParticipantStanding>) -> (order: Vec<
    ParticipantStanding,
>)
    ensures
        initiative_sorted(order@),
        order@.to_multiset() == participants@.to_multiset(),
{
    let mut order: Vec<ParticipantStanding> = Vec::new();
    let mut index: usize = 0;
    while index < participants.len()
        invariant
            0 <= index <= participants@.len(),
            initiative_sorted(order@),
            order@.to_multiset() == participants@.take(index as int).to_multiset(),
        decreases participants@.len() - index,
    {
        let item = participants[index];
        let mut position: usize = 0;
        while position < order.len() && !acts_before_exec(&item, &order[position])
            invariant
                0 <= position <= order@.len(),
                forall|j: int| 0 <= j < position ==> !acts_before(item, order@[j]),
            decreases order@.len() - position,
        {
            position = position + 1;
        }
        let ghost before = order@;
        order.insert(position, item);
        proof {
            vstd::seq_lib::to_multiset_insert(before, position as int, item);
            assert(participants@.take(index + 1) =~= participants@.take(index as int).push(item));
            vstd::seq_lib::to_multiset_build(participants@.take(index as int), item);
            assert forall|i: int, j: int| 0 <= i < j < order@.len() implies !acts_before(
                order@[j],
                order@[i],
            ) by {
                if j < position {
                    assert(order@[i] == before[i] && order@[j] == before[j]);
                } else if j == position {
                    assert(!acts_before(item, before[i]));
                } else if i < position {
                    assert(order@[j] == before[j - 1]);
                    assert(!acts_before(item, before[i]));
                    if position < before.len() {
                        assert(acts_before(item, before[position as int]));
                        if j - 1 > position {
                            assert(!acts_before(before[j - 1], before[position as int]));
                        }
                    }
                } else if i == position {
                    assert(order@[j] == before[j - 1]);
                    assert(acts_before(item, before[position as int]));
                    if j - 1 > position {
                        assert(!acts_before(before[j - 1], before[position as int]));
                    }
                } else {
                    assert(order@[i] == before[i - 1] && order@[j] == before[j - 1]);
                }
            }
        }
        index = index + 1;
    }
    assert(participants@.take(participants@.len() as int) =~= participants@);
    order
}

/// Whether some participant of a faction is still standing (vitality not zero).
pub open spec fn faction_standing(order: Seq<ParticipantStanding>, faction: EncounterFaction) -> bool {
    exists|i: int| 0 <= i < order.len() && #[trigger] order[i].faction == faction && order[i].vitality != 0
}

/// The outcome of an encounter: none while both sides stand, victory when
/// only the party stands, defeat otherwise.
pub open spec fn outcome_of(order: Seq<ParticipantStanding>) -> Option<EncounterOutcome> {
    let party = faction_standing(order, EncounterFaction::Party);
    let opposition = faction_standing(order, EncounterFaction::Opposition);
    if party && opposition {
        None
    } else if party {
        Some(EncounterOutcome::Victory)
    } else {
        Some(EncounterOutcome::Defeat)
    }
}

/// Decides whether the encounter is over, and how.
pub fn encounter_outcome(order: &Vec<ParticipantStanding>) -> (outcome: Option<EncounterOutcome>)
    ensures
        outcome == outcome_of(order@),
{
    let mut party_alive = false;
    let mut opposition_alive = false;
    let mut index: usize = 0;
    while index < order.len()
        invariant
            0 <= index <= order@.len(),
            party_alive <==> exists|i: int|
                0 <= i < index && #[trigger] order@[i].faction == EncounterFaction::Party
                    && order@[i].vitality != 0,
            opposition_alive <==> exists|i: int|
                0 <= i < index && #[trigger] order@[i].faction == EncounterFaction::Opposition
                    && order@[i].vitality != 0,
        decreases order@.len() - index,
    {
        let participant = order[index];
        if participant.vitality != 0 {
            match participant.faction {
                EncounterFaction::Party => {
                    party_alive = true;
                },
                EncounterFaction::Opposition => {
                    opposition_alive = true;
                },
            }
        }
        index = index + 1;
    }
    if party_alive && opposition_alive {
        None
    } else if party_alive {
        Some(EncounterOutcome::Victory)
    } else {
        Some(EncounterOutcome::Defeat)
    }
}

/// Position of the first participant, from `i`, that is the entity.
pub open spec fn position_of_from(order: Seq<ParticipantStanding>, entity: EntityId, i: nat) -> Option<
    int,
>
    decreases order.len() - i,
{
    if i >= order.len() {
        None
    } else if order[i as int].entity == entity {
        Some(i as int)
    } else {
        position_of_from(order, entity, i + 1)
    }
}

proof fn lemma_position_of_from(order: Seq<ParticipantStanding>, entity: EntityId, i: nat)
    ensures
        position_of_from(order, entity, i) matches Some(k) ==> i <= k < order.len()
            && order[k].entity == entity,
    decreases order.len() - i,
{
    if i < order.len() {
        lemma_position_of_from(order, entity, i + 1);
    }
}

/// The first offset in `offset..=len` at which the participant after
/// `current` (wrapping around) has positive vitality.
pub open spec fn living_offset_from(order: Seq<ParticipantStanding>, current: int, offset: nat) -> Option<
    int,
>
    decreases order.len() + 1 - offset,
{
    if offset > order.len() || order.len() == 0 {
        None
    } else if order[(current + offset) % (order.len() as int)].vitality > 0 {
        Some(offset as int)
    } else {
        living_offset_from(order, current, offset + 1)
    }
}

/// Who acts next after `current`: the next participant in initiative
/// order, wrapping around, that has positive vitality.
#[derive(Debug, Clone, Copy, PartialEq, Eq, Structural)]
pub struct ActivationAdvance {
    /// Position of the next actor in the order.
    pub next_index: usize,
    /// The next actor.
    pub next_actor: EntityId,
    /// Whether the order wrapped, which starts a new round.
    pub wrapped: bool,
}

/// The activation that follows `current`, as `next_activation` decides it.
pub open spec fn activation_after(order: Seq<ParticipantStanding>, current: EntityId) -> Result<
    ActivationAdvance,
    StateProblem,
> {
    match position_of_from(order, current, 0) {
        None => Err(StateProblem::CurrentActorNotInOrder),
        Some(at) => match living_offset_from(order, at, 1) {
            None => Err(StateProblem::NoLivingParticipant),
            Some(offset) => {
                let next = (at + offset) % (order.len() as int);
                Ok(
                    ActivationAdvance {
                        next_index: next as usize,
                        next_actor: order[next].entity,
                        wrapped: next <= at,
                    },
                )
            },
        },
    }
}

/// Hands the activation to the next living participant after `current`.
pub fn next_activation(order: &Vec<ParticipantStanding>, current: EntityId) -> (result: Result<
    ActivationAdvance,
    GameRuntimeError,
>)
    ensures
        match activation_after(order@, current) {
            Ok(advance) => result == Ok::<ActivationAdvance, GameRuntimeError>(advance),
            Err(problem) => result == Err::<ActivationAdvance, GameRuntimeError>(
                GameRuntimeError::InvalidState(problem),
            ),
        },
{
    proof {
        lemma_position_of_from(order@, current, 0);
    }
    let mut at: usize = 0;
    while at < order.len() && order[at].entity != current
        invariant
            0 <= at <= order@.len(),
            position_of_from(order@, current, 0) == position_of_from(order@, current, at as nat),
        decreases order@.len() - at,
    {
        at = at + 1;
    }
    if at >= order.len() {
        return Err(GameRuntimeError::InvalidState(StateProblem::CurrentActorNotInOrder));
    }
    let length = order.len();
    let mut step: usize = 0;
    while step < length
        invariant
            0 <= step <= length,
            length == order@.len(),
            0 <= at < length,
            position_of_from(order@, current, 0) == Some(at as int),
            living_offset_from(order@, at as int, 1) == living_offset_from(
                order@,
                at as int,
                (step + 1) as nat,
            ),
        decreases length - step,
    {
        let offset: usize = step + 1;
        let index: usize = if offset < length - at {
            at + offset
        } else {
            offset - (length - at)
        };
        assert(index as int == (at + offset) % (length as int)) by (nonlinear_arith)
            requires
                0 <= at < length,
                1 <= offset <= length,
                index as int == (if offset < length - at {
                    at + offset
                } else {
                    offset - (length - at)
                }),
        ;
        if order[index].vitality > 0 {
            return Ok(
                ActivationAdvance {
                    next_index: index,
                    next_actor: order[index].entity,
                    wrapped: index <= at,
                },
            );
        }
        step = step + 1;
    }
    Err(GameRuntimeError::InvalidState(StateProblem::NoLivingParticipant))
}

/// Position of the first participant, from `i`, with positive vitality.
pub open spec fn first_living_from(order: Seq<ParticipantStanding>, i: nat) -> Option<int>
    decreases order.len() - i,
{
    if i >= order.len() {
        None
    } else if order[i as int].vitality > 0 {
        Some(i as int)
    } else {
        first_living_from(order, i + 1)
    }
}

/// The participant who opens an encounter: the first in initiative order
/// with positive vitality.
pub fn first_actor(order: &Vec<ParticipantStanding>) -> (result: Result<EntityId, GameRuntimeError>)
    ensures
        match first_living_from(order@, 0) {
            Some(k) => result == Ok::<EntityId, GameRuntimeError>(order@[k].entity),
            None => result == Err::<EntityId, GameRuntimeError>(
                GameRuntimeError::InvalidState(StateProblem::NoLivingParticipant),
            ),
        },
{
    let mut index: usize = 0;
    while index < order.len()
        invariant
            0 <= index <= order@.len(),
            first_living_from(order@, 0) == first_living_from(order@, index as nat),
        decreases order@.len() - index,
    {
        if order[index].vitality > 0 {
            return Ok(order[index].entity);
        }
        index = index + 1;
    }
    Err(GameRuntimeError::InvalidState(StateProblem::NoLivingParticipant))
}

/// Whether an action's target team admits `target` for `actor`.
pub open spec fn team_allows(
    team: ActionTargetTeamDefinition,
    actor: EntityId,
    actor_faction: EncounterFaction,
    target: EntityId,
    target_faction: EncounterFaction,
) -> bool {
    match team {
        ActionTargetTeamDefinition::Hostile => actor_faction != target_faction,
        ActionTargetTeamDefinition::Ally => actor != target && actor_faction == target_faction,
        ActionTargetTeamDefinition::SelfOnly => actor == target,
        ActionTargetTeamDefinition::Any => true,
    }
}

/// Whether an action's target team admits `target` for `actor`: hostile
/// actions target the other faction, ally actions another member of the
/// actor's faction, self actions only the actor, and any actions anyone.
pub fn target_team_allows(
    team: ActionTargetTeamDefinition,
    actor: EntityId,
    actor_faction: EncounterFaction,
    target: EntityId,
    target_faction: EncounterFaction,
) -> (allowed: bool)
    ensures
        allowed == team_allows(team, actor, actor_faction, target, target_faction),
{
    match team {
        ActionTargetTeamDefinition::Hostile => actor_faction != target_faction,
        ActionTargetTeamDefinition::Ally => actor != target && actor_faction == target_faction,
        ActionTargetTeamDefinition::SelfOnly => actor == target,
        ActionTargetTeamDefinition::Any => true,
    }
}

/// The first offset at or after `offset` that `living_offset_from` finds
/// is one whose participant lives, and every offset before it, from
/// `offset` on, reaches a participant that does not.
proof fn lemma_living_offset(order: Seq<ParticipantStanding>, current: int, offset: nat)
    requires
        order.len() > 0,
    ensures
        living_offset_from(order, current, offset) matches Some(o) ==> offset <= o <= order.len()
            && order[(current + o) % (order.len() as int)].vitality > 0 && forall|p: int|
            offset <= p < o ==> #[trigger] order[(current + p) % (order.len() as int)].vitality <= 0,
        living_offset_from(order, current, offset) is None ==> forall|p: int|
            offset <= p <= order.len() ==> #[trigger] order[(current + p) % (order.len() as int)].vitality
                <= 0,
    decreases order.len() + 1 - offset,
{
    if offset <= order.len() {
        lemma_living_offset(order, current, offset + 1);
    }
}

/// A participant's first place in the order is where the search for it
/// from any earlier place stops.
proof fn lemma_first_position(order: Seq<ParticipantStanding>, entity: EntityId, at: int, i: nat)
    requires
        i <= at < order.len(),
        order[at].entity == entity,
        forall|j: int| i <= j < at ==> order[j].entity != entity,
    ensures
        position_of_from(order, entity, i) == Some(at),
    decreases at - i,
{
    if i < at {
        lemma_first_position(order, entity, at, i + 1);
    }
}

/// Wrapping a position of `0..2n` into `0..n`.
proof fn lemma_wrap(x: int, n: int)
    requires
        n > 0,
        0 <= x < 2 * n,
    ensures
        x % n == (if x < n {
            x
        } else {
            x - n
        }),
{
    if x < n {
        vstd::arithmetic::div_mod::lemma_small_mod(x as nat, n as nat);
    } else {
        vstd::arithmetic::div_mod::lemma_small_mod((x - n) as nat, n as nat);
        vstd::arithmetic::div_mod::lemma_mod_add_multiples_vanish(x - n, n);
    }
}

/// The participant after position `at` in turn order is `next`, and the
/// search for it skipped `j`: `j` lies strictly between them, going
/// forward from `at` and wrapping past the end.
pub open spec fn skipped_between(at: int, next: int, j: int) -> bool {
    if at < next {
        at < j < next
    } else {
        j > at || j < next
    }
}

/// The activation passes from the current actor (its first place in the
/// order) to a living participant; every participant passed over on the
/// way, forward and wrapping past the end, is down; and the round starts
/// over exactly when the search wrapped, that is when the next actor's
/// place is not after the current one's.
pub proof fn lemma_activation_passes_to_next_living(order: Seq<ParticipantStanding>, current: EntityId, at: int)
    requires
        0 <= at < order.len() <= usize::MAX,
        order[at].entity == current,
        forall|j: int| 0 <= j < at ==> order[j].entity != current,
    ensures
        activation_after(order, current) matches Ok(advance) ==> {
            &&& 0 <= advance.next_index < order.len()
            &&& order[advance.next_index as int].entity == advance.next_actor
            &&& order[advance.next_index as int].vitality > 0
            &&& (advance.wrapped <==> advance.next_index <= at)
            &&& forall|j: int|
                0 <= j < order.len() && skipped_between(at, advance.next_index as int, j)
                    ==> #[trigger] order[j].vitality <= 0
        },
        activation_after(order, current) is Err ==> forall|j: int|
            0 <= j < order.len() ==> #[trigger] order[j].vitality <= 0,
{
    lemma_first_position(order, current, at, 0);
    let n = order.len() as int;
    lemma_living_offset(order, at, 1);
    match living_offset_from(order, at, 1) {
        Some(o) => {
            lemma_wrap(at + o, n);
            let next = (at + o) % n;
            assert(0 <= next < n);
            assert((next as usize) as int == next);
            assert forall|j: int| 0 <= j < n && skipped_between(at, next, j) implies #[trigger] order[j].vitality
                <= 0 by {
                if j > at {
                    lemma_wrap(at + (j - at), n);
                    assert(order[(at + (j - at)) % n].vitality <= 0);
                } else {
                    lemma_wrap(at + (j + n - at), n);
                    assert(order[(at + (j + n - at)) % n].vitality <= 0);
                }
            }
        },
        None => {
            assert forall|j: int| 0 <= j < n implies #[trigger] order[j].vitality <= 0 by {
                if j > at {
                    lemma_wrap(at + (j - at), n);
                    assert(order[(at + (j - at)) % n].vitality <= 0);
                } else {
                    lemma_wrap(at + (j + n - at), n);
                    assert(order[(at + (j + n - at)) % n].vitality <= 0);
                }
            }
        },
    }
}

} // verus!
