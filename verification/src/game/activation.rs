//! The party's commands during its activation: choosing an action,
//! moving, and ending the activation, with the log text they leave.

use vstd::prelude::*;

use crate::component::{index_of, EncounterFaction, TacticalPosition};
use crate::definitions::{
    find_named, names, ActionDefinition, ActionLineOfEffectDefinition, ActionTargetTeamDefinition,
    contains_id, ids_view,
};
use crate::game::content::CharacterTemplateDefinition;
use crate::game::dto::{
    CharacterDto, ChooseActionRequestDto, EncounterFactionDto, EncounterParticipantDto,
    MoveActorRequestDto, TacticalCellDto, TacticalMoveDto,
};
use crate::game::encounter::{position_of_from, target_team_allows, team_allows, ParticipantStanding};
use crate::game::error::{
    CommandProblem, GameErrorView, GameRuntimeError, PhaseRequirement, StaleRevision, StateProblem,
};
use crate::game::opposition::{cell_text, current_actor_of, current_actor_spec, push_cell, route_cost, route_steps};
use crate::game::state::CampaignPhase;
use crate::game::support::{decimal_digits, u64_text};
use crate::game::tactical::{action_is_spatially_legal, chebyshev};
use crate::identity::{id_parse_error, valid_d20_id_bytes, D20Id};
use crate::session::error::EntityId;
use vstd::utf8::encode_utf8;

verus! {

/// A command the party gives during its own activation.
#[derive(Debug, Clone, Copy, PartialEq, Eq, Structural)]
pub enum PartyCommand {
    ChooseAction,
    Move,
    EndActivation,
}

/// What a command waits on while an action is pending.
pub open spec fn pending_problem(command: PartyCommand) -> CommandProblem {
    match command {
        PartyCommand::ChooseAction => CommandProblem::PreviewUnresolved,
        PartyCommand::Move => CommandProblem::PendingBeforeMove,
        PartyCommand::EndActivation => CommandProblem::PendingActionUnresolved,
    }
}

/// Whether a command reserves a log entry: all but choosing an action,
/// whose log entry the resolution writes.
pub open spec fn reserves_log(command: PartyCommand) -> bool {
    command != PartyCommand::ChooseAction
}

/// Why a party command is refused before it looks at its request, if it
/// is: it must be written against the current revision, during an
/// encounter, on the party's activation, with room in the counters, and
/// with no action pending. The first failing check is reported.
pub open spec fn party_command_refusal(
    command: PartyCommand,
    expected_revision: u64,
    revision: u64,
    phase: Option<CampaignPhase>,
    actor: Result<(EntityId, EncounterFaction), GameRuntimeError>,
    next_operation: u64,
    next_log_id: u64,
    pending: bool,
) -> Option<GameRuntimeError> {
    if expected_revision != revision {
        Some(
            GameRuntimeError::StaleCommand(
                StaleRevision { expected: expected_revision, current: revision },
            ),
        )
    } else {
        match phase {
            None => Some(GameRuntimeError::NoEncounter),
            Some(p) => if p != CampaignPhase::Encounter {
                Some(GameRuntimeError::WrongPhase(PhaseRequirement::Encounter))
            } else {
                match actor {
                    Err(error) => Some(error),
                    Ok((_, faction)) => if faction != EncounterFaction::Party {
                        Some(GameRuntimeError::WrongPhase(PhaseRequirement::PartyActivation))
                    } else if revision == u64::MAX || next_operation == u64::MAX || (reserves_log(
                        command,
                    ) && next_log_id == u64::MAX) {
                        Some(GameRuntimeError::CounterOverflow)
                    } else if pending {
                        Some(GameRuntimeError::InvalidCommand(pending_problem(command)))
                    } else {
                        None
                    },
                }
            },
        }
    }
}

/// Checks that the party may give `command` now, and returns the actor
/// that owns the activation.
pub fn ensure_party_command(
    command: PartyCommand,
    expected_revision: u64,
    revision: u64,
    phase: Option<CampaignPhase>,
    actor: Result<(EntityId, EncounterFaction), GameRuntimeError>,
    next_operation: u64,
    next_log_id: u64,
    pending: bool,
) -> (result: Result<EntityId, GameRuntimeError>)
    ensures
        match party_command_refusal(
            command,
            expected_revision,
            revision,
            phase,
            actor,
            next_operation,
            next_log_id,
            pending,
        ) {
            Some(error) => result == Err::<EntityId, GameRuntimeError>(error),
            None => actor matches Ok((entity, _)) && result == Ok::<EntityId, GameRuntimeError>(
                entity,
            ),
        },
{
    if expected_revision != revision {
        return Err(
            GameRuntimeError::StaleCommand(
                StaleRevision { expected: expected_revision, current: revision },
            ),
        );
    }
    match phase {
        None => {
            return Err(GameRuntimeError::NoEncounter);
        },
        Some(p) => {
            if p != CampaignPhase::Encounter {
                return Err(GameRuntimeError::WrongPhase(PhaseRequirement::Encounter));
            }
        },
    }
    let (entity, faction) = match actor {
        Err(error) => {
            return Err(error);
        },
        Ok(pair) => pair,
    };
    match faction {
        EncounterFaction::Opposition => {
            return Err(GameRuntimeError::WrongPhase(PhaseRequirement::PartyActivation));
        },
        EncounterFaction::Party => {},
    }
    let logs = match command {
        PartyCommand::ChooseAction => false,
        _ => true,
    };
    if revision == u64::MAX || next_operation == u64::MAX || (logs && next_log_id == u64::MAX) {
        return Err(GameRuntimeError::CounterOverflow);
    }
    if pending {
        let problem = match command {
            PartyCommand::ChooseAction => CommandProblem::PreviewUnresolved,
            PartyCommand::Move => CommandProblem::PendingBeforeMove,
            PartyCommand::EndActivation => CommandProblem::PendingActionUnresolved,
        };
        return Err(GameRuntimeError::InvalidCommand(problem));
    }
    Ok(entity)
}

/// The actor a command names must be an entity and own the activation.
pub fn ensure_selected_actor(requested: u64, current: EntityId) -> (result: Result<
    EntityId,
    GameRuntimeError,
>)
    ensures
        requested == 0 ==> result == Err::<EntityId, GameRuntimeError>(
            GameRuntimeError::InvalidCommand(CommandProblem::ZeroEntity),
        ),
        requested != 0 && requested != current ==> result == Err::<EntityId, GameRuntimeError>(
            GameRuntimeError::InvalidCommand(CommandProblem::NotCurrentActor),
        ),
        requested != 0 && requested == current ==> result == Ok::<EntityId, GameRuntimeError>(
            requested,
        ),
{
    if requested == 0 {
        return Err(GameRuntimeError::InvalidCommand(CommandProblem::ZeroEntity));
    }
    if requested != current {
        return Err(GameRuntimeError::InvalidCommand(CommandProblem::NotCurrentActor));
    }
    Ok(requested)
}

/// Whether an action's target team admits `target` for `actor`, as the
/// encounter stands: both must take part, and a defeated target is never
/// admitted.
pub open spec fn target_team_spec(
    order: Seq<ParticipantStanding>,
    actor: EntityId,
    target: EntityId,
    team: ActionTargetTeamDefinition,
) -> Result<bool, GameRuntimeError> {
    match position_of_from(order, actor, 0) {
        None => Err(GameRuntimeError::InvalidState(StateProblem::CurrentActorNotParticipant)),
        Some(a) => match position_of_from(order, target, 0) {
            None => Err(GameRuntimeError::InvalidCommand(CommandProblem::TargetNotParticipant)),
            Some(t) => if order[t].vitality == 0 {
                Ok(false)
            } else {
                Ok(team_allows(team, actor, order[a].faction, target, order[t].faction))
            },
        },
    }
}

fn standing_index(order: &Vec<ParticipantStanding>, entity: EntityId) -> (found: Option<usize>)
    ensures
        found matches Some(k) ==> position_of_from(order@, entity, 0) == Some(k as int) && k
            < order@.len(),
        found is None ==> position_of_from(order@, entity, 0) is None,
{
    let mut index: usize = 0;
    while index < order.len()
        invariant
            0 <= index <= order@.len(),
            position_of_from(order@, entity, 0) == position_of_from(order@, entity, index as nat),
        decreases order@.len() - index,
    {
        if order[index].entity == entity {
            return Some(index);
        }
        index = index + 1;
    }
    None
}

/// Judges whether an action's target team admits `target` for `actor`.
pub fn target_team_verdict(
    order: &Vec<ParticipantStanding>,
    actor: EntityId,
    target: EntityId,
    team: ActionTargetTeamDefinition,
) -> (result: Result<bool, GameRuntimeError>)
    ensures
        result == target_team_spec(order@, actor, target, team),
{
    let a = match standing_index(order, actor) {
        None => {
            return Err(GameRuntimeError::InvalidState(StateProblem::CurrentActorNotParticipant));
        },
        Some(a) => a,
    };
    let t = match standing_index(order, target) {
        None => {
            return Err(GameRuntimeError::InvalidCommand(CommandProblem::TargetNotParticipant));
        },
        Some(t) => t,
    };
    if order[t].vitality == 0 {
        return Ok(false);
    }
    Ok(target_team_allows(team, actor, order[a].faction, target, order[t].faction))
}

/// Position of the first character template, from `i`, of the entity.
pub open spec fn template_from(
    templates: Seq<CharacterTemplateDefinition>,
    entity: EntityId,
    i: nat,
) -> Option<int>
    decreases templates.len() - i,
{
    if i >= templates.len() {
        None
    } else if templates[i as int].entity_id == entity {
        Some(i as int)
    } else {
        template_from(templates, entity, i + 1)
    }
}

proof fn lemma_template_from(templates: Seq<CharacterTemplateDefinition>, entity: EntityId, i: nat)
    ensures
        template_from(templates, entity, i) matches Some(k) ==> i <= k < templates.len()
            && templates[k].entity_id == entity,
    decreases templates.len() - i,
{
    if i < templates.len() {
        lemma_template_from(templates, entity, i + 1);
    }
}

fn template_index(templates: &Vec<CharacterTemplateDefinition>, entity: EntityId) -> (found: Option<
    usize,
>)
    ensures
        found matches Some(k) ==> template_from(templates@, entity, 0) == Some(k as int) && k
            < templates@.len(),
        found is None ==> template_from(templates@, entity, 0) is None,
{
    let mut index: usize = 0;
    while index < templates.len()
        invariant
            0 <= index <= templates@.len(),
            template_from(templates@, entity, 0) == template_from(templates@, entity, index as nat),
        decreases templates@.len() - index,
    {
        if templates[index].entity_id == entity {
            return Some(index);
        }
        index = index + 1;
    }
    None
}

/// Every action a character template lists has a compiled definition.
pub open spec fn template_actions_defined(
    templates: Seq<CharacterTemplateDefinition>,
    definitions: Seq<ActionDefinition>,
) -> bool {
    forall|t: int, a: int|
        0 <= t < templates.len() && 0 <= a < templates[t].actions@.len() ==> (index_of(
            names(definitions),
            #[trigger] templates[t].actions@[a]@,
        ) is Some)
}

/// An admitted action choice: who acts, on whom, with which compiled
/// action (by its position among the definitions).
#[derive(Debug, Clone, Copy, PartialEq, Eq, Structural)]
pub struct ActionChoice {
    pub actor: EntityId,
    pub target: EntityId,
    pub action: usize,
}

/// The outcome of choosing an action, as a spec: the command guard, the
/// named actor and target, the action's identity, whether the actor's
/// template lists it, its target team, and its range and line of effect,
/// in that order.
pub open spec fn action_choice_outcome(
    request: ChooseActionRequestDto,
    revision: u64,
    phase: Option<CampaignPhase>,
    current: Option<EntityId>,
    order: Seq<ParticipantStanding>,
    next_operation: u64,
    next_log_id: u64,
    pending: bool,
    templates: Seq<CharacterTemplateDefinition>,
    definitions: Seq<ActionDefinition>,
    actor_position: TacticalPosition,
    target_position: TacticalPosition,
    line_clear: bool,
) -> Result<ActionChoice, GameErrorView> {
    let actor_state = current_actor_spec(current, order);
    match party_command_refusal(
        PartyCommand::ChooseAction,
        request.expected_revision,
        revision,
        phase,
        actor_state,
        next_operation,
        next_log_id,
        pending,
    ) {
        Some(error) => Err(error@),
        None => if request.actor_id == 0 || request.target_id == 0 {
            Err(GameErrorView::InvalidCommand(CommandProblem::ZeroEntity))
        } else if !(actor_state matches Ok((owner, _)) && owner == request.actor_id) {
            Err(GameErrorView::InvalidCommand(CommandProblem::NotCurrentActor))
        } else if id_parse_error(request.action_id@) is Some {
            Err(GameErrorView::D20Identity(id_parse_error(request.action_id@)->0))
        } else {
            match template_from(templates, request.actor_id, 0) {
                None => Err(GameErrorView::InvalidState(StateProblem::MissingCharacterTemplate)),
                Some(k) => if !ids_view(templates[k].actions@).contains(request.action_id@) {
                    Err(GameErrorView::InvalidCommand(CommandProblem::ActionNotAvailable))
                } else {
                    match index_of(names(definitions), request.action_id@) {
                        None => Err(GameErrorView::InvalidCommand(CommandProblem::ActionNotAvailable)),
                        Some(d) => match target_team_spec(
                            order,
                            request.actor_id,
                            request.target_id,
                            definitions[d].team,
                        ) {
                            Err(error) => Err(error@),
                            Ok(false) => Err(
                                GameErrorView::InvalidCommand(CommandProblem::TargetTeamMismatch),
                            ),
                            Ok(true) => if !(chebyshev(actor_position, target_position) != 0
                                && chebyshev(actor_position, target_position)
                                <= definitions[d].range && (definitions[d].line_of_effect
                                == ActionLineOfEffectDefinition::Ignored || line_clear)) {
                                Err(GameErrorView::InvalidCommand(CommandProblem::TargetOutOfReach))
                            } else {
                                Ok(
                                    ActionChoice {
                                        actor: request.actor_id,
                                        target: request.target_id,
                                        action: d as usize,
                                    },
                                )
                            },
                        },
                    }
                },
            }
        },
    }
}

/// Admits the party's choice of an action against a target.
/// `actor_position` and `target_position` are the two participants'
/// cells, and `line_clear` tells whether the Engine's collision
/// projection found the line between them unobstructed.
pub fn admit_action_choice(
    request: &ChooseActionRequestDto,
    revision: u64,
    phase: Option<CampaignPhase>,
    current: Option<EntityId>,
    order: &Vec<ParticipantStanding>,
    next_operation: u64,
    next_log_id: u64,
    pending: bool,
    templates: &Vec<CharacterTemplateDefinition>,
    definitions: &Vec<ActionDefinition>,
    actor_position: TacticalPosition,
    target_position: TacticalPosition,
    line_clear: bool,
) -> (result: Result<ActionChoice, GameRuntimeError>)
    requires
        template_actions_defined(templates@, definitions@),
    ensures
        match action_choice_outcome(
            *request,
            revision,
            phase,
            current,
            order@,
            next_operation,
            next_log_id,
            pending,
            templates@,
            definitions@,
            actor_position,
            target_position,
            line_clear,
        ) {
            Ok(choice) => result == Ok::<ActionChoice, GameRuntimeError>(choice),
            Err(view) => result matches Err(error) && error@ == view,
        },
{
    let owner = match ensure_party_command(
        PartyCommand::ChooseAction,
        request.expected_revision,
        revision,
        phase,
        current_actor_of(current, order),
        next_operation,
        next_log_id,
        pending,
    ) {
        Err(error) => {
            return Err(error);
        },
        Ok(owner) => owner,
    };
    if request.actor_id == 0 || request.target_id == 0 {
        return Err(GameRuntimeError::InvalidCommand(CommandProblem::ZeroEntity));
    }
    if request.actor_id != owner {
        return Err(GameRuntimeError::InvalidCommand(CommandProblem::NotCurrentActor));
    }
    let action = match D20Id::parse(request.action_id.clone()) {
        Err(error) => {
            return Err(GameRuntimeError::D20Identity(error));
        },
        Ok(action) => action,
    };
    let k = match template_index(templates, request.actor_id) {
        None => {
            return Err(GameRuntimeError::InvalidState(StateProblem::MissingCharacterTemplate));
        },
        Some(k) => k,
    };
    if !contains_id(&templates[k].actions, &action) {
        return Err(GameRuntimeError::InvalidCommand(CommandProblem::ActionNotAvailable));
    }
    proof {
        let listed = templates@[k as int].actions@;
        let j = choose|j: int| 0 <= j < ids_view(listed).len() && ids_view(listed)[j] == action@;
        assert(listed[j]@ == action@);
        assert(index_of(names(definitions@), listed[j]@) is Some);
    }
    let d = match find_named(definitions, &action) {
        None => {
            return Err(GameRuntimeError::InvalidCommand(CommandProblem::ActionNotAvailable));
        },
        Some(d) => d,
    };
    let definition = &definitions[d];
    match target_team_verdict(order, request.actor_id, request.target_id, definition.team) {
        Err(error) => {
            return Err(error);
        },
        Ok(false) => {
            return Err(GameRuntimeError::InvalidCommand(CommandProblem::TargetTeamMismatch));
        },
        Ok(true) => {},
    }
    if !action_is_spatially_legal(
        actor_position,
        target_position,
        definition.range,
        definition.line_of_effect,
        line_clear,
    ) {
        return Err(GameRuntimeError::InvalidCommand(CommandProblem::TargetOutOfReach));
    }
    Ok(ActionChoice { actor: request.actor_id, target: request.target_id, action: d })
}

/// A route the Engine's pathfinding admitted for the moving actor.
#[derive(Debug, Clone, PartialEq, Eq)]
pub struct TacticalRoute {
    pub destination: TacticalPosition,
    pub path: Vec<TacticalPosition>,
}

/// Position of the first route, from `i`, that ends at `destination`.
pub open spec fn route_from(routes: Seq<TacticalRoute>, destination: TacticalPosition, i: nat) -> Option<
    int,
>
    decreases routes.len() - i,
{
    if i >= routes.len() {
        None
    } else if routes[i as int].destination == destination {
        Some(i as int)
    } else {
        route_from(routes, destination, i + 1)
    }
}

/// An admitted move: the actor, the route it takes, and what it spends.
#[derive(Debug, Clone, Copy, PartialEq, Eq, Structural)]
pub struct MoveChoice {
    pub actor: EntityId,
    pub route: usize,
    pub cost: u16,
}

/// The outcome of a move request, as a spec: the command guard, the
/// named actor, a legal route to the requested cell, and its cost.
pub open spec fn move_outcome(
    request: MoveActorRequestDto,
    revision: u64,
    phase: Option<CampaignPhase>,
    current: Option<EntityId>,
    order: Seq<ParticipantStanding>,
    next_operation: u64,
    next_log_id: u64,
    pending: bool,
    routes: Seq<TacticalRoute>,
) -> Result<MoveChoice, GameRuntimeError> {
    let actor_state = current_actor_spec(current, order);
    match party_command_refusal(
        PartyCommand::Move,
        request.expected_revision,
        revision,
        phase,
        actor_state,
        next_operation,
        next_log_id,
        pending,
    ) {
        Some(error) => Err(error),
        None => if request.actor_id == 0 {
            Err(GameRuntimeError::InvalidCommand(CommandProblem::ZeroEntity))
        } else if !(actor_state matches Ok((owner, _)) && owner == request.actor_id) {
            Err(GameRuntimeError::InvalidCommand(CommandProblem::NotCurrentActor))
        } else {
            match route_from(routes, TacticalPosition { x: request.x, y: request.y }, 0) {
                None => Err(GameRuntimeError::InvalidCommand(CommandProblem::IllegalDestination)),
                Some(r) => if route_steps(routes[r].path@.len()) > u16::MAX {
                    Err(GameRuntimeError::CounterOverflow)
                } else {
                    Ok(
                        MoveChoice {
                            actor: request.actor_id,
                            route: r as usize,
                            cost: route_steps(routes[r].path@.len()) as u16,
                        },
                    )
                },
            }
        },
    }
}

/// Admits the party's move of its current actor to the cell a request
/// names, along one of the `routes` the Engine's pathfinding admitted.
pub fn admit_move(
    request: &MoveActorRequestDto,
    revision: u64,
    phase: Option<CampaignPhase>,
    current: Option<EntityId>,
    order: &Vec<ParticipantStanding>,
    next_operation: u64,
    next_log_id: u64,
    pending: bool,
    routes: &Vec<TacticalRoute>,
) -> (result: Result<MoveChoice, GameRuntimeError>)
    ensures
        result == move_outcome(
            *request,
            revision,
            phase,
            current,
            order@,
            next_operation,
            next_log_id,
            pending,
            routes@,
        ),
{
    let owner = match ensure_party_command(
        PartyCommand::Move,
        request.expected_revision,
        revision,
        phase,
        current_actor_of(current, order),
        next_operation,
        next_log_id,
        pending,
    ) {
        Err(error) => {
            return Err(error);
        },
        Ok(owner) => owner,
    };
    match ensure_selected_actor(request.actor_id, owner) {
        Err(error) => {
            return Err(error);
        },
        Ok(_) => {},
    }
    let destination = TacticalPosition { x: request.x, y: request.y };
    let mut index: usize = 0;
    while index < routes.len()
        invariant
            0 <= index <= routes@.len(),
            route_from(routes@, destination, 0) == route_from(routes@, destination, index as nat),
            destination == (TacticalPosition { x: request.x, y: request.y }),
            request.actor_id != 0,
            party_command_refusal(
                PartyCommand::Move,
                request.expected_revision,
                revision,
                phase,
                current_actor_spec(current, order@),
                next_operation,
                next_log_id,
                pending,
            ) is None,
            current_actor_spec(current, order@) matches Ok((o, _)) && o == request.actor_id,
        decreases routes@.len() - index,
    {
        if routes[index].destination == destination {
            return match route_cost(routes[index].path.len()) {
                Err(error) => Err(error),
                Ok(cost) => Ok(MoveChoice { actor: request.actor_id, route: index, cost }),
            };
        }
        index = index + 1;
    }
    Err(GameRuntimeError::InvalidCommand(CommandProblem::IllegalDestination))
}

/// The cells of a route, joined by arrows.
pub open spec fn path_text(path: Seq<TacticalPosition>) -> Seq<char>
    decreases path.len(),
{
    if path.len() == 0 {
        Seq::empty()
    } else if path.len() == 1 {
        cell_text(path[0])
    } else {
        path_text(path.drop_last()) + " → "@ + cell_text(path.last())
    }
}

/// The headline of a party move.
pub open spec fn move_headline_text(name: Seq<char>, from: TacticalPosition, to: TacticalPosition) -> Seq<
    char,
> {
    name + " moved from "@ + cell_text(from) + " to "@ + cell_text(to) + "."@
}

/// The route line of a party move.
pub open spec fn route_detail_text(cost: u16, path: Seq<TacticalPosition>) -> Seq<char> {
    "Engine pathfinding admitted a "@ + decimal_digits(cost as nat) + "-square route: "@
        + path_text(path) + "."@
}

/// The headline and route line of a party move.
pub fn move_log(
    name: &String,
    from: TacticalPosition,
    to: TacticalPosition,
    cost: u16,
    path: &Vec<TacticalPosition>,
) -> (entry: (String, String))
    ensures
        entry.0@ == move_headline_text(name@, from, to),
        entry.1@ == route_detail_text(cost, path@),
{
    let mut headline = name.clone();
    proof {
        assert(headline@ == name@);
    }
    headline.append(" moved from ");
    push_cell(&mut headline, from);
    headline.append(" to ");
    push_cell(&mut headline, to);
    headline.append(".");
    proof {
        assert(headline@ =~= move_headline_text(name@, from, to));
    }
    let mut cells = String::new();
    let mut index: usize = 0;
    while index < path.len()
        invariant
            0 <= index <= path@.len(),
            cells@ == path_text(path@.take(index as int)),
        decreases path@.len() - index,
    {
        proof {
            assert(path@.take(index as int + 1).drop_last() =~= path@.take(index as int));
        }
        if index > 0 {
            cells.append(" → ");
        }
        push_cell(&mut cells, path[index]);
        proof {
            let taken = path@.take(index as int + 1);
            assert(taken.last() == path@[index as int]);
            if index == 0 {
                assert(cells@ =~= path_text(taken));
            } else {
                assert(cells@ =~= path_text(taken.drop_last()) + " → "@ + cell_text(taken.last()));
            }
        }
        index = index + 1;
    }
    proof {
        assert(path@.take(path@.len() as int) =~= path@);
    }
    let mut detail = String::new();
    detail.append("Engine pathfinding admitted a ");
    let count = u64_text(cost as u64);
    detail.append(count.as_str());
    detail.append("-square route: ");
    detail.append(cells.as_str());
    detail.append(".");
    proof {
        assert(detail@ =~= route_detail_text(cost, path@));
    }
    (headline, detail)
}

/// The log line of an activation ended without another action.
pub open spec fn ended_activation_text(name: Seq<char>) -> Seq<char> {
    name + " ended the activation without spending another action."@
}

/// Describes an activation the party ended.
pub fn ended_activation_detail(name: &String) -> (text: String)
    ensures
        text@ == ended_activation_text(name@),
{
    let mut text = name.clone();
    proof {
        assert(text@ == name@);
    }
    text.append(" ended the activation without spending another action.");
    text
}

/// The log line of effects that expired when a round ended.
pub open spec fn expired_effects_text(count: nat) -> Seq<char> {
    decimal_digits(count) + " scheduled effect(s) expired at the round boundary."@
}

/// Describes the scheduled effects that expired at a round boundary.
pub fn expired_effects_detail(count: usize) -> (text: String)
    ensures
        text@ == expired_effects_text(count as nat),
{
    let mut text = u64_text(count as u64);
    text.append(" scheduled effect(s) expired at the round boundary.");
    text
}

/// The source and headline of a handed-on activation: a new round when
/// the order wrapped, the next in initiative otherwise.
pub open spec fn next_activation_source(wrapped: bool) -> Seq<char> {
    if wrapped {
        "Round"@
    } else {
        "Initiative"@
    }
}

/// The source and headline of the log entry for the next activation.
pub fn next_activation_log(name: &String, wrapped: bool) -> (entry: (&'static str, String))
    ensures
        entry.0@ == next_activation_source(wrapped),
        entry.1@ == name@ + " begins the next activation."@,
{
    let mut text = name.clone();
    proof {
        assert(text@ == name@);
    }
    text.append(" begins the next activation.");
    if wrapped {
        ("Round", text)
    } else {
        ("Initiative", text)
    }
}

/// A route as the encounter view offers it: its destination, cost, and
/// cells.
pub open spec fn move_view(dto: TacticalMoveDto) -> (u16, u16, u16, Seq<TacticalCellDto>) {
    (dto.x, dto.y, dto.cost, dto.route@)
}

/// The offer of a route: the destination, the squares it crosses, and its
/// cells in order.
pub open spec fn route_offer(route: TacticalRoute) -> (u16, u16, u16, Seq<TacticalCellDto>) {
    (
        route.destination.x,
        route.destination.y,
        route_steps(route.path@.len()) as u16,
        route.path@.map_values(|cell: TacticalPosition| TacticalCellDto { x: cell.x, y: cell.y }),
    )
}

/// Every route crosses at most `u16::MAX` squares.
pub open spec fn routes_fit(routes: Seq<TacticalRoute>) -> bool {
    forall|i: int| 0 <= i < routes.len() ==> route_steps(#[trigger] routes[i].path@.len()) <= u16::MAX
}

fn route_cells(path: &Vec<TacticalPosition>) -> (cells: Vec<TacticalCellDto>)
    ensures
        cells@ == path@.map_values(|cell: TacticalPosition| TacticalCellDto { x: cell.x, y: cell.y }),
{
    let mut cells: Vec<TacticalCellDto> = Vec::new();
    let mut index: usize = 0;
    while index < path.len()
        invariant
            0 <= index <= path@.len(),
            cells@ == path@.take(index as int).map_values(
                |cell: TacticalPosition| TacticalCellDto { x: cell.x, y: cell.y },
            ),
        decreases path@.len() - index,
    {
        let cell = path[index];
        cells.push(TacticalCellDto { x: cell.x, y: cell.y });
        proof {
            assert(path@.take(index as int + 1) =~= path@.take(index as int).push(cell));
            assert(cells@ =~= path@.take(index as int + 1).map_values(
                |cell: TacticalPosition| TacticalCellDto { x: cell.x, y: cell.y },
            ));
        }
        index = index + 1;
    }
    proof {
        assert(path@.take(path@.len() as int) =~= path@);
    }
    cells
}

/// The moves the encounter view offers the acting party member, one per
/// admitted route, in order.
pub fn project_moves(routes: &Vec<TacticalRoute>) -> (moves: Vec<TacticalMoveDto>)
    requires
        routes_fit(routes@),
    ensures
        moves@.len() == routes@.len(),
        forall|i: int| 0 <= i < moves@.len() ==> move_view(#[trigger] moves@[i]) == route_offer(routes@[i]),
{
    let mut moves: Vec<TacticalMoveDto> = Vec::new();
    let mut index: usize = 0;
    while index < routes.len()
        invariant
            0 <= index <= routes@.len(),
            routes_fit(routes@),
            moves@.len() == index,
            forall|i: int| 0 <= i < index ==> move_view(#[trigger] moves@[i]) == route_offer(routes@[i]),
        decreases routes@.len() - index,
    {
        let route = &routes[index];
        let length = route.path.len();
        let cost: u16 = if length == 0 {
            0
        } else {
            (length - 1) as u16
        };
        let cells = route_cells(&route.path);
        moves.push(TacticalMoveDto { x: route.destination.x, y: route.destination.y, cost, route: cells });
        index = index + 1;
    }
    moves
}

/// The entities of the participants still standing, in order.
pub open spec fn undefeated_entities(order: Seq<ParticipantStanding>) -> Seq<EntityId>
    decreases order.len(),
{
    if order.len() == 0 {
        Seq::empty()
    } else {
        let rest = undefeated_entities(order.drop_last());
        if order.last().vitality != 0 {
            rest.push(order.last().entity)
        } else {
            rest
        }
    }
}

/// Whom the encounter view offers as targets: every participant still
/// standing while a party member acts, nobody otherwise.
pub open spec fn target_candidates_spec(order: Seq<ParticipantStanding>, current: Option<EntityId>) -> Result<
    Seq<EntityId>,
    GameRuntimeError,
> {
    match current {
        None => Ok(Seq::empty()),
        Some(actor) => match position_of_from(order, actor, 0) {
            None => Err(GameRuntimeError::InvalidState(StateProblem::CurrentActorNotParticipant)),
            Some(k) => if order[k].faction == EncounterFaction::Party {
                Ok(undefeated_entities(order))
            } else {
                Ok(Seq::empty())
            },
        },
    }
}

/// Lists the targets the encounter view offers.
pub fn target_candidates(order: &Vec<ParticipantStanding>, current: Option<EntityId>) -> (result:
    Result<Vec<EntityId>, GameRuntimeError>)
    ensures
        match target_candidates_spec(order@, current) {
            Ok(ids) => result matches Ok(v) && v@ == ids,
            Err(error) => result == Err::<Vec<EntityId>, GameRuntimeError>(error),
        },
{
    let actor = match current {
        None => {
            return Ok(Vec::new());
        },
        Some(actor) => actor,
    };
    let k = match standing_index(order, actor) {
        None => {
            return Err(GameRuntimeError::InvalidState(StateProblem::CurrentActorNotParticipant));
        },
        Some(k) => k,
    };
    match order[k].faction {
        EncounterFaction::Opposition => {
            return Ok(Vec::new());
        },
        EncounterFaction::Party => {},
    }
    let mut ids: Vec<EntityId> = Vec::new();
    let mut index: usize = 0;
    while index < order.len()
        invariant
            0 <= index <= order@.len(),
            ids@ == undefeated_entities(order@.take(index as int)),
        decreases order@.len() - index,
    {
        proof {
            assert(order@.take(index as int + 1).drop_last() =~= order@.take(index as int));
        }
        if order[index].vitality != 0 {
            ids.push(order[index].entity);
        }
        index = index + 1;
    }
    proof {
        assert(order@.take(order@.len() as int) =~= order@);
    }
    Ok(ids)
}

/// The protocol form of a faction.
pub open spec fn faction_dto_spec(faction: EncounterFaction) -> EncounterFactionDto {
    match faction {
        EncounterFaction::Party => EncounterFactionDto::Party,
        EncounterFaction::Opposition => EncounterFactionDto::Opposition,
    }
}

/// Converts a faction to its protocol form.
pub fn faction_dto(faction: EncounterFaction) -> (dto: EncounterFactionDto)
    ensures
        dto == faction_dto_spec(faction),
{
    match faction {
        EncounterFaction::Party => EncounterFactionDto::Party,
        EncounterFaction::Opposition => EncounterFactionDto::Opposition,
    }
}

/// The encounter view of one participant: its character readout, faction,
/// initiative, whether it is defeated, and its cell.
pub fn project_participant(
    standing: ParticipantStanding,
    position: TacticalPosition,
    character: CharacterDto,
) -> (dto: EncounterParticipantDto)
    ensures
        dto.character == character,
        dto.faction == faction_dto_spec(standing.faction),
        dto.initiative == standing.initiative,
        dto.defeated == (standing.vitality == 0),
        dto.x == position.x,
        dto.y == position.y,
{
    EncounterParticipantDto {
        character,
        faction: faction_dto(standing.faction),
        initiative: standing.initiative,
        defeated: standing.vitality == 0,
        x: position.x,
        y: position.y,
    }
}

/// Why an answer to a reaction prompt is refused, if it is: it must be
/// written against the current revision, during an encounter, with room in
/// the log, and name the prompt that waits.
pub open spec fn prompt_answer_refusal(
    expected_revision: u64,
    revision: u64,
    phase: Option<CampaignPhase>,
    next_log_id: u64,
    pending: Option<Seq<char>>,
    token: Seq<char>,
) -> Option<GameRuntimeError> {
    if expected_revision != revision {
        Some(
            GameRuntimeError::StaleCommand(
                StaleRevision { expected: expected_revision, current: revision },
            ),
        )
    } else if phase is None {
        Some(GameRuntimeError::NoEncounter)
    } else if phase != Some(CampaignPhase::Encounter) {
        Some(GameRuntimeError::WrongPhase(PhaseRequirement::Encounter))
    } else if revision == u64::MAX || next_log_id == u64::MAX {
        Some(GameRuntimeError::CounterOverflow)
    } else if pending != Some(token) {
        Some(GameRuntimeError::StalePrompt)
    } else {
        None
    }
}

/// Checks an answer to the reaction prompt named `token`; `pending` is the
/// token of the prompt that waits, if any.
pub fn ensure_prompt_answer(
    expected_revision: u64,
    revision: u64,
    phase: Option<CampaignPhase>,
    next_log_id: u64,
    pending: &Option<String>,
    token: &String,
) -> (result: Result<(), GameRuntimeError>)
    ensures
        match prompt_answer_refusal(
            expected_revision,
            revision,
            phase,
            next_log_id,
            crate::game::campaign::text_of(*pending),
            token@,
        ) {
            Some(error) => result == Err::<(), GameRuntimeError>(error),
            None => result == Ok::<(), GameRuntimeError>(()),
        },
{
    if expected_revision != revision {
        return Err(
            GameRuntimeError::StaleCommand(
                StaleRevision { expected: expected_revision, current: revision },
            ),
        );
    }
    match phase {
        None => {
            return Err(GameRuntimeError::NoEncounter);
        },
        Some(p) => {
            if p != CampaignPhase::Encounter {
                return Err(GameRuntimeError::WrongPhase(PhaseRequirement::Encounter));
            }
        },
    }
    if revision == u64::MAX || next_log_id == u64::MAX {
        return Err(GameRuntimeError::CounterOverflow);
    }
    let waits = match pending {
        Some(waiting) => {
            let same = *waiting == *token;
            proof {
                assert(same == (waiting@ == token@));
            }
            same
        },
        None => false,
    };
    if !waits {
        return Err(GameRuntimeError::StalePrompt);
    }
    Ok(())
}

} // verus!
