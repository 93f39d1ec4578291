use vstd::prelude::*;

use crate::component::{entries_view, index_of, spend_entry, spent, ActionResource};
use crate::definitions::{contains_id, find_named, ids_view, names, ActionDefinition, ReactionDefinition};
use crate::identity::D20Id;
use crate::session::error::{D20ComponentKind, D20SessionError, EntityId, SessionErrorView};
use crate::session::resolution::ReactionOption;

verus! {

/// Finds the action named `action` among the rules' actions.
pub fn find_action(actions: &Vec<ActionDefinition>, action: &D20Id) -> (result: Result<
    usize,
    D20SessionError,
>)
    ensures
        match index_of(names(actions@), action@) {
            Some(i) => result == Ok::<usize, D20SessionError>(i as usize),
            None => result matches Err(e) && e@ == SessionErrorView::UnknownAction(action@),
        },
{
    match find_named(actions, action) {
        Some(i) => Ok(i),
        None => Err(D20SessionError::UnknownAction(action.duplicate())),
    }
}

/// What an action that needs `implement` finds on its actor: nothing to
/// check without an implement; the actor must have equipment, and one of
/// its equipped items must be the implement.
pub open spec fn implement_problem(
    entity: EntityId,
    implement: Option<Seq<char>>,
    equipped: Option<Seq<Seq<char>>>,
) -> Option<SessionErrorView> {
    match implement {
        None => None,
        Some(needed) => match equipped {
            None => Some(
                SessionErrorView::MissingComponent { entity, component: D20ComponentKind::Equipment },
            ),
            Some(items) => if items.contains(needed) {
                None
            } else {
                Some(SessionErrorView::RequiredImplementNotEquipped { entity, implement: needed })
            },
        },
    }
}

/// Refuses an action whose implement its actor has not equipped;
/// `equipped` lists the implements the actor's equipped items are, and is
/// `None` when the actor has no equipment.
pub fn ensure_implement_equipped(
    entity: EntityId,
    implement: &Option<D20Id>,
    equipped: &Option<Vec<D20Id>>,
) -> (result: Result<(), D20SessionError>)
    ensures
        match implement_problem(
            entity,
            match implement {
                Some(i) => Some(i@),
                None => None,
            },
            match equipped {
                Some(items) => Some(ids_view(items@)),
                None => None,
            },
        ) {
            None => result is Ok,
            Some(view) => result matches Err(e) && e@ == view,
        },
{
    match implement {
        None => Ok(()),
        Some(needed) => match equipped {
            None => Err(
                D20SessionError::MissingComponent { entity, component: D20ComponentKind::Equipment },
            ),
            Some(items) => if contains_id(items, needed) {
                Ok(())
            } else {
                Err(
                    D20SessionError::RequiredImplementNotEquipped {
                        entity,
                        implement: needed.duplicate(),
                    },
                )
            },
        },
    }
}

/// Whether a preview offered the reaction `reaction`.
pub open spec fn offered_reaction(offered: Seq<ReactionOption>, reaction: Seq<char>) -> bool {
    exists|j: int| 0 <= j < offered.len() && #[trigger] offered[j]@.reaction == reaction
}

/// What raising `reaction` leaves of the defender's resources: the
/// preview must have offered it, the rules define it, and the defender
/// holds its resource cost, which it pays; else the reaction is
/// unavailable.
pub open spec fn reaction_admission(
    offered: Seq<ReactionOption>,
    reactions: Seq<ReactionDefinition>,
    reaction: Seq<char>,
    resources: Seq<(Seq<char>, u16)>,
) -> Result<Seq<(Seq<char>, u16)>, SessionErrorView> {
    let unavailable = SessionErrorView::ReactionUnavailable(reaction);
    if !offered_reaction(offered, reaction) {
        Err(unavailable)
    } else {
        match index_of(names(reactions), reaction) {
            None => Err(unavailable),
            Some(k) => match spent(resources, reactions[k].resource@, reactions[k].cost) {
                None => Err(unavailable),
                Some(after) => Ok(after),
            },
        }
    }
}

/// Admits raising `reaction` against a preview and returns the defender's
/// resources after paying for it.
pub fn admit_reaction(
    offered: &Vec<ReactionOption>,
    reactions: &Vec<ReactionDefinition>,
    reaction: &D20Id,
    resources: &Vec<ActionResource>,
) -> (result: Result<Vec<ActionResource>, D20SessionError>)
    ensures
        match reaction_admission(offered@, reactions@, reaction@, entries_view(resources@)) {
            Ok(after) => result matches Ok(list) && entries_view(list@) == after,
            Err(view) => result matches Err(e) && e@ == view,
        },
{
    let mut index: usize = 0;
    let mut found = false;
    while index < offered.len() && !found
        invariant
            0 <= index <= offered@.len(),
            found ==> offered_reaction(offered@, reaction@),
            !found ==> forall|j: int| 0 <= j < index ==> offered@[j]@.reaction != reaction@,
        decreases offered@.len() - index,
    {
        if offered[index].reaction().same_as(reaction) {
            found = true;
        }
        index = index + 1;
    }
    if !found {
        return Err(D20SessionError::ReactionUnavailable(reaction.duplicate()));
    }
    match find_named(reactions, reaction) {
        None => Err(D20SessionError::ReactionUnavailable(reaction.duplicate())),
        Some(k) => match spend_entry(resources, &reactions[k].resource, reactions[k].cost) {
            None => Err(D20SessionError::ReactionUnavailable(reaction.duplicate())),
            Some(after) => Ok(after),
        },
    }
}

} // verus!
