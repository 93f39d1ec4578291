use vstd::prelude::*;

use crate::component::{entries_view, has_key, AbilityScore, ActionResource, ActivationBudget};
use crate::definitions::{contains_id, ids_view, D20Rules};
use crate::identity::D20Id;
use crate::session::error::{
    D20ComponentKind, D20SessionError, EntityId, ParticipationProblem, SessionErrorView,
};
use crate::session::persistence::{budgets_refused, budgets_verdict, validate_restored_budgets};
use crate::session::resolution::{effect_keys, find_effect, ScheduledEffect};
use crate::session::runtime::{character_facts_problem, first_problem, validate_character_facts};

verus! {

/// An effect in force on an entity: its instance, and the effect
/// definition it applies.
#[derive(Debug, PartialEq, Eq)]
pub struct ActiveEffectFact {
    pub instance: D20Id,
    pub definition: D20Id,
}

/// The components a restored entity holds; each is `None` when the entity
/// lacks it.
#[derive(Debug, PartialEq, Eq)]
pub struct RestoredEntity {
    pub entity: EntityId,
    pub abilities: Option<Vec<AbilityScore>>,
    pub resources: Option<Vec<ActionResource>>,
    pub budgets: Option<Vec<ActivationBudget>>,
    pub schedule: Option<Vec<ScheduledEffect>>,
    pub active: Option<Vec<ActiveEffectFact>>,
    pub participation: Option<D20Id>,
}

/// The refusal for an entity that lacks a component.
pub open spec fn missing(entity: EntityId, component: D20ComponentKind) -> SessionErrorView {
    SessionErrorView::MissingComponent { entity, component }
}

/// The first component a character lacks among those every character
/// carries beside its ability scores: resources, scheduled effects, active
/// effects, activation budgets.
pub open spec fn companion_gap(e: RestoredEntity) -> Option<SessionErrorView> {
    if e.resources is None {
        Some(missing(e.entity, D20ComponentKind::ActionResources))
    } else if e.schedule is None {
        Some(missing(e.entity, D20ComponentKind::ScheduledEffects))
    } else if e.active is None {
        Some(missing(e.entity, D20ComponentKind::ActiveEffects))
    } else if e.budgets is None {
        Some(missing(e.entity, D20ComponentKind::ActivationBudgets))
    } else {
        None
    }
}

/// The restored budgets of an entity, empty when it has none.
pub open spec fn budgets_of(e: RestoredEntity) -> Seq<(Seq<char>, u16)> {
    match e.budgets {
        Some(b) => entries_view(b@),
        None => Seq::empty(),
    }
}

/// The character facts of an entity, empty where it has none.
pub open spec fn facts_of(rules: D20Rules, e: RestoredEntity) -> Option<SessionErrorView> {
    match (e.abilities, e.resources) {
        (Some(a), Some(r)) => character_facts_problem(rules, e.entity, entries_view(a@), entries_view(r@)),
        _ => None,
    }
}

/// Whether a character (an entity with ability scores) is refused: it
/// lacks a companion component, its budgets are refused, or its ability
/// scores and resources do not fit the rules.
pub open spec fn character_refused(rules: D20Rules, e: RestoredEntity) -> bool {
    &&& e.abilities is Some
    &&& {
        ||| companion_gap(e) is Some
        ||| budgets_refused(e.entity, entries_view(rules.activation_budgets@), budgets_of(e))
        ||| facts_of(rules, e) is Some
    }
}

/// What the check of a refused character answers, in the order of its
/// checks: a missing component, the budgets, then the character facts.
pub open spec fn character_verdict(
    rules: D20Rules,
    e: RestoredEntity,
    result: Result<(), D20SessionError>,
) -> bool {
    match companion_gap(e) {
        Some(view) => result matches Err(x) && x@ == view,
        None => if budgets_refused(e.entity, entries_view(rules.activation_budgets@), budgets_of(e)) {
            budgets_verdict(e.entity, entries_view(rules.activation_budgets@), budgets_of(e), result)
        } else {
            match facts_of(rules, e) {
                Some(view) => result matches Err(x) && x@ == view,
                None => result is Ok,
            }
        },
    }
}

/// Position of the first refused character from `i` on.
pub open spec fn refused_character_from(rules: D20Rules, entities: Seq<RestoredEntity>, i: nat) -> Option<
    int,
>
    decreases entities.len() - i,
{
    if i >= entities.len() {
        None
    } else if character_refused(rules, entities[i as int]) {
        Some(i as int)
    } else {
        refused_character_from(rules, entities, i + 1)
    }
}

/// The first entity, from `i` on, that holds resources without ability
/// scores.
pub open spec fn stray_resources_from(entities: Seq<RestoredEntity>, i: nat) -> Option<SessionErrorView>
    decreases entities.len() - i,
{
    if i >= entities.len() {
        None
    } else if entities[i as int].resources is Some && entities[i as int].abilities is None {
        Some(missing(entities[i as int].entity, D20ComponentKind::AbilityScores))
    } else {
        stray_resources_from(entities, i + 1)
    }
}

/// The first participation, from `i` on, of an entity without ability
/// scores or in an encounter the rules do not know.
pub open spec fn participation_problem_from(
    encounters: Seq<Seq<char>>,
    entities: Seq<RestoredEntity>,
    i: nat,
) -> Option<SessionErrorView>
    decreases entities.len() - i,
{
    if i >= entities.len() {
        None
    } else {
        let e = entities[i as int];
        match e.participation {
            Some(encounter) => if e.abilities is None {
                Some(
                    SessionErrorView::InvalidEncounterParticipation(
                        ParticipationProblem::WithoutCharacterFacts { entity: e.entity },
                    ),
                )
            } else if !encounters.contains(encounter@) {
                Some(
                    SessionErrorView::InvalidEncounterParticipation(
                        ParticipationProblem::UnknownEncounter { entity: e.entity },
                    ),
                )
            } else {
                participation_problem_from(encounters, entities, i + 1)
            },
            None => participation_problem_from(encounters, entities, i + 1),
        }
    }
}

/// Whether some active effect is the instance `instance`.
pub open spec fn instance_active(active: Seq<ActiveEffectFact>, instance: Seq<char>) -> bool {
    exists|j: int| 0 <= j < active.len() && #[trigger] active[j].instance@ == instance
}

/// The first scheduled effect, from `i` on, whose definition the rules
/// lack or whose instance is not in force.
pub open spec fn unmatched_schedule_from(
    rules: D20Rules,
    schedule: Seq<ScheduledEffect>,
    active: Seq<ActiveEffectFact>,
    i: nat,
) -> Option<SessionErrorView>
    decreases schedule.len() - i,
{
    if i >= schedule.len() {
        None
    } else if !has_key(effect_keys(rules.effects@), schedule[i as int].definition@) || !instance_active(
        active,
        schedule[i as int].instance@,
    ) {
        Some(SessionErrorView::MissingEffectInstance(schedule[i as int].definition@))
    } else {
        unmatched_schedule_from(rules, schedule, active, i + 1)
    }
}

/// Position, from `i` on, of the first scheduled effect of instance
/// `instance`.
pub open spec fn scheduled_instance_from(schedule: Seq<ScheduledEffect>, instance: Seq<char>, i: nat) -> Option<
    int,
>
    decreases schedule.len() - i,
{
    if i >= schedule.len() {
        None
    } else if schedule[i as int].instance@ == instance {
        Some(i as int)
    } else {
        scheduled_instance_from(schedule, instance, i + 1)
    }
}

/// The first active effect, from `i` on, that no scheduled effect of the
/// same instance and definition accounts for.
pub open spec fn unscheduled_from(
    entity: EntityId,
    schedule: Seq<ScheduledEffect>,
    active: Seq<ActiveEffectFact>,
    i: nat,
) -> Option<SessionErrorView>
    decreases active.len() - i,
{
    if i >= active.len() {
        None
    } else {
        let effect = active[i as int];
        let refused = match scheduled_instance_from(schedule, effect.instance@, 0) {
            Some(k) => schedule[k].definition@ != effect.definition@,
            None => true,
        };
        if refused {
            Some(SessionErrorView::UnscheduledActiveEffect { entity, instance: effect.instance@ })
        } else {
            unscheduled_from(entity, schedule, active, i + 1)
        }
    }
}

/// The problem of an entity's scheduled effects: it must be a character,
/// hold active effects, and the two must account for each other.
pub open spec fn schedule_problem(rules: D20Rules, e: RestoredEntity) -> Option<SessionErrorView> {
    match e.schedule {
        None => None,
        Some(schedule) => if e.abilities is None {
            Some(missing(e.entity, D20ComponentKind::AbilityScores))
        } else {
            match e.active {
                None => Some(missing(e.entity, D20ComponentKind::ActiveEffects)),
                Some(active) => first_problem(
                    unmatched_schedule_from(rules, schedule@, active@, 0),
                    unscheduled_from(e.entity, schedule@, active@, 0),
                ),
            }
        },
    }
}

/// The first schedule problem from entity `i` on.
pub open spec fn schedule_problem_from(rules: D20Rules, entities: Seq<RestoredEntity>, i: nat) -> Option<
    SessionErrorView,
>
    decreases entities.len() - i,
{
    if i >= entities.len() {
        None
    } else if schedule_problem(rules, entities[i as int]) is Some {
        schedule_problem(rules, entities[i as int])
    } else {
        schedule_problem_from(rules, entities, i + 1)
    }
}

/// What the check of a restored session answers. Characters are checked
/// first, in entity order; then entities with resources but no ability
/// scores; then encounter participations; then scheduled and active
/// effects.
pub open spec fn restored_session_verdict(
    rules: D20Rules,
    encounters: Seq<Seq<char>>,
    entities: Seq<RestoredEntity>,
    result: Result<(), D20SessionError>,
) -> bool {
    match refused_character_from(rules, entities, 0) {
        Some(k) => character_verdict(rules, entities[k], result),
        None => match first_problem(
            stray_resources_from(entities, 0),
            first_problem(
                participation_problem_from(encounters, entities, 0),
                schedule_problem_from(rules, entities, 0),
            ),
        ) {
            Some(view) => result matches Err(x) && x@ == view,
            None => result is Ok,
        },
    }
}

/// Checks one character of a restored session.
fn check_character(rules: &D20Rules, e: &RestoredEntity) -> (result: Result<(), D20SessionError>)
    requires
        e.abilities is Some,
        forall|i: int, j: int|
            0 <= i < j < rules.activation_budgets@.len() ==> #[trigger] rules.activation_budgets@[i].id@
                != #[trigger] rules.activation_budgets@[j].id@,
    ensures
        result is Err <==> character_refused(*rules, *e),
        character_refused(*rules, *e) ==> character_verdict(*rules, *e, result),
{
    let abilities = match &e.abilities {
        Some(a) => a,
        None => {
            return Ok(());
        },
    };
    let resources = match &e.resources {
        Some(r) => r,
        None => {
            return Err(
                D20SessionError::MissingComponent {
                    entity: e.entity,
                    component: D20ComponentKind::ActionResources,
                },
            );
        },
    };
    if e.schedule.is_none() {
        return Err(
            D20SessionError::MissingComponent {
                entity: e.entity,
                component: D20ComponentKind::ScheduledEffects,
            },
        );
    }
    if e.active.is_none() {
        return Err(
            D20SessionError::MissingComponent {
                entity: e.entity,
                component: D20ComponentKind::ActiveEffects,
            },
        );
    }
    let budgets = match &e.budgets {
        Some(b) => b,
        None => {
            return Err(
                D20SessionError::MissingComponent {
                    entity: e.entity,
                    component: D20ComponentKind::ActivationBudgets,
                },
            );
        },
    };
    let checked = validate_restored_budgets(e.entity, &rules.activation_budgets, budgets);
    if checked.is_err() {
        return checked;
    }
    validate_character_facts(rules, e.entity, abilities, resources)
}

/// Position of the first scheduled effect of instance `instance`.
fn find_scheduled(schedule: &Vec<ScheduledEffect>, instance: &D20Id) -> (found: Option<usize>)
    ensures
        found matches Some(k) ==> scheduled_instance_from(schedule@, instance@, 0) == Some(k as int)
            && k < schedule@.len(),
        found is None ==> scheduled_instance_from(schedule@, instance@, 0) is None,
{
    let mut index: usize = 0;
    while index < schedule.len()
        invariant
            0 <= index <= schedule@.len(),
            scheduled_instance_from(schedule@, instance@, 0) == scheduled_instance_from(
                schedule@,
                instance@,
                index as nat,
            ),
        decreases schedule@.len() - index,
    {
        if schedule[index].instance.same_as(instance) {
            return Some(index);
        }
        index = index + 1;
    }
    None
}

/// Whether some active effect is the instance `instance`.
fn is_active(active: &Vec<ActiveEffectFact>, instance: &D20Id) -> (found: bool)
    ensures
        found == instance_active(active@, instance@),
{
    let mut index: usize = 0;
    while index < active.len()
        invariant
            0 <= index <= active@.len(),
            forall|j: int| 0 <= j < index ==> active@[j].instance@ != instance@,
        decreases active@.len() - index,
    {
        if active[index].instance.same_as(instance) {
            return true;
        }
        index = index + 1;
    }
    false
}

/// Checks the scheduled and active effects of one entity.
fn check_schedule(rules: &D20Rules, e: &RestoredEntity) -> (result: Result<(), D20SessionError>)
    ensures
        match schedule_problem(*rules, *e) {
            Some(view) => result matches Err(x) && x@ == view,
            None => result is Ok,
        },
{
    let schedule = match &e.schedule {
        Some(s) => s,
        None => {
            return Ok(());
        },
    };
    if e.abilities.is_none() {
        return Err(
            D20SessionError::MissingComponent {
                entity: e.entity,
                component: D20ComponentKind::AbilityScores,
            },
        );
    }
    let active = match &e.active {
        Some(a) => a,
        None => {
            return Err(
                D20SessionError::MissingComponent {
                    entity: e.entity,
                    component: D20ComponentKind::ActiveEffects,
                },
            );
        },
    };
    let mut index: usize = 0;
    while index < schedule.len()
        invariant
            0 <= index <= schedule@.len(),
            e.abilities is Some,
            e.schedule matches Some(s) && s@ == schedule@,
            e.active matches Some(a) && a@ == active@,
            unmatched_schedule_from(*rules, schedule@, active@, 0) == unmatched_schedule_from(
                *rules,
                schedule@,
                active@,
                index as nat,
            ),
        decreases schedule@.len() - index,
    {
        let scheduled = &schedule[index];
        if find_effect(&rules.effects, &scheduled.definition).is_none() || !is_active(
            active,
            &scheduled.instance,
        ) {
            return Err(D20SessionError::MissingEffectInstance(scheduled.definition.duplicate()));
        }
        index = index + 1;
    }
    let mut held: usize = 0;
    while held < active.len()
        invariant
            0 <= held <= active@.len(),
            e.abilities is Some,
            e.schedule matches Some(s) && s@ == schedule@,
            e.active matches Some(a) && a@ == active@,
            unmatched_schedule_from(*rules, schedule@, active@, 0) is None,
            unscheduled_from(e.entity, schedule@, active@, 0) == unscheduled_from(
                e.entity,
                schedule@,
                active@,
                held as nat,
            ),
        decreases active@.len() - held,
    {
        let effect = &active[held];
        let refused = match find_scheduled(schedule, &effect.instance) {
            Some(k) => !schedule[k].definition.same_as(&effect.definition),
            None => true,
        };
        if refused {
            return Err(
                D20SessionError::UnscheduledActiveEffect {
                    entity: e.entity,
                    instance: effect.instance.duplicate(),
                },
            );
        }
        held = held + 1;
    }
    Ok(())
}

/// Checks the entities of a restored session against the rules and the
/// identities of the rules' encounters. `entities` lists every entity with
/// the components it holds, in entity order; the first problem found in
/// the order `restored_session_verdict` states is reported.
pub fn validate_restored_session(
    rules: &D20Rules,
    encounters: &Vec<D20Id>,
    entities: &Vec<RestoredEntity>,
) -> (result: Result<(), D20SessionError>)
    requires
        forall|i: int, j: int|
            0 <= i < j < rules.activation_budgets@.len() ==> #[trigger] rules.activation_budgets@[i].id@
                != #[trigger] rules.activation_budgets@[j].id@,
    ensures
        restored_session_verdict(*rules, ids_view(encounters@), entities@, result),
{
    let mut index: usize = 0;
    while index < entities.len()
        invariant
            0 <= index <= entities@.len(),
            forall|i: int, j: int|
                0 <= i < j < rules.activation_budgets@.len() ==> #[trigger] rules.activation_budgets@[i].id@
                    != #[trigger] rules.activation_budgets@[j].id@,
            refused_character_from(*rules, entities@, 0) == refused_character_from(
                *rules,
                entities@,
                index as nat,
            ),
        decreases entities@.len() - index,
    {
        let e = &entities[index];
        if e.abilities.is_some() {
            let checked = check_character(rules, e);
            if checked.is_err() {
                return checked;
            }
        }
        index = index + 1;
    }
    let mut stray: usize = 0;
    while stray < entities.len()
        invariant
            0 <= stray <= entities@.len(),
            refused_character_from(*rules, entities@, 0) is None,
            stray_resources_from(entities@, 0) == stray_resources_from(entities@, stray as nat),
        decreases entities@.len() - stray,
    {
        let e = &entities[stray];
        if e.resources.is_some() && e.abilities.is_none() {
            return Err(
                D20SessionError::MissingComponent {
                    entity: e.entity,
                    component: D20ComponentKind::AbilityScores,
                },
            );
        }
        stray = stray + 1;
    }
    let mut taking: usize = 0;
    while taking < entities.len()
        invariant
            0 <= taking <= entities@.len(),
            refused_character_from(*rules, entities@, 0) is None,
            stray_resources_from(entities@, 0) is None,
            participation_problem_from(ids_view(encounters@), entities@, 0)
                == participation_problem_from(ids_view(encounters@), entities@, taking as nat),
        decreases entities@.len() - taking,
    {
        let e = &entities[taking];
        match &e.participation {
            Some(encounter) => {
                if e.abilities.is_none() {
                    return Err(
                        D20SessionError::InvalidEncounterParticipation(
                            ParticipationProblem::WithoutCharacterFacts { entity: e.entity },
                        ),
                    );
                }
                if !contains_id(encounters, encounter) {
                    return Err(
                        D20SessionError::InvalidEncounterParticipation(
                            ParticipationProblem::UnknownEncounter { entity: e.entity },
                        ),
                    );
                }
            },
            None => {},
        }
        taking = taking + 1;
    }
    let mut scheduled: usize = 0;
    while scheduled < entities.len()
        invariant
            0 <= scheduled <= entities@.len(),
            refused_character_from(*rules, entities@, 0) is None,
            stray_resources_from(entities@, 0) is None,
            participation_problem_from(ids_view(encounters@), entities@, 0) is None,
            schedule_problem_from(*rules, entities@, 0) == schedule_problem_from(
                *rules,
                entities@,
                scheduled as nat,
            ),
        decreases entities@.len() - scheduled,
    {
        let checked = check_schedule(rules, &entities[scheduled]);
        if checked.is_err() {
            return checked;
        }
        scheduled = scheduled + 1;
    }
    Ok(())
}

} // verus!
