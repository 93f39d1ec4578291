use vstd::prelude::*;

use crate::component::{
    copy_entries, entries_view, entry_value, find_entry, has_key, spend_entry, spent, value_of,
    AbilityScore, ActionResource, ActivationBudget, ActivationCost, EncounterFaction,
    TacticalPosition,
};
use crate::definitions::{
    contains_id, find_named, ids_view, names, ActivationBudgetDefinition, AbilityDefinition,
    D20Rules, DefenseDefinition, ResourceDefinition,
};
use crate::identity::D20Id;
use crate::session::error::{
    D20ComponentKind, D20SessionError, EntityId, ParticipationProblem, SessionErrorView,
};
use crate::session::resolution::{ability_modifier, ScheduledEffect};
use crate::session::seed::{AffinitySeed, DamageAffinity};

verus! {

/// Largest vitality a character may be admitted with.
pub const MAX_D20_VITALITY: u32 = 1_000_000;

/// The current amount of `key`, or zero when there is no such budget.
pub open spec fn available_or_zero(budgets: Seq<(Seq<char>, u16)>, key: Seq<char>) -> u16 {
    match value_of(budgets, key) {
        Some(amount) => amount,
        None => 0,
    }
}

/// The budgets after paying the costs from position `i` in order, or the
/// refusal for the first cost the budgets cannot pay.
pub open spec fn costs_spent_from(
    budgets: Seq<(Seq<char>, u16)>,
    costs: Seq<(Seq<char>, u16)>,
    entity: EntityId,
    i: nat,
) -> Result<Seq<(Seq<char>, u16)>, SessionErrorView>
    decreases costs.len() - i,
{
    if i >= costs.len() {
        Ok(budgets)
    } else {
        match spent(budgets, costs[i as int].0, costs[i as int].1) {
            Some(after) => costs_spent_from(after, costs, entity, i + 1),
            None => Err(
                SessionErrorView::ActivationBudgetUnavailable {
                    entity,
                    budget: costs[i as int].0,
                    required: costs[i as int].1,
                    available: available_or_zero(budgets, costs[i as int].0),
                },
            ),
        }
    }
}

/// Pays `costs` from `budgets` in order. Each cost is drawn from what the
/// earlier costs left; a cost its budget cannot pay (or whose budget does
/// not exist) is `ActivationBudgetUnavailable` with the amount available.
pub fn spend_activation_costs(
    budgets: &Vec<ActivationBudget>,
    entity: EntityId,
    costs: &Vec<ActivationCost>,
) -> (result: Result<Vec<ActivationBudget>, D20SessionError>)
    ensures
        match costs_spent_from(entries_view(budgets@), entries_view(costs@), entity, 0) {
            Ok(after) => result matches Ok(list) && entries_view(list@) == after,
            Err(error) => result matches Err(e) && e@ == error,
        },
{
    let ghost goal = costs_spent_from(entries_view(budgets@), entries_view(costs@), entity, 0);
    let mut after = copy_entries(budgets);
    let mut index: usize = 0;
    while index < costs.len()
        invariant
            0 <= index <= costs@.len(),
            goal == costs_spent_from(entries_view(budgets@), entries_view(costs@), entity, 0),
            goal == costs_spent_from(entries_view(after@), entries_view(costs@), entity, index as nat),
        decreases costs@.len() - index,
    {
        let cost = &costs[index];
        assert(entries_view(costs@)[index as int] == (cost.id@, cost.value));
        let available = match entry_value(&after, &cost.id) {
            Some(amount) => amount,
            None => 0,
        };
        match spend_entry(&after, &cost.id, cost.value) {
            Some(next) => {
                after = next;
            },
            None => {
                return Err(
                    D20SessionError::ActivationBudgetUnavailable {
                        entity,
                        budget: cost.id.duplicate(),
                        required: cost.value,
                        available,
                    },
                );
            },
        }
        index = index + 1;
    }
    Ok(after)
}

/// The first cost, from position `i`, that the unspent budgets cannot pay.
pub open spec fn first_uncovered_from(
    budgets: Seq<(Seq<char>, u16)>,
    costs: Seq<(Seq<char>, u16)>,
    entity: EntityId,
    i: nat,
) -> Option<SessionErrorView>
    decreases costs.len() - i,
{
    if i >= costs.len() {
        None
    } else if available_or_zero(budgets, costs[i as int].0) < costs[i as int].1 {
        Some(
            SessionErrorView::ActivationBudgetUnavailable {
                entity,
                budget: costs[i as int].0,
                required: costs[i as int].1,
                available: available_or_zero(budgets, costs[i as int].0),
            },
        )
    } else {
        first_uncovered_from(budgets, costs, entity, i + 1)
    }
}

/// Checks, without spending, that each cost on its own is within its
/// budget; the first cost that is not is refused.
pub fn ensure_activation_costs(
    budgets: &Vec<ActivationBudget>,
    entity: EntityId,
    costs: &Vec<ActivationCost>,
) -> (result: Result<(), D20SessionError>)
    ensures
        match first_uncovered_from(entries_view(budgets@), entries_view(costs@), entity, 0) {
            None => result is Ok,
            Some(error) => result matches Err(e) && e@ == error,
        },
{
    let mut index: usize = 0;
    while index < costs.len()
        invariant
            0 <= index <= costs@.len(),
            first_uncovered_from(entries_view(budgets@), entries_view(costs@), entity, 0)
                == first_uncovered_from(
                entries_view(budgets@),
                entries_view(costs@),
                entity,
                index as nat,
            ),
        decreases costs@.len() - index,
    {
        let cost = &costs[index];
        assert(entries_view(costs@)[index as int] == (cost.id@, cost.value));
        let available = match entry_value(budgets, &cost.id) {
            Some(amount) => amount,
            None => 0,
        };
        if available < cost.value {
            return Err(
                D20SessionError::ActivationBudgetUnavailable {
                    entity,
                    budget: cost.id.duplicate(),
                    required: cost.value,
                    available,
                },
            );
        }
        index = index + 1;
    }
    Ok(())
}

/// The budgets every activation starts with: each authored budget at its
/// initial amount.
pub fn reset_activation_budgets(definitions: &Vec<ActivationBudgetDefinition>) -> (budgets: Vec<
    ActivationBudget,
>)
    ensures
        entries_view(budgets@) == entries_view(definitions@),
{
    copy_entries(definitions)
}

/// The budgets after a voluntary move that costs `movement_cost` squares:
/// a free move changes nothing; a paid move is refused while an active
/// effect forbids movement, and otherwise spends the movement budget.
pub fn movement_budgets_after(
    budgets: &Vec<ActivationBudget>,
    entity: EntityId,
    movement: &D20Id,
    movement_cost: u16,
    prohibition: &Option<D20Id>,
) -> (result: Result<Vec<ActivationBudget>, D20SessionError>)
    ensures
        movement_cost == 0 ==> (result matches Ok(list) && entries_view(list@) == entries_view(
            budgets@,
        )),
        movement_cost > 0 && prohibition.is_some() ==> (result matches Err(e) && e@ == (
        SessionErrorView::MovementForbidden { entity, effect: prohibition.unwrap()@ })),
        movement_cost > 0 && prohibition.is_none() ==> match spent(
            entries_view(budgets@),
            movement@,
            movement_cost,
        ) {
            Some(after) => result matches Ok(list) && entries_view(list@) == after,
            None => result matches Err(e) && e@ == (SessionErrorView::ActivationBudgetUnavailable {
                entity,
                budget: movement@,
                required: movement_cost,
                available: available_or_zero(entries_view(budgets@), movement@),
            }),
        },
{
    if movement_cost == 0 {
        return Ok(copy_entries(budgets));
    }
    match prohibition {
        Some(effect) => {
            return Err(D20SessionError::MovementForbidden { entity, effect: effect.duplicate() });
        },
        None => {},
    }
    let available = match entry_value(budgets, movement) {
        Some(amount) => amount,
        None => 0,
    };
    match spend_entry(budgets, movement, movement_cost) {
        Some(after) => Ok(after),
        None => Err(
            D20SessionError::ActivationBudgetUnavailable {
                entity,
                budget: movement.duplicate(),
                required: movement_cost,
                available,
            },
        ),
    }
}

/// The facts a character is admitted with.
#[derive(Debug, PartialEq, Eq)]
pub struct CharacterSeed {
    pub entity: EntityId,
    pub name: String,
    pub vitality: u32,
    pub abilities: Vec<AbilityScore>,
    pub resources: Vec<ActionResource>,
    pub affinities: Vec<AffinitySeed>,
}

/// The first authored ability, from position `i`, that the scores lack or
/// hold outside its range.
pub open spec fn authored_ability_problem_from(
    definitions: Seq<AbilityDefinition>,
    scores: Seq<(Seq<char>, i16)>,
    entity: EntityId,
    i: nat,
) -> Option<SessionErrorView>
    decreases definitions.len() - i,
{
    if i >= definitions.len() {
        None
    } else {
        let definition = definitions[i as int];
        match value_of(scores, definition.id@) {
            None => Some(SessionErrorView::MissingAbility { entity, ability: definition.id@ }),
            Some(score) => if score < definition.minimum || score > definition.maximum {
                Some(
                    SessionErrorView::InvalidAbilityScore {
                        entity,
                        ability: definition.id@,
                        score,
                        minimum: definition.minimum,
                        maximum: definition.maximum,
                    },
                )
            } else {
                authored_ability_problem_from(definitions, scores, entity, i + 1)
            },
        }
    }
}

/// The first score, from position `i`, of an ability the rules do not define.
pub open spec fn unknown_ability_from(
    known: Seq<(Seq<char>, ())>,
    scores: Seq<(Seq<char>, i16)>,
    entity: EntityId,
    i: nat,
) -> Option<SessionErrorView>
    decreases scores.len() - i,
{
    if i >= scores.len() {
        None
    } else if !has_key(known, scores[i as int].0) {
        Some(SessionErrorView::MissingAbility { entity, ability: scores[i as int].0 })
    } else {
        unknown_ability_from(known, scores, entity, i + 1)
    }
}

/// The first authored resource, from position `i`, that the character
/// lacks or holds above its maximum.
pub open spec fn authored_resource_problem_from(
    definitions: Seq<ResourceDefinition>,
    resources: Seq<(Seq<char>, u16)>,
    entity: EntityId,
    i: nat,
) -> Option<SessionErrorView>
    decreases definitions.len() - i,
{
    if i >= definitions.len() {
        None
    } else {
        let definition = definitions[i as int];
        match value_of(resources, definition.id@) {
            None => Some(SessionErrorView::MissingResource { entity, resource: definition.id@ }),
            Some(current) => if current > definition.maximum {
                Some(
                    SessionErrorView::InvalidResourceValue {
                        entity,
                        resource: definition.id@,
                        current,
                        maximum: definition.maximum,
                    },
                )
            } else {
                authored_resource_problem_from(definitions, resources, entity, i + 1)
            },
        }
    }
}

/// The first resource, from position `i`, that the rules do not define.
pub open spec fn unknown_resource_from(
    known: Seq<(Seq<char>, ())>,
    resources: Seq<(Seq<char>, u16)>,
    entity: EntityId,
    i: nat,
) -> Option<SessionErrorView>
    decreases resources.len() - i,
{
    if i >= resources.len() {
        None
    } else if !has_key(known, resources[i as int].0) {
        Some(SessionErrorView::MissingResource { entity, resource: resources[i as int].0 })
    } else {
        unknown_resource_from(known, resources, entity, i + 1)
    }
}

/// `first` when it is a problem, else `second`.
pub open spec fn first_problem(
    first: Option<SessionErrorView>,
    second: Option<SessionErrorView>,
) -> Option<SessionErrorView> {
    if first is Some {
        first
    } else {
        second
    }
}

/// The first reason a character seed is not admissible under the rules:
/// authored abilities (missing or out of range), unknown abilities,
/// authored resources (missing or above maximum), unknown resources, then
/// vitality above `MAX_D20_VITALITY`.
pub open spec fn character_seed_problem(rules: D20Rules, seed: CharacterSeed) -> Option<
    SessionErrorView,
> {
    let scores = entries_view(seed.abilities@);
    let resources = entries_view(seed.resources@);
    first_problem(
        authored_ability_problem_from(rules.abilities@, scores, seed.entity, 0),
        first_problem(
            unknown_ability_from(names(rules.abilities@), scores, seed.entity, 0),
            first_problem(
                authored_resource_problem_from(rules.resources@, resources, seed.entity, 0),
                first_problem(
                    unknown_resource_from(names(rules.resources@), resources, seed.entity, 0),
                    if seed.vitality > MAX_D20_VITALITY {
                        Some(
                            SessionErrorView::VitalityOutOfBounds {
                                entity: seed.entity,
                                attempted: seed.vitality as i64,
                                minimum: 0,
                                maximum: MAX_D20_VITALITY as i64,
                            },
                        )
                    } else {
                        None
                    },
                ),
            ),
        ),
    )
}

fn check_authored_abilities(
    definitions: &Vec<AbilityDefinition>,
    scores: &Vec<AbilityScore>,
    entity: EntityId,
) -> (result: Result<(), D20SessionError>)
    ensures
        match authored_ability_problem_from(definitions@, entries_view(scores@), entity, 0) {
            None => result is Ok,
            Some(error) => result matches Err(e) && e@ == error,
        },
{
    let mut index: usize = 0;
    while index < definitions.len()
        invariant
            0 <= index <= definitions@.len(),
            authored_ability_problem_from(definitions@, entries_view(scores@), entity, 0)
                == authored_ability_problem_from(
                definitions@,
                entries_view(scores@),
                entity,
                index as nat,
            ),
        decreases definitions@.len() - index,
    {
        let definition = &definitions[index];
        match entry_value(scores, &definition.id) {
            None => {
                return Err(
                    D20SessionError::MissingAbility { entity, ability: definition.id.duplicate() },
                );
            },
            Some(score) => {
                if score < definition.minimum || score > definition.maximum {
                    return Err(
                        D20SessionError::InvalidAbilityScore {
                            entity,
                            ability: definition.id.duplicate(),
                            score,
                            minimum: definition.minimum,
                            maximum: definition.maximum,
                        },
                    );
                }
            },
        }
        index = index + 1;
    }
    Ok(())
}

fn check_known_abilities(
    definitions: &Vec<AbilityDefinition>,
    scores: &Vec<AbilityScore>,
    entity: EntityId,
) -> (result: Result<(), D20SessionError>)
    ensures
        match unknown_ability_from(names(definitions@), entries_view(scores@), entity, 0) {
            None => result is Ok,
            Some(error) => result matches Err(e) && e@ == error,
        },
{
    let mut index: usize = 0;
    while index < scores.len()
        invariant
            0 <= index <= scores@.len(),
            unknown_ability_from(names(definitions@), entries_view(scores@), entity, 0)
                == unknown_ability_from(
                names(definitions@),
                entries_view(scores@),
                entity,
                index as nat,
            ),
        decreases scores@.len() - index,
    {
        assert(entries_view(scores@)[index as int].0 == scores@[index as int].id@);
        if find_named(definitions, &scores[index].id).is_none() {
            return Err(
                D20SessionError::MissingAbility { entity, ability: scores[index].id.duplicate() },
            );
        }
        index = index + 1;
    }
    Ok(())
}

fn check_authored_resources(
    definitions: &Vec<ResourceDefinition>,
    resources: &Vec<ActionResource>,
    entity: EntityId,
) -> (result: Result<(), D20SessionError>)
    ensures
        match authored_resource_problem_from(definitions@, entries_view(resources@), entity, 0) {
            None => result is Ok,
            Some(error) => result matches Err(e) && e@ == error,
        },
{
    let mut index: usize = 0;
    while index < definitions.len()
        invariant
            0 <= index <= definitions@.len(),
            authored_resource_problem_from(definitions@, entries_view(resources@), entity, 0)
                == authored_resource_problem_from(
                definitions@,
                entries_view(resources@),
                entity,
                index as nat,
            ),
        decreases definitions@.len() - index,
    {
        let definition = &definitions[index];
        match entry_value(resources, &definition.id) {
            None => {
                return Err(
                    D20SessionError::MissingResource {
                        entity,
                        resource: definition.id.duplicate(),
                    },
                );
            },
            Some(current) => {
                if current > definition.maximum {
                    return Err(
                        D20SessionError::InvalidResourceValue {
                            entity,
                            resource: definition.id.duplicate(),
                            current,
                            maximum: definition.maximum,
                        },
                    );
                }
            },
        }
        index = index + 1;
    }
    Ok(())
}

fn check_known_resources(
    definitions: &Vec<ResourceDefinition>,
    resources: &Vec<ActionResource>,
    entity: EntityId,
) -> (result: Result<(), D20SessionError>)
    ensures
        match unknown_resource_from(names(definitions@), entries_view(resources@), entity, 0) {
            None => result is Ok,
            Some(error) => result matches Err(e) && e@ == error,
        },
{
    let mut index: usize = 0;
    while index < resources.len()
        invariant
            0 <= index <= resources@.len(),
            unknown_resource_from(names(definitions@), entries_view(resources@), entity, 0)
                == unknown_resource_from(
                names(definitions@),
                entries_view(resources@),
                entity,
                index as nat,
            ),
        decreases resources@.len() - index,
    {
        assert(entries_view(resources@)[index as int].0 == resources@[index as int].id@);
        if find_named(definitions, &resources[index].id).is_none() {
            return Err(
                D20SessionError::MissingResource {
                    entity,
                    resource: resources[index].id.duplicate(),
                },
            );
        }
        index = index + 1;
    }
    Ok(())
}

/// The first problem of a character's ability scores and resources under
/// the rules, in the order `character_seed_problem` checks them.
pub open spec fn character_facts_problem(
    rules: D20Rules,
    entity: EntityId,
    scores: Seq<(Seq<char>, i16)>,
    resources: Seq<(Seq<char>, u16)>,
) -> Option<SessionErrorView> {
    first_problem(
        authored_ability_problem_from(rules.abilities@, scores, entity, 0),
        first_problem(
            unknown_ability_from(names(rules.abilities@), scores, entity, 0),
            first_problem(
                authored_resource_problem_from(rules.resources@, resources, entity, 0),
                unknown_resource_from(names(rules.resources@), resources, entity, 0),
            ),
        ),
    )
}

/// Checks a character's ability scores and resources under the rules.
pub fn validate_character_facts(
    rules: &D20Rules,
    entity: EntityId,
    abilities: &Vec<AbilityScore>,
    resources: &Vec<ActionResource>,
) -> (result: Result<(), D20SessionError>)
    ensures
        match character_facts_problem(*rules, entity, entries_view(abilities@), entries_view(resources@)) {
            None => result is Ok,
            Some(error) => result matches Err(e) && e@ == error,
        },
{
    check_authored_abilities(&rules.abilities, abilities, entity)?;
    check_known_abilities(&rules.abilities, abilities, entity)?;
    check_authored_resources(&rules.resources, resources, entity)?;
    check_known_resources(&rules.resources, resources, entity)?;
    Ok(())
}

/// Admits a character seed under the rules, reporting the first problem
/// in the order `character_seed_problem` states.
pub fn validate_character_seed(rules: &D20Rules, character: &CharacterSeed) -> (result: Result<
    (),
    D20SessionError,
>)
    ensures
        match character_seed_problem(*rules, *character) {
            None => result is Ok,
            Some(error) => result matches Err(e) && e@ == error,
        },
{
    check_authored_abilities(&rules.abilities, &character.abilities, character.entity)?;
    check_known_abilities(&rules.abilities, &character.abilities, character.entity)?;
    check_authored_resources(&rules.resources, &character.resources, character.entity)?;
    check_known_resources(&rules.resources, &character.resources, character.entity)?;
    if character.vitality > MAX_D20_VITALITY {
        return Err(
            D20SessionError::VitalityOutOfBounds {
                entity: character.entity,
                attempted: character.vitality as i64,
                minimum: 0,
                maximum: MAX_D20_VITALITY as i64,
            },
        );
    }
    Ok(())
}

/// An intrinsic affinity binding derived from an affinity seed.
#[derive(Debug, PartialEq, Eq)]
pub struct AffinityBinding {
    pub damage_type: D20Id,
    pub affinity: DamageAffinity,
}

/// The damage types named by a list of affinity seeds.
pub open spec fn affinity_types(affinities: Seq<AffinitySeed>) -> Seq<Seq<char>> {
    affinities.map_values(|seed: AffinitySeed| seed.damage_type@)
}

/// The first affinity, from position `i`, naming a damage type the rules
/// do not define, or one already named earlier.
pub open spec fn affinity_problem_from(
    damage_types: Seq<Seq<char>>,
    affinities: Seq<AffinitySeed>,
    entity: EntityId,
    i: nat,
) -> Option<SessionErrorView>
    decreases affinities.len() - i,
{
    if i >= affinities.len() {
        None
    } else {
        let kind = affinities[i as int].damage_type@;
        if !damage_types.contains(kind) {
            Some(SessionErrorView::UnknownDamageType(kind))
        } else if affinity_types(affinities).take(i as int).contains(kind) {
            Some(SessionErrorView::DuplicateAffinity { entity, damage_type: kind })
        } else {
            affinity_problem_from(damage_types, affinities, entity, i + 1)
        }
    }
}

/// The mathematical value of a list of affinity bindings.
pub open spec fn bindings_view(bindings: Seq<AffinityBinding>) -> Seq<(Seq<char>, DamageAffinity)> {
    bindings.map_values(|binding: AffinityBinding| (binding.damage_type@, binding.affinity))
}

/// Binds a character's affinities: each must name a damage type of the
/// rules, at most once; the bindings keep the authored order.
pub fn affinity_bindings(rules: &D20Rules, entity: EntityId, affinities: &Vec<AffinitySeed>) -> (result:
    Result<Vec<AffinityBinding>, D20SessionError>)
    ensures
        match affinity_problem_from(ids_view(rules.damage_types@), affinities@, entity, 0) {
            None => result matches Ok(bindings) && bindings_view(bindings@) == affinities@.map_values(
                |seed: AffinitySeed| (seed.damage_type@, seed.affinity),
            ),
            Some(error) => result matches Err(e) && e@ == error,
        },
{
    let ghost known = ids_view(rules.damage_types@);
    let mut bindings: Vec<AffinityBinding> = Vec::new();
    let mut index: usize = 0;
    while index < affinities.len()
        invariant
            0 <= index <= affinities@.len(),
            known == ids_view(rules.damage_types@),
            affinity_problem_from(known, affinities@, entity, 0) == affinity_problem_from(
                known,
                affinities@,
                entity,
                index as nat,
            ),
            bindings@.len() == index,
            forall|j: int|
                0 <= j < index ==> (#[trigger] bindings@[j]).damage_type@ == affinities@[j].damage_type@
                    && bindings@[j].affinity == affinities@[j].affinity,
        decreases affinities@.len() - index,
    {
        let seed = &affinities[index];
        if !contains_id(&rules.damage_types, &seed.damage_type) {
            return Err(D20SessionError::UnknownDamageType(seed.damage_type.duplicate()));
        }
        let mut earlier: usize = 0;
        while earlier < index
            invariant
                0 <= earlier <= index < affinities@.len(),
                *seed == affinities@[index as int],
                known == ids_view(rules.damage_types@),
                known.contains(seed.damage_type@),
                affinity_problem_from(known, affinities@, entity, 0) == affinity_problem_from(
                    known,
                    affinities@,
                    entity,
                    index as nat,
                ),
                forall|j: int|
                    0 <= j < earlier ==> affinities@[j].damage_type@ != seed.damage_type@,
            decreases index - earlier,
        {
            if affinities[earlier].damage_type.same_as(&seed.damage_type) {
                assert(affinity_types(affinities@).take(index as int)[earlier as int]
                    == seed.damage_type@);
                return Err(
                    D20SessionError::DuplicateAffinity {
                        entity,
                        damage_type: seed.damage_type.duplicate(),
                    },
                );
            }
            earlier = earlier + 1;
        }
        assert(!affinity_types(affinities@).take(index as int).contains(seed.damage_type@)) by {
            assert forall|j: int| 0 <= j < index implies affinity_types(affinities@).take(
                index as int,
            )[j] != seed.damage_type@ by {
                assert(affinities@[j].damage_type@ != seed.damage_type@);
            }
        }
        bindings.push(
            AffinityBinding { damage_type: seed.damage_type.duplicate(), affinity: seed.affinity },
        );
        index = index + 1;
    }
    assert(bindings_view(bindings@) =~= affinities@.map_values(
        |seed: AffinitySeed| (seed.damage_type@, seed.affinity),
    ));
    Ok(bindings)
}

/// The best score among the listed abilities that the scores hold.
pub open spec fn best_score(abilities: Seq<Seq<char>>, scores: Seq<(Seq<char>, i16)>) -> Option<
    i16,
>
    decreases abilities.len(),
{
    if abilities.len() == 0 {
        None
    } else {
        let earlier = best_score(abilities.drop_last(), scores);
        match value_of(scores, abilities.last()) {
            None => earlier,
            Some(score) => match earlier {
                None => Some(score),
                Some(best) => Some(
                    if best >= score {
                        best
                    } else {
                        score
                    },
                ),
            },
        }
    }
}

/// A defense's value for a character: its base plus the modifier of the
/// character's best score among the defense's abilities.
pub fn defense_score(defense: &DefenseDefinition, scores: &Vec<AbilityScore>) -> (value: i64)
    requires
        best_score(ids_view(defense.abilities@), entries_view(scores@)) is Some,
        i16::MIN <= defense.base + (best_score(
            ids_view(defense.abilities@),
            entries_view(scores@),
        ).unwrap() - 10) / 2 <= i16::MAX,
    ensures
        value == defense.base + (best_score(ids_view(defense.abilities@), entries_view(scores@)).unwrap()
            - 10) / 2,
{
    let ghost abilities = ids_view(defense.abilities@);
    let mut best: Option<i16> = None;
    let mut index: usize = 0;
    while index < defense.abilities.len()
        invariant
            0 <= index <= defense.abilities@.len(),
            abilities == ids_view(defense.abilities@),
            best == best_score(abilities.take(index as int), entries_view(scores@)),
        decreases defense.abilities@.len() - index,
    {
        assert(abilities.take(index + 1).drop_last() =~= abilities.take(index as int));
        assert(abilities.take(index + 1).last() == defense.abilities@[index as int]@);
        match entry_value(scores, &defense.abilities[index]) {
            None => {},
            Some(score) => {
                best =
                    match best {
                        None => Some(score),
                        Some(current) => Some(
                            if current >= score {
                                current
                            } else {
                                score
                            },
                        ),
                    };
            },
        }
        index = index + 1;
    }
    assert(abilities.take(defense.abilities@.len() as int) =~= abilities);
    let score = match best {
        Some(score) => score,
        None => {
            assert(false);
            0
        },
    };
    defense.base as i64 + ability_modifier(score) as i64
}

/// A request to place one entity in an encounter.
#[derive(Debug, Clone, Copy, PartialEq, Eq)]
pub struct EncounterParticipationSeed {
    pub entity: EntityId,
    pub faction: EncounterFaction,
    pub initiative: i16,
    pub position: TacticalPosition,
}

/// The entities of a list of participation seeds.
pub open spec fn seed_entities(seeds: Seq<EncounterParticipationSeed>) -> Seq<EntityId> {
    seeds.map_values(|seed: EncounterParticipationSeed| seed.entity)
}

/// The first participant, from position `i`, that repeats an earlier one or
/// is not a character.
pub open spec fn participant_problem_from(
    seeds: Seq<EncounterParticipationSeed>,
    characters: Seq<EntityId>,
    i: nat,
) -> Option<SessionErrorView>
    decreases seeds.len() - i,
{
    if i >= seeds.len() {
        None
    } else {
        let entity = seeds[i as int].entity;
        if seed_entities(seeds).take(i as int).contains(entity) {
            Some(
                SessionErrorView::InvalidEncounterParticipation(
                    ParticipationProblem::DuplicateParticipant { entity },
                ),
            )
        } else if !characters.contains(entity) {
            Some(
                SessionErrorView::MissingComponent {
                    entity,
                    component: D20ComponentKind::AbilityScores,
                },
            )
        } else {
            participant_problem_from(seeds, characters, i + 1)
        }
    }
}

/// Why a participation request cannot be installed: it is empty, or the
/// first participant that repeats or is not a character.
pub open spec fn participation_problem(
    seeds: Seq<EncounterParticipationSeed>,
    characters: Seq<EntityId>,
) -> Option<SessionErrorView> {
    if seeds.len() == 0 {
        Some(
            SessionErrorView::InvalidEncounterParticipation(ParticipationProblem::NoParticipants),
        )
    } else {
        participant_problem_from(seeds, characters, 0)
    }
}

/// Checks an encounter participation request against the entities that
/// hold character facts (`characters`).
pub fn validate_participation_seeds(
    participants: &Vec<EncounterParticipationSeed>,
    characters: &Vec<EntityId>,
) -> (result: Result<(), D20SessionError>)
    ensures
        match participation_problem(participants@, characters@) {
            None => result is Ok,
            Some(error) => result matches Err(e) && e@ == error,
        },
{
    if participants.len() == 0 {
        return Err(
            D20SessionError::InvalidEncounterParticipation(ParticipationProblem::NoParticipants),
        );
    }
    let mut index: usize = 0;
    while index < participants.len()
        invariant
            0 <= index <= participants@.len(),
            participants@.len() > 0,
            participant_problem_from(participants@, characters@, 0) == participant_problem_from(
                participants@,
                characters@,
                index as nat,
            ),
        decreases participants@.len() - index,
    {
        let entity = participants[index].entity;
        let mut earlier: usize = 0;
        while earlier < index
            invariant
                0 <= earlier <= index < participants@.len(),
                entity == participants@[index as int].entity,
                forall|j: int| 0 <= j < earlier ==> participants@[j].entity != entity,
                participants@.len() > 0,
                participant_problem_from(participants@, characters@, 0) == participant_problem_from(
                    participants@,
                    characters@,
                    index as nat,
                ),
            decreases index - earlier,
        {
            if participants[earlier].entity == entity {
                assert(seed_entities(participants@).take(index as int)[earlier as int] == entity);
                return Err(
                    D20SessionError::InvalidEncounterParticipation(
                        ParticipationProblem::DuplicateParticipant { entity },
                    ),
                );
            }
            earlier = earlier + 1;
        }
        assert(!seed_entities(participants@).take(index as int).contains(entity)) by {
            assert forall|j: int| 0 <= j < index implies seed_entities(participants@).take(
                index as int,
            )[j] != entity by {
                assert(participants@[j].entity != entity);
            }
        }
        let mut known = false;
        let mut position: usize = 0;
        while position < characters.len()
            invariant
                0 <= position <= characters@.len(),
                known <==> exists|j: int| 0 <= j < position && characters@[j] == entity,
            decreases characters@.len() - position,
        {
            if characters[position] == entity {
                known = true;
            }
            position = position + 1;
        }
        if !known {
            assert(!characters@.contains(entity));
            return Err(
                D20SessionError::MissingComponent {
                    entity,
                    component: D20ComponentKind::AbilityScores,
                },
            );
        }
        index = index + 1;
    }
    Ok(())
}

/// A requested turn must come after the current one.
pub fn ensure_turn_advances(current: u64, requested: u64) -> (result: Result<(), D20SessionError>)
    ensures
        result == (if requested > current {
            Ok::<(), D20SessionError>(())
        } else {
            Err(D20SessionError::TurnMustAdvance { current, requested })
        }),
{
    if requested <= current {
        return Err(D20SessionError::TurnMustAdvance { current, requested });
    }
    Ok(())
}

/// The instances, in schedule order, of the effects that expire at or
/// before `turn`.
pub open spec fn due_instances(schedule: Seq<ScheduledEffect>, turn: u64) -> Seq<Seq<char>>
    decreases schedule.len(),
{
    if schedule.len() == 0 {
        Seq::empty()
    } else {
        let earlier = due_instances(schedule.drop_last(), turn);
        if schedule.last().expires_at_turn <= turn {
            earlier.push(schedule.last().instance@)
        } else {
            earlier
        }
    }
}

/// The scheduled effects, in order, that outlast `turn`.
pub open spec fn lasting_effects(schedule: Seq<ScheduledEffect>, turn: u64) -> Seq<
    (Seq<char>, Seq<char>, u64),
>
    decreases schedule.len(),
{
    if schedule.len() == 0 {
        Seq::empty()
    } else {
        let earlier = lasting_effects(schedule.drop_last(), turn);
        if schedule.last().expires_at_turn <= turn {
            earlier
        } else {
            earlier.push(schedule.last()@)
        }
    }
}

/// The mathematical value of a schedule.
pub open spec fn schedule_view(schedule: Seq<ScheduledEffect>) -> Seq<(Seq<char>, Seq<char>, u64)> {
    schedule.map_values(|effect: ScheduledEffect| effect@)
}

/// Splits a schedule at a turn boundary into the instances that expire at
/// or before `next_turn` and the effects that remain scheduled.
pub fn split_due_effects(schedule: &Vec<ScheduledEffect>, next_turn: u64) -> (split: (
    Vec<D20Id>,
    Vec<ScheduledEffect>,
))
    ensures
        ids_view(split.0@) == due_instances(schedule@, next_turn),
        schedule_view(split.1@) == lasting_effects(schedule@, next_turn),
{
    let mut due: Vec<D20Id> = Vec::new();
    let mut lasting: Vec<ScheduledEffect> = Vec::new();
    let mut index: usize = 0;
    while index < schedule.len()
        invariant
            0 <= index <= schedule@.len(),
            ids_view(due@) == due_instances(schedule@.take(index as int), next_turn),
            schedule_view(lasting@) == lasting_effects(schedule@.take(index as int), next_turn),
        decreases schedule@.len() - index,
    {
        let effect = &schedule[index];
        assert(schedule@.take(index + 1).drop_last() =~= schedule@.take(index as int));
        assert(schedule@.take(index + 1).last() == schedule@[index as int]);
        if effect.expires_at_turn <= next_turn {
            let ghost before = due@;
            let instance = effect.instance.duplicate();
            let ghost added = instance@;
            due.push(instance);
            assert(ids_view(due@) =~= ids_view(before).push(added));
        } else {
            let ghost before = lasting@;
            let kept = ScheduledEffect {
                instance: effect.instance.duplicate(),
                definition: effect.definition.duplicate(),
                expires_at_turn: effect.expires_at_turn,
            };
            let ghost added = kept@;
            lasting.push(kept);
            assert(schedule_view(lasting@) =~= schedule_view(before).push(added));
        }
        index = index + 1;
    }
    assert(schedule@.take(schedule@.len() as int) =~= schedule@);
    (due, lasting)
}

/// The score a defense uses is the greatest of the character's scores
/// over the defense's listed abilities: it is the score of one of them,
/// and none of them scores more. There is none exactly when the character
/// holds no listed ability.
pub proof fn lemma_best_score_is_maximum(abilities: Seq<Seq<char>>, scores: Seq<(Seq<char>, i16)>)
    ensures
        best_score(abilities, scores) matches Some(best) ==> exists|i: int|
            0 <= i < abilities.len() && value_of(scores, #[trigger] abilities[i]) == Some(best),
        best_score(abilities, scores) matches Some(best) ==> forall|i: int|
            0 <= i < abilities.len() && #[trigger] value_of(scores, abilities[i]) is Some ==> value_of(
                scores,
                abilities[i],
            ).unwrap() <= best,
        best_score(abilities, scores) is None <==> forall|i: int|
            0 <= i < abilities.len() ==> #[trigger] value_of(scores, abilities[i]) is None,
    decreases abilities.len(),
{
    if abilities.len() > 0 {
        let rest = abilities.drop_last();
        lemma_best_score_is_maximum(rest, scores);
        assert forall|i: int| 0 <= i < rest.len() implies #[trigger] rest[i] == abilities[i] by {}
        let last = abilities.len() - 1;
        assert(abilities[last] == abilities.last());
        if let Some(best) = best_score(abilities, scores) {
            if best_score(rest, scores) == Some(best) {
                let i = choose|i: int| 0 <= i < rest.len() && value_of(scores, #[trigger] rest[i]) == Some(best);
                assert(value_of(scores, abilities[i]) == Some(best));
            } else {
                assert(value_of(scores, abilities[last]) == Some(best));
            }
        }
        if best_score(abilities, scores) is None {
            assert forall|i: int| 0 <= i < abilities.len() implies #[trigger] value_of(scores, abilities[i])
                is None by {
                if i < last {
                    assert(rest[i] == abilities[i]);
                }
            }
        }
        assert forall|i: int|
            0 <= i < abilities.len() && #[trigger] value_of(scores, abilities[i]) is Some implies best_score(
                abilities,
                scores,
            ) is Some by {
            if i < last {
                assert(rest[i] == abilities[i]);
                assert(value_of(scores, rest[i]) is Some);
            }
        }
        if let Some(best) = best_score(abilities, scores) {
            assert forall|i: int|
                0 <= i < abilities.len() && #[trigger] value_of(scores, abilities[i]) is Some implies value_of(
                    scores,
                    abilities[i],
                ).unwrap() <= best by {
                if i < last {
                    assert(rest[i] == abilities[i]);
                    assert(value_of(scores, rest[i]) is Some);
                }
            }
        }
    }
}

} // verus!
