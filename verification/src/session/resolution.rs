use vstd::prelude::*;

use crate::component::{
    entries_view, entry_value, value_of, ActionResource, ActivationBudget,
};
use crate::definitions::{
    contains_id, ids_view, ActionDefinition, ConditionClauseDefinition, DamageDefinition,
    EffectDefinition, ReactionDefinition,
};
use crate::identity::D20Id;
use crate::session::error::{
    D20ComponentKind, D20SessionError, EntityId, SessionErrorView, StaleReason,
};
use crate::session::seed::StaticActionRoll;

verus! {

/// The d20 ability modifier of a score: `floor((score - 10) / 2)`.
pub fn ability_modifier(score: i16) -> (modifier: i16)
    ensures
        modifier as int == (score as int - 10) / 2,
{
    let shifted: i32 = score as i32 - 10;
    if shifted >= 0 {
        (shifted / 2) as i16
    } else {
        let magnitude: i32 = -shifted;
        let halved: i32 = (magnitude + 1) / 2;
        assert(-halved == shifted / 2) by (nonlinear_arith)
            requires
                magnitude == -shifted,
                halved == (magnitude + 1) / 2,
                shifted < 0,
        ;
        (-halved) as i16
    }
}

/// A reaction a defender can raise against a previewed action.
#[derive(Debug, PartialEq, Eq)]
pub struct ReactionOption {
    reaction: D20Id,
    resource: D20Id,
    cost: u16,
    available: u16,
    bonus: i16,
    effect: D20Id,
}

/// The mathematical value of a reaction option.
pub struct ReactionOptionView {
    pub reaction: Seq<char>,
    pub resource: Seq<char>,
    pub cost: u16,
    pub available: u16,
    pub bonus: i16,
    pub effect: Seq<char>,
}

impl View for ReactionOption {
    type V = ReactionOptionView;

    closed spec fn view(&self) -> ReactionOptionView {
        ReactionOptionView {
            reaction: self.reaction@,
            resource: self.resource@,
            cost: self.cost,
            available: self.available,
            bonus: self.bonus,
            effect: self.effect@,
        }
    }
}

impl ReactionOption {
    /// The reaction's identity.
    pub fn reaction(&self) -> (id: &D20Id)
        ensures
            id@ == self@.reaction,
    {
        &self.reaction
    }

    /// The resource the reaction spends.
    pub fn resource(&self) -> (id: &D20Id)
        ensures
            id@ == self@.resource,
    {
        &self.resource
    }

    /// How much of the resource the reaction spends.
    pub fn cost(&self) -> (cost: u16)
        ensures
            cost == self@.cost,
    {
        self.cost
    }

    /// How much of the resource the defender holds.
    pub fn available(&self) -> (available: u16)
        ensures
            available == self@.available,
    {
        self.available
    }

    /// The defense bonus the reaction grants.
    pub fn bonus(&self) -> (bonus: i16)
        ensures
            bonus == self@.bonus,
    {
        self.bonus
    }

    /// The effect the reaction applies.
    pub fn effect(&self) -> (id: &D20Id)
        ensures
            id@ == self@.effect,
    {
        &self.effect
    }
}

/// Every activation cost is covered by the named budget.
pub open spec fn budgets_cover(
    costs: Seq<(Seq<char>, u16)>,
    budgets: Seq<(Seq<char>, u16)>,
) -> bool {
    forall|i: int|
        0 <= i < costs.len() ==> (#[trigger] value_of(budgets, costs[i].0) matches Some(
            available,
        ) && available >= costs[i].1)
}

/// The option a defender has for one reaction, if the reaction guards the
/// attacked defense and the defender can pay its resource and budget costs.
pub open spec fn offered_option(
    reaction: ReactionDefinition,
    defense: Seq<char>,
    resources: Seq<(Seq<char>, u16)>,
    budgets: Seq<(Seq<char>, u16)>,
) -> Option<ReactionOptionView> {
    match value_of(resources, reaction.resource@) {
        Some(available) => if reaction.defense@ == defense && available >= reaction.cost
            && budgets_cover(entries_view(reaction.activation_costs@), budgets) {
            Some(
                ReactionOptionView {
                    reaction: reaction.id@,
                    resource: reaction.resource@,
                    cost: reaction.cost,
                    available,
                    bonus: reaction.bonus,
                    effect: reaction.effect@,
                },
            )
        } else {
            None
        },
        None => None,
    }
}

/// The options offered by a list of reactions, in authored order.
pub open spec fn offered_options(
    reactions: Seq<ReactionDefinition>,
    defense: Seq<char>,
    resources: Seq<(Seq<char>, u16)>,
    budgets: Seq<(Seq<char>, u16)>,
) -> Seq<ReactionOptionView>
    decreases reactions.len(),
{
    if reactions.len() == 0 {
        Seq::empty()
    } else {
        let earlier = offered_options(reactions.drop_last(), defense, resources, budgets);
        match offered_option(reactions.last(), defense, resources, budgets) {
            Some(option) => earlier.push(option),
            None => earlier,
        }
    }
}

/// The mathematical value of a list of reaction options.
pub open spec fn options_view(options: Seq<ReactionOption>) -> Seq<ReactionOptionView> {
    options.map_values(|option: ReactionOption| option@)
}

fn budgets_cover_costs(costs: &Vec<ActivationBudget>, budgets: &Vec<ActivationBudget>) -> (covered:
    bool)
    ensures
        covered == budgets_cover(entries_view(costs@), entries_view(budgets@)),
{
    let mut index: usize = 0;
    while index < costs.len()
        invariant
            0 <= index <= costs@.len(),
            forall|i: int|
                0 <= i < index ==> (#[trigger] value_of(
                    entries_view(budgets@),
                    entries_view(costs@)[i].0,
                ) matches Some(available) && available >= entries_view(costs@)[i].1),
        decreases costs@.len() - index,
    {
        let available = entry_value(budgets, &costs[index].id);
        assert(entries_view(costs@)[index as int].0 == costs@[index as int].id@);
        match available {
            Some(amount) => {
                if amount < costs[index].value {
                    return false;
                }
            },
            None => {
                return false;
            },
        }
        index = index + 1;
    }
    true
}

/// The reactions a defender can raise against an attack on `defense`: each
/// of its authored `reactions`, in order, that guards `defense`, whose
/// resource the defender holds at least the reaction's cost of, and whose
/// activation costs its budgets cover.
pub fn reaction_options(
    reactions: &Vec<ReactionDefinition>,
    defense: &D20Id,
    resources: &Vec<ActionResource>,
    budgets: &Vec<ActivationBudget>,
) -> (options: Vec<ReactionOption>)
    ensures
        options_view(options@) == offered_options(
            reactions@,
            defense@,
            entries_view(resources@),
            entries_view(budgets@),
        ),
{
    let ghost resources_view = entries_view(resources@);
    let ghost budgets_view = entries_view(budgets@);
    let mut options: Vec<ReactionOption> = Vec::new();
    let mut index: usize = 0;
    while index < reactions.len()
        invariant
            0 <= index <= reactions@.len(),
            resources_view == entries_view(resources@),
            budgets_view == entries_view(budgets@),
            options_view(options@) == offered_options(
                reactions@.take(index as int),
                defense@,
                resources_view,
                budgets_view,
            ),
        decreases reactions@.len() - index,
    {
        let reaction = &reactions[index];
        assert(reactions@.take(index + 1).drop_last() =~= reactions@.take(index as int));
        assert(reactions@.take(index + 1).last() == reactions@[index as int]);
        let held = entry_value(resources, &reaction.resource);
        match held {
            Some(available) => {
                if reaction.defense.same_as(defense) && available >= reaction.cost
                    && budgets_cover_costs(&reaction.activation_costs, budgets) {
                    let option = ReactionOption {
                        reaction: reaction.id.duplicate(),
                        resource: reaction.resource.duplicate(),
                        cost: reaction.cost,
                        available,
                        bonus: reaction.bonus,
                        effect: reaction.effect.duplicate(),
                    };
                    let ghost before = options@;
                    let ghost added = option@;
                    options.push(option);
                    assert(options_view(options@) =~= options_view(before).push(added));
                }
            },
            None => {},
        }
        index = index + 1;
    }
    assert(reactions@.take(reactions@.len() as int) =~= reactions@);
    options
}

/// A scheduled effect on an entity: its instance, definition, and the turn
/// at which it expires.
#[derive(Debug, PartialEq, Eq)]
pub struct ScheduledEffect {
    pub instance: D20Id,
    pub definition: D20Id,
    pub expires_at_turn: u64,
}

impl View for ScheduledEffect {
    type V = (Seq<char>, Seq<char>, u64);

    open spec fn view(&self) -> (Seq<char>, Seq<char>, u64) {
        (self.instance@, self.definition@, self.expires_at_turn)
    }
}

/// The identities of a list of effect definitions, for lookup.
pub open spec fn effect_keys(effects: Seq<EffectDefinition>) -> Seq<(Seq<char>, ())> {
    effects.map_values(|effect: EffectDefinition| (effect.id@, ()))
}

/// The definition of the effect named `id`, which must exist.
pub open spec fn effect_named(effects: Seq<EffectDefinition>, id: Seq<char>) -> EffectDefinition {
    effects[crate::component::index_of(effect_keys(effects), id).unwrap()]
}

/// Every effect scheduled to outlast `turn` has a compiled definition.
pub open spec fn schedule_is_compiled(
    schedule: Seq<ScheduledEffect>,
    effects: Seq<EffectDefinition>,
    turn: u64,
) -> bool {
    forall|i: int|
        0 <= i < schedule.len() && #[trigger] schedule[i].expires_at_turn > turn
            ==> crate::component::has_key(effect_keys(effects), schedule[i].definition@)
}

/// Position of the effect definition named `id`.
pub fn find_effect(effects: &Vec<EffectDefinition>, id: &D20Id) -> (found: Option<usize>)
    ensures
        found matches Some(i) ==> crate::component::index_of(effect_keys(effects@), id@) == Some(
            i as int,
        ) && i < effects@.len(),
        found is None ==> crate::component::index_of(effect_keys(effects@), id@) is None,
{
    let ghost keys = effect_keys(effects@);
    let mut index: usize = 0;
    while index < effects.len()
        invariant
            0 <= index <= effects@.len(),
            keys == effect_keys(effects@),
            crate::component::index_of(keys, id@) == crate::component::index_of_from(
                keys,
                id@,
                index as nat,
            ),
        decreases effects@.len() - index,
    {
        if effects[index].id.same_as(id) {
            return Some(index);
        }
        index = index + 1;
    }
    None
}

/// `x` saturated into the `i16` range.
pub open spec fn saturate_i16(x: int) -> i16 {
    if x > i16::MAX {
        i16::MAX
    } else if x < i16::MIN {
        i16::MIN
    } else {
        x as i16
    }
}

/// Applies the conditions from position `j` to an attack penalty: `None`
/// when a condition forbids an action tag the attack carries.
pub open spec fn conditions_penalty(
    conditions: Seq<ConditionClauseDefinition>,
    tags: Seq<Seq<char>>,
    penalty: i16,
    j: nat,
) -> Option<i16>
    decreases conditions.len() - j,
{
    if j >= conditions.len() {
        Some(penalty)
    } else {
        match conditions[j as int] {
            ConditionClauseDefinition::ForbidActionTag { tag } => if tags.contains(tag@) {
                None
            } else {
                conditions_penalty(conditions, tags, penalty, j + 1)
            },
            ConditionClauseDefinition::AttackPenalty { amount } => conditions_penalty(
                conditions,
                tags,
                saturate_i16(penalty + amount),
                j + 1,
            ),
            ConditionClauseDefinition::ForbidMovement => conditions_penalty(
                conditions,
                tags,
                penalty,
                j + 1,
            ),
        }
    }
}

/// The attack penalty accumulated from schedule position `i`, or the
/// identity of the first active effect that forbids the attack.
pub open spec fn schedule_penalty(
    schedule: Seq<ScheduledEffect>,
    effects: Seq<EffectDefinition>,
    tags: Seq<Seq<char>>,
    turn: u64,
    penalty: i16,
    i: nat,
) -> Result<i16, Seq<char>>
    decreases schedule.len() - i,
{
    if i >= schedule.len() {
        Ok(penalty)
    } else if schedule[i as int].expires_at_turn > turn {
        let definition = effect_named(effects, schedule[i as int].definition@);
        match conditions_penalty(definition.conditions@, tags, penalty, 0) {
            Some(next) => schedule_penalty(schedule, effects, tags, turn, next, i + 1),
            None => Err(definition.id@),
        }
    } else {
        schedule_penalty(schedule, effects, tags, turn, penalty, i + 1)
    }
}

/// The attack penalty the actor's active effects impose on `action`: the
/// saturating sum of their attack penalties, or `ActionForbidden` naming the
/// first active effect that forbids one of the action's tags. Effects
/// expiring at or before `turn` are inactive.
pub fn active_attack_penalty(
    schedule: &Vec<ScheduledEffect>,
    effects: &Vec<EffectDefinition>,
    action: &ActionDefinition,
    actor: EntityId,
    turn: u64,
) -> (result: Result<i16, D20SessionError>)
    requires
        schedule_is_compiled(schedule@, effects@, turn),
    ensures
        match schedule_penalty(schedule@, effects@, ids_view(action.tags@), turn, 0, 0) {
            Ok(penalty) => result == Ok::<i16, D20SessionError>(penalty),
            Err(effect) => result matches Err(error) && error@ == (
            SessionErrorView::ActionForbidden { entity: actor, action: action.id@, effect }),
        },
{
    let ghost tags = ids_view(action.tags@);
    let ghost goal = schedule_penalty(schedule@, effects@, tags, turn, 0, 0);
    let mut penalty: i16 = 0;
    let mut index: usize = 0;
    while index < schedule.len()
        invariant
            0 <= index <= schedule@.len(),
            tags == ids_view(action.tags@),
            schedule_is_compiled(schedule@, effects@, turn),
            goal == schedule_penalty(schedule@, effects@, tags, turn, 0, 0),
            goal == schedule_penalty(schedule@, effects@, tags, turn, penalty, index as nat),
        decreases schedule@.len() - index,
    {
        let scheduled = &schedule[index];
        if scheduled.expires_at_turn > turn {
            let position = find_effect(effects, &scheduled.definition);
            let found = match position {
                Some(found) => found,
                None => {
                    assert(false);
                    0
                },
            };
            let definition = &effects[found];
            assert(effect_named(effects@, schedule@[index as int].definition@) == *definition);
            let mut clause: usize = 0;
            while clause < definition.conditions.len()
                invariant
                    0 <= clause <= definition.conditions@.len(),
                    0 <= index < schedule@.len(),
                    tags == ids_view(action.tags@),
                    schedule_is_compiled(schedule@, effects@, turn),
                    goal == schedule_penalty(schedule@, effects@, tags, turn, 0, 0),
                    goal == match conditions_penalty(
                        definition.conditions@,
                        tags,
                        penalty,
                        clause as nat,
                    ) {
                        Some(next) => schedule_penalty(
                            schedule@,
                            effects@,
                            tags,
                            turn,
                            next,
                            (index + 1) as nat,
                        ),
                        None => Err(definition.id@),
                    },
                decreases definition.conditions@.len() - clause,
            {
                match &definition.conditions[clause] {
                    ConditionClauseDefinition::ForbidActionTag { tag } => {
                        if contains_id(&action.tags, tag) {
                            assert(conditions_penalty(
                                definition.conditions@,
                                tags,
                                penalty,
                                clause as nat,
                            ) is None);
                            return Err(
                                D20SessionError::ActionForbidden {
                                    entity: actor,
                                    action: action.id.duplicate(),
                                    effect: definition.id.duplicate(),
                                },
                            );
                        }
                    },
                    ConditionClauseDefinition::AttackPenalty { amount } => {
                        let sum: i32 = penalty as i32 + *amount as i32;
                        penalty =
                            if sum > i16::MAX as i32 {
                                i16::MAX
                            } else if sum < i16::MIN as i32 {
                                i16::MIN
                            } else {
                                sum as i16
                            };
                    },
                    ConditionClauseDefinition::ForbidMovement => {},
                }
                clause = clause + 1;
            }
        }
        index = index + 1;
    }
    Ok(penalty)
}

/// Whether the conditions include a movement prohibition.
pub open spec fn forbids_movement(conditions: Seq<ConditionClauseDefinition>) -> bool {
    exists|j: int|
        0 <= j < conditions.len() && #[trigger] conditions[j]
            == ConditionClauseDefinition::ForbidMovement
}

/// The first effect, from schedule position `i`, that is active after
/// `turn` and forbids movement.
pub open spec fn movement_prohibition_from(
    schedule: Seq<ScheduledEffect>,
    effects: Seq<EffectDefinition>,
    turn: u64,
    i: nat,
) -> Option<Seq<char>>
    decreases schedule.len() - i,
{
    if i >= schedule.len() {
        None
    } else if schedule[i as int].expires_at_turn > turn && forbids_movement(
        effect_named(effects, schedule[i as int].definition@).conditions@,
    ) {
        Some(effect_named(effects, schedule[i as int].definition@).id@)
    } else {
        movement_prohibition_from(schedule, effects, turn, i + 1)
    }
}

/// The first active effect (in schedule order) that forbids its bearer's
/// voluntary movement.
pub fn active_movement_prohibition(
    schedule: &Vec<ScheduledEffect>,
    effects: &Vec<EffectDefinition>,
    turn: u64,
) -> (prohibition: Option<D20Id>)
    requires
        schedule_is_compiled(schedule@, effects@, turn),
    ensures
        match movement_prohibition_from(schedule@, effects@, turn, 0) {
            Some(effect) => prohibition matches Some(id) && id@ == effect,
            None => prohibition is None,
        },
{
    let mut index: usize = 0;
    while index < schedule.len()
        invariant
            0 <= index <= schedule@.len(),
            schedule_is_compiled(schedule@, effects@, turn),
            movement_prohibition_from(schedule@, effects@, turn, 0) == movement_prohibition_from(
                schedule@,
                effects@,
                turn,
                index as nat,
            ),
        decreases schedule@.len() - index,
    {
        let scheduled = &schedule[index];
        if scheduled.expires_at_turn > turn {
            let found = match find_effect(effects, &scheduled.definition) {
                Some(found) => found,
                None => {
                    assert(false);
                    0
                },
            };
            let definition = &effects[found];
            assert(effect_named(effects@, schedule@[index as int].definition@) == *definition);
            let mut clause: usize = 0;
            let mut forbidden = false;
            while clause < definition.conditions.len()
                invariant
                    0 <= clause <= definition.conditions@.len(),
                    forbidden == exists|j: int|
                        0 <= j < clause && #[trigger] definition.conditions@[j]
                            == ConditionClauseDefinition::ForbidMovement,
                decreases definition.conditions@.len() - clause,
            {
                match &definition.conditions[clause] {
                    ConditionClauseDefinition::ForbidMovement => {
                        forbidden = true;
                    },
                    _ => {},
                }
                clause = clause + 1;
            }
            if forbidden {
                return Some(definition.id.duplicate());
            }
        }
        index = index + 1;
    }
    None
}

/// The arithmetic of one resolved attack roll.
#[derive(Debug, Clone, Copy, PartialEq, Eq)]
pub struct AttackRoll {
    /// d20 result plus ability modifier.
    pub total: i32,
    /// Whether the total meets the defense.
    pub hit: bool,
    /// Sum of the damage dice when the attack hits, zero otherwise.
    pub rolled_damage: u32,
    /// Rolled damage plus the damage bonus, never below zero.
    pub applied_damage: i64,
}

/// The sum of a list of dice results.
pub open spec fn dice_sum(rolls: Seq<u16>) -> int
    decreases rolls.len(),
{
    if rolls.len() == 0 {
        0
    } else {
        dice_sum(rolls.drop_last()) + rolls.last()
    }
}

/// A prefix of dice never sums to more than the whole list.
pub proof fn lemma_dice_sum_prefix(rolls: Seq<u16>, k: int)
    requires
        0 <= k <= rolls.len(),
    ensures
        dice_sum(rolls.take(k)) <= dice_sum(rolls),
        dice_sum(rolls) >= 0,
    decreases rolls.len(),
{
    if rolls.len() > 0 {
        if k == rolls.len() {
            assert(rolls.take(k) =~= rolls);
            lemma_dice_sum_prefix(rolls.drop_last(), k - 1);
        } else {
            assert(rolls.drop_last().take(k) =~= rolls.take(k));
            lemma_dice_sum_prefix(rolls.drop_last(), k);
        }
    }
}

/// The outcome of an attack with the given d20, modifier, defense, dice and
/// bonus, as `resolve_attack` computes it.
pub open spec fn attack_outcome(
    d20: u8,
    ability_modifier: i16,
    defense: i64,
    damage_rolls: Seq<u16>,
    damage_bonus: i16,
) -> Result<AttackRoll, SessionErrorView> {
    let total = d20 + ability_modifier;
    let hit = total >= defense;
    if hit && dice_sum(damage_rolls) > u32::MAX {
        Err(SessionErrorView::DamageOverflow)
    } else {
        let rolled = if hit {
            dice_sum(damage_rolls)
        } else {
            0
        };
        let adjusted = rolled + damage_bonus;
        Ok(
            AttackRoll {
                total: total as i32,
                hit,
                rolled_damage: rolled as u32,
                applied_damage: (if adjusted > 0 {
                    adjusted
                } else {
                    0
                }) as i64,
            },
        )
    }
}

/// Resolves an attack roll: the total is the d20 result plus the ability
/// modifier, the attack hits when the total meets the defense, a hit rolls
/// the sum of the damage dice (an overflowing sum is `DamageOverflow`), and
/// the applied damage is the rolled damage plus the bonus, floored at zero.
pub fn resolve_attack(
    d20: u8,
    ability_modifier: i16,
    defense: i64,
    damage_rolls: &Vec<u16>,
    damage_bonus: i16,
) -> (result: Result<AttackRoll, D20SessionError>)
    ensures
        match attack_outcome(d20, ability_modifier, defense, damage_rolls@, damage_bonus) {
            Ok(roll) => result == Ok::<AttackRoll, D20SessionError>(roll),
            Err(error) => result matches Err(e) && e@ == error,
        },
{
    let total: i32 = d20 as i32 + ability_modifier as i32;
    let hit = total as i64 >= defense;
    let mut rolled: u32 = 0;
    if hit {
        let mut index: usize = 0;
        while index < damage_rolls.len()
            invariant
                0 <= index <= damage_rolls@.len(),
                rolled == dice_sum(damage_rolls@.take(index as int)),
                hit,
                total == d20 as i32 + ability_modifier as i32,
                total as i64 >= defense,
            decreases damage_rolls@.len() - index,
        {
            assert(damage_rolls@.take(index + 1).drop_last() =~= damage_rolls@.take(index as int));
            assert(damage_rolls@.take(index + 1).last() == damage_rolls@[index as int]);
            match rolled.checked_add(damage_rolls[index] as u32) {
                Some(sum) => {
                    rolled = sum;
                },
                None => {
                    proof {
                        lemma_dice_sum_prefix(damage_rolls@, index + 1);
                        assert(dice_sum(damage_rolls@.take(index + 1)) > u32::MAX);
                    }
                    return Err(D20SessionError::DamageOverflow);
                },
            }
            index = index + 1;
        }
        assert(damage_rolls@.take(damage_rolls@.len() as int) =~= damage_rolls@);
    }
    let adjusted: i64 = rolled as i64 + damage_bonus as i64;
    let applied: i64 = if adjusted > 0 {
        adjusted
    } else {
        0
    };
    Ok(AttackRoll { total, hit, rolled_damage: rolled, applied_damage: applied })
}

/// Reads the static tape roll at `next_roll` for an attack with `damage`:
/// past the end of the tape it is `StaticRollsExhausted`; a roll whose dice
/// count differs from the definition, or with a die above its sides, is
/// `StaticRollMismatch`; otherwise it is the recorded d20 and dice.
pub fn static_action_roll(
    rolls: &Vec<StaticActionRoll>,
    next_roll: u64,
    damage: &DamageDefinition,
) -> (result: Result<(u8, Vec<u16>), D20SessionError>)
    ensures
        next_roll >= rolls@.len() ==> result == Err::<(u8, Vec<u16>), D20SessionError>(
            D20SessionError::StaticRollsExhausted { index: next_roll, available: rolls@.len() as usize },
        ),
        next_roll < rolls@.len() ==> {
            let roll = rolls@[next_roll as int];
            if roll.damage@.len() != damage.dice || exists|j: int|
                0 <= j < roll.damage@.len() && #[trigger] roll.damage@[j] > damage.sides {
                result == Err::<(u8, Vec<u16>), D20SessionError>(
                    D20SessionError::StaticRollMismatch {
                        index: next_roll,
                        expected_dice: damage.dice,
                        expected_sides: damage.sides,
                    },
                )
            } else {
                result matches Ok((d20, dice)) && d20 == roll.d20 && dice@ == roll.damage@
            }
        },
{
    if next_roll >= rolls.len() as u64 {
        return Err(D20SessionError::StaticRollsExhausted { index: next_roll, available: rolls.len() });
    }
    let roll = &rolls[next_roll as usize];
    let mismatch = D20SessionError::StaticRollMismatch {
        index: next_roll,
        expected_dice: damage.dice,
        expected_sides: damage.sides,
    };
    if roll.damage.len() != damage.dice as usize {
        return Err(mismatch);
    }
    let mut dice: Vec<u16> = Vec::new();
    let mut index: usize = 0;
    while index < roll.damage.len()
        invariant
            0 <= index <= roll.damage@.len(),
            dice@ == roll.damage@.take(index as int),
            forall|j: int| 0 <= j < index ==> roll.damage@[j] <= damage.sides,
            next_roll < rolls@.len(),
            *roll == rolls@[next_roll as int],
            roll.damage@.len() == damage.dice,
            mismatch == (D20SessionError::StaticRollMismatch {
                index: next_roll,
                expected_dice: damage.dice,
                expected_sides: damage.sides,
            }),
        decreases roll.damage@.len() - index,
    {
        if roll.damage[index] > damage.sides {
            return Err(mismatch);
        }
        dice.push(roll.damage[index]);
        assert(roll.damage@.take(index + 1) =~= roll.damage@.take(index as int).push(
            roll.damage@[index as int],
        ));
        index = index + 1;
    }
    assert(roll.damage@.take(roll.damage@.len() as int) =~= roll.damage@);
    Ok((roll.d20, dice))
}

/// Every roll on the tape has a d20 result of at least one.
pub open spec fn tape_d20_positive(rolls: Seq<StaticActionRoll>) -> bool {
    forall|i: int| 0 <= i < rolls.len() ==> #[trigger] rolls[i].d20 >= 1
}

/// The deterministic choice among `upper` options that a static tape makes
/// at `next_roll`: `(d20 - 1) mod upper`; none when there is nothing to
/// choose from or the tape is exhausted.
pub fn static_choice_index(rolls: &Vec<StaticActionRoll>, next_roll: u64, upper: u32) -> (choice:
    Option<u32>)
    requires
        tape_d20_positive(rolls@),
    ensures
        upper == 0 || next_roll >= rolls@.len() ==> choice is None,
        upper != 0 && next_roll < rolls@.len() ==> choice == Some(
            ((rolls@[next_roll as int].d20 - 1) % (upper as int)) as u32,
        ),
        choice matches Some(index) ==> index < upper,
{
    if upper == 0 {
        return None;
    }
    if next_roll >= rolls.len() as u64 {
        return None;
    }
    let d20 = rolls[next_roll as usize].d20;
    Some((d20 as u32 - 1) % upper)
}

/// A turn and roll-source position captured by a preview must still be the
/// session's; otherwise the preview is stale.
pub fn ensure_fresh_position(
    preview_turn: u64,
    preview_roll: u64,
    current_turn: u64,
    next_roll: u64,
) -> (result: Result<(), D20SessionError>)
    ensures
        result == (if preview_turn == current_turn && preview_roll == next_roll {
            Ok::<(), D20SessionError>(())
        } else {
            Err(D20SessionError::StalePreview { reason: StaleReason::TurnOrRollPosition })
        }),
{
    if preview_turn != current_turn || preview_roll != next_roll {
        return Err(D20SessionError::StalePreview { reason: StaleReason::TurnOrRollPosition });
    }
    Ok(())
}

/// The revision of one d20 component of one entity.
#[derive(Debug, Clone, Copy, PartialEq, Eq)]
pub struct ComponentRevision {
    pub entity: EntityId,
    pub component: D20ComponentKind,
    pub revision: u64,
}

fn same_component_kind(left: D20ComponentKind, right: D20ComponentKind) -> (same: bool)
    ensures
        same == (left == right),
{
    match (left, right) {
        (D20ComponentKind::AbilityScores, D20ComponentKind::AbilityScores) => true,
        (D20ComponentKind::ActionResources, D20ComponentKind::ActionResources) => true,
        (D20ComponentKind::ActivationBudgets, D20ComponentKind::ActivationBudgets) => true,
        (D20ComponentKind::ScheduledEffects, D20ComponentKind::ScheduledEffects) => true,
        (D20ComponentKind::ActiveEffects, D20ComponentKind::ActiveEffects) => true,
        (D20ComponentKind::EncounterParticipation, D20ComponentKind::EncounterParticipation) =>
            true,
        (D20ComponentKind::Equipment, D20ComponentKind::Equipment) => true,
        (D20ComponentKind::Item, D20ComponentKind::Item) => true,
        (D20ComponentKind::Tracks, D20ComponentKind::Tracks) => true,
        _ => false,
    }
}

/// A component revision observed by a preview must be the current one:
/// same entity, component, and revision number.
pub fn ensure_component_revision(expected: &ComponentRevision, actual: &ComponentRevision) -> (result:
    Result<(), D20SessionError>)
    ensures
        result == (if *expected == *actual {
            Ok::<(), D20SessionError>(())
        } else {
            Err(D20SessionError::StalePreview { reason: StaleReason::D20ComponentChanged })
        }),
{
    if expected.revision != actual.revision || expected.entity != actual.entity
        || !same_component_kind(expected.component, actual.component) {
        return Err(D20SessionError::StalePreview { reason: StaleReason::D20ComponentChanged });
    }
    Ok(())
}

/// The action is one of the catalog's actions (used to keep `action` honest).
pub open spec fn action_id(action: ActionDefinition) -> Seq<char> {
    action.id@
}

/// An attack's total is the d20 result plus the ability modifier, whatever
/// the modifier's sign; it hits exactly when that total meets the defense.
/// A miss rolls no damage and applies only a positive bonus; a hit rolls
/// the sum of its damage dice and applies that plus the bonus, never less
/// than zero. Only a hit can overflow.
pub proof fn lemma_attack_arithmetic(
    d20: u8,
    ability_modifier: i16,
    defense: i64,
    damage_rolls: Seq<u16>,
    damage_bonus: i16,
)
    ensures
        attack_outcome(d20, ability_modifier, defense, damage_rolls, damage_bonus) matches Ok(roll) ==> {
            &&& roll.total == d20 as int + ability_modifier as int
            &&& (roll.hit <==> d20 as int + ability_modifier as int >= defense)
            &&& !roll.hit ==> roll.rolled_damage == 0
            &&& roll.hit ==> roll.rolled_damage as int == dice_sum(damage_rolls)
            &&& roll.applied_damage >= 0
            &&& roll.applied_damage >= roll.rolled_damage as int + damage_bonus as int
            &&& roll.applied_damage == 0 || roll.applied_damage == roll.rolled_damage as int
                + damage_bonus as int
        },
        attack_outcome(d20, ability_modifier, defense, damage_rolls, damage_bonus) is Err ==> d20 as int
            + ability_modifier as int >= defense,
        (d20 as int + ability_modifier as int) < defense ==> attack_outcome(
            d20,
            ability_modifier,
            defense,
            damage_rolls,
            damage_bonus,
        ) is Ok,
{
    lemma_dice_sum_prefix(damage_rolls, 0);
}

} // verus!
