use vstd::prelude::*;

use crate::component::{ActivationCost, Entry};
use crate::identity::D20Id;

verus! {

/// An authored ability and the inclusive range its scores must lie in.
#[derive(Debug, PartialEq, Eq)]
pub struct AbilityDefinition {
    pub id: D20Id,
    pub minimum: i16,
    pub maximum: i16,
}

/// An authored action resource and its largest current amount.
#[derive(Debug, PartialEq, Eq)]
pub struct ResourceDefinition {
    pub id: D20Id,
    pub maximum: u16,
}

/// An authored activation budget and the amount each activation starts with.
pub type ActivationBudgetDefinition = Entry<u16>;

/// A clause an active effect imposes on its bearer.
#[derive(Debug, PartialEq, Eq)]
pub enum ConditionClauseDefinition {
    /// Actions carrying this tag cannot be taken.
    ForbidActionTag { tag: D20Id },
    /// Attack rolls are adjusted by this amount.
    AttackPenalty { amount: i16 },
    /// Voluntary movement is forbidden.
    ForbidMovement,
}

/// An authored effect: its duration and the conditions it imposes.
#[derive(Debug, PartialEq, Eq)]
pub struct EffectDefinition {
    pub id: D20Id,
    pub duration_turns: u16,
    pub conditions: Vec<ConditionClauseDefinition>,
}

/// An authored reaction that raises a defense before an attack roll.
#[derive(Debug, PartialEq, Eq)]
pub struct ReactionDefinition {
    pub id: D20Id,
    pub defense: D20Id,
    pub resource: D20Id,
    pub cost: u16,
    pub bonus: i16,
    pub effect: D20Id,
    pub activation_costs: Vec<ActivationCost>,
}

/// Authored damage: `dice` dice of `sides` sides, plus `bonus`, of type `kind`.
#[derive(Debug, PartialEq, Eq)]
pub struct DamageDefinition {
    pub dice: u8,
    pub sides: u16,
    pub bonus: i16,
    pub kind: D20Id,
}

/// An authored defense: a base plus the modifier of the best listed ability.
#[derive(Debug, PartialEq, Eq)]
pub struct DefenseDefinition {
    pub id: D20Id,
    pub base: i16,
    pub abilities: Vec<D20Id>,
}

/// Which participants an action may target, relative to its actor.
#[derive(Debug, Clone, Copy, PartialEq, Eq)]
pub enum ActionTargetTeamDefinition {
    Hostile,
    Ally,
    SelfOnly,
    Any,
}

/// Whether an action needs an unobstructed line to its target.
#[derive(Debug, Clone, Copy, PartialEq, Eq)]
pub enum ActionLineOfEffectDefinition {
    Ignored,
    Required,
}

/// The parts of an authored action that the session rules read.
#[derive(Debug, PartialEq, Eq)]
pub struct ActionDefinition {
    pub id: D20Id,
    pub tags: Vec<D20Id>,
    pub activation_costs: Vec<ActivationCost>,
    pub team: ActionTargetTeamDefinition,
    pub line_of_effect: ActionLineOfEffectDefinition,
    pub range: u16,
    pub forced_movement: u16,
    pub effect: Option<D20Id>,
}

/// The parts of a compiled ruleset that the session rules read.
#[derive(Debug, PartialEq, Eq)]
pub struct D20Rules {
    pub abilities: Vec<AbilityDefinition>,
    pub resources: Vec<ResourceDefinition>,
    pub activation_budgets: Vec<ActivationBudgetDefinition>,
    pub defenses: Vec<DefenseDefinition>,
    pub damage_types: Vec<D20Id>,
    pub effects: Vec<EffectDefinition>,
    pub reactions: Vec<ReactionDefinition>,
}

/// An authored definition known by its identity.
pub trait Named {
    /// The identity text of the definition.
    spec fn name_view(&self) -> Seq<char>;

    /// The identity of the definition.
    fn name(&self) -> (id: &D20Id)
        ensures
            id@ == self.name_view(),
    ;
}

impl Named for AbilityDefinition {
    open spec fn name_view(&self) -> Seq<char> {
        self.id@
    }

    fn name(&self) -> (id: &D20Id) {
        &self.id
    }
}

impl Named for ActionDefinition {
    open spec fn name_view(&self) -> Seq<char> {
        self.id@
    }

    fn name(&self) -> (id: &D20Id) {
        &self.id
    }
}

impl Named for ReactionDefinition {
    open spec fn name_view(&self) -> Seq<char> {
        self.id@
    }

    fn name(&self) -> (id: &D20Id) {
        &self.id
    }
}

impl Named for ResourceDefinition {
    open spec fn name_view(&self) -> Seq<char> {
        self.id@
    }

    fn name(&self) -> (id: &D20Id) {
        &self.id
    }
}

/// The identities of a list of definitions, for lookup.
pub open spec fn names<T: Named>(items: Seq<T>) -> Seq<(Seq<char>, ())> {
    items.map_values(|item: T| (item.name_view(), ()))
}

/// Position of the first definition named `id`.
pub fn find_named<T: Named>(items: &Vec<T>, id: &D20Id) -> (found: Option<usize>)
    ensures
        found matches Some(i) ==> crate::component::index_of(names(items@), id@) == Some(i as int)
            && i < items@.len() && items@[i as int].name_view() == id@,
        found is None ==> crate::component::index_of(names(items@), id@) is None,
{
    let ghost keys = names(items@);
    let mut index: usize = 0;
    while index < items.len()
        invariant
            0 <= index <= items@.len(),
            keys == names(items@),
            crate::component::index_of(keys, id@) == crate::component::index_of_from(
                keys,
                id@,
                index as nat,
            ),
        decreases items@.len() - index,
    {
        if items[index].name().same_as(id) {
            return Some(index);
        }
        index = index + 1;
    }
    None
}

/// The identities of a list of identities.
pub open spec fn ids_view(ids: Seq<D20Id>) -> Seq<Seq<char>> {
    ids.map_values(|id: D20Id| id@)
}

/// Whether `id` is among `ids`.
pub fn contains_id(ids: &Vec<D20Id>, id: &D20Id) -> (found: bool)
    ensures
        found == ids_view(ids@).contains(id@),
{
    let mut index: usize = 0;
    while index < ids.len()
        invariant
            0 <= index <= ids@.len(),
            forall|j: int| 0 <= j < index ==> ids@[j]@ != id@,
        decreases ids@.len() - index,
    {
        if ids[index].same_as(id) {
            assert(ids_view(ids@)[index as int] == id@);
            return true;
        }
        index = index + 1;
    }
    assert forall|j: int| 0 <= j < ids_view(ids@).len() implies ids_view(ids@)[j] != id@ by {
        assert(ids@[j]@ != id@);
    }
    false
}

} // verus!
