use vstd::prelude::*;

use crate::identity::D20Id;

verus! {

/// A raw entity identity as the session addresses it.
pub type EntityId = u64;

/// The d20 component a check found missing.
#[derive(Debug, Clone, Copy, PartialEq, Eq, Structural)]
pub enum D20ComponentKind {
    AbilityScores,
    ActionResources,
    ActivationBudgets,
    ScheduledEffects,
    ActiveEffects,
    EncounterParticipation,
    Equipment,
    Item,
    Tracks,
}

/// What is wrong with a static roll tape.
#[derive(Debug, Clone, Copy, PartialEq, Eq)]
pub enum RollSourceProblem {
    /// The tape holds no roll, or more than `MAX_STATIC_ACTION_ROLLS`.
    TapeLength,
    /// A d20 result outside `1..=20`.
    D20OutOfRange { index: usize, d20: u8 },
    /// More damage dice than any compiled damage definition may roll.
    TooManyDice { index: usize },
    /// A damage die result outside `1..=MAX_D20_DAMAGE_DIE_SIDES`.
    DamageOutOfRange { index: usize, result: u16 },
    /// A restored roll position past the end of the tape.
    PositionBeyondTape { position: u64, length: u64 },
}

/// What made an encounter participation request or fact invalid.
#[derive(Debug, Clone, Copy, PartialEq, Eq)]
pub enum ParticipationProblem {
    NoParticipants,
    DuplicateParticipant { entity: EntityId },
    NotACompiledCharacter { entity: EntityId },
    WithoutCharacterFacts { entity: EntityId },
    UnknownEncounter { entity: EntityId },
}

/// Why a preview no longer matches the session.
#[derive(Debug, Clone, Copy, PartialEq, Eq)]
pub enum StaleReason {
    TurnOrRollPosition,
    D20ComponentChanged,
    MechanicsComponentChanged,
}

/// The kind of a refusal reported by the Engine's gameplay mechanics.
#[derive(Debug, Clone, Copy, PartialEq, Eq, Structural)]
pub enum MechanicsFailure {
    StaleComponentRevision,
    UnknownEquipmentSlot,
    EquipmentSlotOccupied,
    EquipmentSlotEmpty,
    EquipmentSlotCountMismatch,
    EquipmentSlotClassificationMismatch,
    EquipmentExclusivityConflict,
    InventoryCapacityExceeded,
    InventoryContainmentQuotaExceeded,
    CapacityArithmeticOverflow,
    ItemNotContained,
    ItemEquipped,
    InventoryOwnerConflict,
    EquipmentWouldInvalidateTrack,
    Other,
}

/// Every refusal of a d20 session operation.
#[derive(Debug, PartialEq, Eq)]
pub enum D20SessionError {
    UnknownAction(D20Id),
    UnknownDamageType(D20Id),
    MissingAbility { entity: EntityId, ability: D20Id },
    MissingResource { entity: EntityId, resource: D20Id },
    InvalidAbilityScore {
        entity: EntityId,
        ability: D20Id,
        score: i16,
        minimum: i16,
        maximum: i16,
    },
    InvalidResourceValue { entity: EntityId, resource: D20Id, current: u16, maximum: u16 },
    DuplicateAffinity { entity: EntityId, damage_type: D20Id },
    MissingComponent { entity: EntityId, component: D20ComponentKind },
    RequiredImplementNotEquipped { entity: EntityId, implement: D20Id },
    ActionForbidden { entity: EntityId, action: D20Id, effect: D20Id },
    MovementForbidden { entity: EntityId, effect: D20Id },
    ActivationBudgetUnavailable { entity: EntityId, budget: D20Id, required: u16, available: u16 },
    InvalidEncounterParticipation(ParticipationProblem),
    ReactionUnavailable(D20Id),
    MissingEffectInstance(D20Id),
    UnscheduledActiveEffect { entity: EntityId, instance: D20Id },
    StalePreview { reason: StaleReason },
    TurnMustAdvance { current: u64, requested: u64 },
    TurnOverflow,
    RollIndexOverflow,
    InvalidRollSource(RollSourceProblem),
    StaticRollsExhausted { index: u64, available: usize },
    StaticRollMismatch { index: u64, expected_dice: u8, expected_sides: u16 },
    DamageOverflow,
    VitalityOutOfBounds { entity: EntityId, attempted: i64, minimum: i64, maximum: i64 },
    Mechanics(MechanicsFailure),
}

/// The mathematical value of a session error: every identity is taken by its text.
pub enum SessionErrorView {
    UnknownAction(Seq<char>),
    UnknownDamageType(Seq<char>),
    MissingAbility { entity: EntityId, ability: Seq<char> },
    MissingResource { entity: EntityId, resource: Seq<char> },
    InvalidAbilityScore {
        entity: EntityId,
        ability: Seq<char>,
        score: i16,
        minimum: i16,
        maximum: i16,
    },
    InvalidResourceValue { entity: EntityId, resource: Seq<char>, current: u16, maximum: u16 },
    DuplicateAffinity { entity: EntityId, damage_type: Seq<char> },
    MissingComponent { entity: EntityId, component: D20ComponentKind },
    RequiredImplementNotEquipped { entity: EntityId, implement: Seq<char> },
    ActionForbidden { entity: EntityId, action: Seq<char>, effect: Seq<char> },
    MovementForbidden { entity: EntityId, effect: Seq<char> },
    ActivationBudgetUnavailable {
        entity: EntityId,
        budget: Seq<char>,
        required: u16,
        available: u16,
    },
    InvalidEncounterParticipation(ParticipationProblem),
    ReactionUnavailable(Seq<char>),
    MissingEffectInstance(Seq<char>),
    UnscheduledActiveEffect { entity: EntityId, instance: Seq<char> },
    StalePreview { reason: StaleReason },
    TurnMustAdvance { current: u64, requested: u64 },
    TurnOverflow,
    RollIndexOverflow,
    InvalidRollSource(RollSourceProblem),
    StaticRollsExhausted { index: u64, available: usize },
    StaticRollMismatch { index: u64, expected_dice: u8, expected_sides: u16 },
    DamageOverflow,
    VitalityOutOfBounds { entity: EntityId, attempted: i64, minimum: i64, maximum: i64 },
    Mechanics(MechanicsFailure),
}

impl View for D20SessionError {
    type V = SessionErrorView;

    open spec fn view(&self) -> SessionErrorView {
        match self {
            D20SessionError::UnknownAction(id) => SessionErrorView::UnknownAction(id@),
            D20SessionError::UnknownDamageType(id) => SessionErrorView::UnknownDamageType(id@),
            D20SessionError::MissingAbility { entity, ability } => SessionErrorView::MissingAbility {
                entity: *entity,
                ability: ability@,
            },
            D20SessionError::MissingResource { entity, resource } => SessionErrorView::MissingResource {
                entity: *entity,
                resource: resource@,
            },
            D20SessionError::InvalidAbilityScore { entity, ability, score, minimum, maximum } =>
                SessionErrorView::InvalidAbilityScore {
                entity: *entity,
                ability: ability@,
                score: *score,
                minimum: *minimum,
                maximum: *maximum,
            },
            D20SessionError::InvalidResourceValue { entity, resource, current, maximum } =>
                SessionErrorView::InvalidResourceValue {
                entity: *entity,
                resource: resource@,
                current: *current,
                maximum: *maximum,
            },
            D20SessionError::DuplicateAffinity { entity, damage_type } =>
                SessionErrorView::DuplicateAffinity { entity: *entity, damage_type: damage_type@ },
            D20SessionError::MissingComponent { entity, component } =>
                SessionErrorView::MissingComponent { entity: *entity, component: *component },
            D20SessionError::RequiredImplementNotEquipped { entity, implement } =>
                SessionErrorView::RequiredImplementNotEquipped {
                entity: *entity,
                implement: implement@,
            },
            D20SessionError::ActionForbidden { entity, action, effect } =>
                SessionErrorView::ActionForbidden {
                entity: *entity,
                action: action@,
                effect: effect@,
            },
            D20SessionError::MovementForbidden { entity, effect } =>
                SessionErrorView::MovementForbidden { entity: *entity, effect: effect@ },
            D20SessionError::ActivationBudgetUnavailable { entity, budget, required, available } =>
                SessionErrorView::ActivationBudgetUnavailable {
                entity: *entity,
                budget: budget@,
                required: *required,
                available: *available,
            },
            D20SessionError::InvalidEncounterParticipation(problem) =>
                SessionErrorView::InvalidEncounterParticipation(*problem),
            D20SessionError::ReactionUnavailable(id) => SessionErrorView::ReactionUnavailable(id@),
            D20SessionError::MissingEffectInstance(id) => SessionErrorView::MissingEffectInstance(
                id@,
            ),
            D20SessionError::UnscheduledActiveEffect { entity, instance } =>
                SessionErrorView::UnscheduledActiveEffect { entity: *entity, instance: instance@ },
            D20SessionError::StalePreview { reason } => SessionErrorView::StalePreview {
                reason: *reason,
            },
            D20SessionError::TurnMustAdvance { current, requested } =>
                SessionErrorView::TurnMustAdvance { current: *current, requested: *requested },
            D20SessionError::TurnOverflow => SessionErrorView::TurnOverflow,
            D20SessionError::RollIndexOverflow => SessionErrorView::RollIndexOverflow,
            D20SessionError::InvalidRollSource(problem) => SessionErrorView::InvalidRollSource(
                *problem,
            ),
            D20SessionError::StaticRollsExhausted { index, available } =>
                SessionErrorView::StaticRollsExhausted { index: *index, available: *available },
            D20SessionError::StaticRollMismatch { index, expected_dice, expected_sides } =>
                SessionErrorView::StaticRollMismatch {
                index: *index,
                expected_dice: *expected_dice,
                expected_sides: *expected_sides,
            },
            D20SessionError::DamageOverflow => SessionErrorView::DamageOverflow,
            D20SessionError::VitalityOutOfBounds { entity, attempted, minimum, maximum } =>
                SessionErrorView::VitalityOutOfBounds {
                entity: *entity,
                attempted: *attempted,
                minimum: *minimum,
                maximum: *maximum,
            },
            D20SessionError::Mechanics(failure) => SessionErrorView::Mechanics(*failure),
        }
    }
}

} // verus!
