use vstd::prelude::*;

use crate::game::dto::{ApiErrorDto, ApiErrorKindDto};
use crate::identity::{D20IdentityError, D20IdentityErrorView};
use crate::session::error::{D20SessionError, MechanicsFailure, SessionErrorView};

verus! {

/// Why a command was refused as invalid.
#[derive(Debug, Clone, Copy, PartialEq, Eq, Structural)]
pub enum CommandProblem {
    BlockedStep,
    NothingToInspect,
    ZeroEntity,
    AdventureAlreadyActive,
    UnknownAdventure,
    AdventureNotSelectable,
    UnknownEncounter,
    EncounterNotFromHere,
    EncounterNotAvailableFromCamp,
    EncounterNotTriggeredHere,
    NoIncompleteEncounter,
    NotNextEncounter,
    NotCurrentActor,
    PendingActionUnresolved,
    NotAuthoredLoadoutItem,
    OppositionActionPending,
    PreviewUnresolved,
    PendingBeforeMove,
    ActionNotAvailable,
    TargetNotParticipant,
    TargetTeamMismatch,
    TargetOutOfReach,
    IllegalDestination,
}

/// Which situation a command requires.
#[derive(Debug, Clone, Copy, PartialEq, Eq, Structural)]
pub enum PhaseRequirement {
    Encounter,
    Camp,
    Outcome,
    Exploration,
    PartyActivation,
    OppositionActivation,
}

/// Why an item placement breaks the loadout's containment rules.
#[derive(Debug, Clone, Copy, PartialEq, Eq, Structural)]
pub enum ContainmentProblem {
    NotAPartyMember,
    TransferOutsideParty,
    PlacementOutsideParty,
    OnlyPartyEquips,
    NoCanonicalOwner,
    WrongSourceOwner,
    AlreadyThere,
}

/// Why the runtime found its own state inconsistent.
#[derive(Debug, Clone, Copy, PartialEq, Eq, Structural)]
pub enum StateProblem {
    MissingAdventureCharacter,
    MissingCharacterTemplate,
    MissingStorage,
    StorageNotInAdventure,
    MissingEncounter,
    MissingResourceDefinition,
    AdventureWithoutEncounter,
    NextEncounterNotFromCamp,
    MissingExploration,
    NotTraversable,
    MissingCheckpoint,
    MissingOutcome,
    NoLivingParticipant,
    CurrentActorMissing,
    CurrentActorNotParticipant,
    CurrentActorNotInOrder,
    NoParticipants,
    DefeatedCurrentActor,
    EncounterAlreadyCompleted,
    MissingDefeatRecovery,
    MissingInitiative,
    MissingItemInstance,
    ChoiceCatalogTooLarge,
    NoAdmittedChoice,
    OppositionBoundExceeded,
    CampaignSessionDiverged,
    EffectsDiverged,
    CapacityTooLarge,
    InventoryOverflow,
    CarriedCapacityMissing,
    CarriedMaximumMissing,
    StashCapacityMissing,
    StashMaximumMissing,
    MissingVictoryReward,
}

/// Why a save was refused.
#[derive(Debug, Clone, Copy, PartialEq, Eq, Structural)]
pub enum SaveProblem {
    TooLarge { bytes: usize, maximum: usize },
    UnknownAdventure,
    CompletedNotAuthoredPrefix,
    InvalidExploration,
    PhaseInconsistent,
    SchemaFiveResolvedInconsistent,
    CountersOrLogInvalid,
    LogOrder,
    LogBounds,
    RosterMismatch,
    PositionsInvalid,
    CampOrExplorationContradiction,
    PhaseContradictsFactions { party_alive: u64, opposition_alive: u64 },
    MissingVitality,
    MissingInitiative,
    EntitySetInconsistent,
    InventoryOwnersInconsistent,
    ItemSetInconsistent,
    RewardInconsistent,
    MissingRewardEquipment,
    InventoryCapacityMissing,
    InventoryCapacityInconsistent,
    ZeroOperation,
    ItemContainmentInconsistent,
    TreasureOwnershipContradiction,
    ItemDefinitionInconsistent,
    NoSchemaSixMigration,
    LegacySessionFingerprintMissing,
    LegacyTurnOwnerUnresolved,
}

/// The identity of the revision a stale command expected.
#[derive(Debug, Clone, Copy, PartialEq, Eq, Structural)]
pub struct StaleRevision {
    pub expected: u64,
    pub current: u64,
}

/// What changed under a reset request written against an older save.
#[derive(Debug, PartialEq, Eq)]
pub enum SaveStaleness {
    /// The save the host uses is another one.
    IdentityChanged { expected: String, current: String },
    /// The saved campaign or its revision moved on.
    CampaignChanged,
}

/// The mathematical value of a save staleness.
pub enum SaveStalenessView {
    IdentityChanged { expected: Seq<char>, current: Seq<char> },
    CampaignChanged,
}

impl View for SaveStaleness {
    type V = SaveStalenessView;

    open spec fn view(&self) -> SaveStalenessView {
        match self {
            SaveStaleness::IdentityChanged { expected, current } =>
                SaveStalenessView::IdentityChanged { expected: expected@, current: current@ },
            SaveStaleness::CampaignChanged => SaveStalenessView::CampaignChanged,
        }
    }
}

/// Every refusal of a game runtime operation.
#[derive(Debug, PartialEq, Eq)]
pub enum GameRuntimeError {
    NoEncounter,
    ReactionPromptCannotBeSaved,
    StaleCommand(StaleRevision),
    StaleSave(SaveStaleness),
    StalePrompt,
    InvalidCommand(CommandProblem),
    InvalidEquipmentSlot { requested: String, required: String },
    InvalidContainment(ContainmentProblem),
    WrongPhase(PhaseRequirement),
    InvalidState(StateProblem),
    InvalidSave(SaveProblem),
    Catalog(String),
    CompositionFingerprintMismatch { expected: String, actual: String },
    UnsupportedSaveSchema { actual: u32 },
    CounterOverflow,
    D20Identity(D20IdentityError),
    Session(D20SessionError),
}

/// The mathematical value of a runtime error.
pub enum GameErrorView {
    NoEncounter,
    ReactionPromptCannotBeSaved,
    StaleCommand(StaleRevision),
    StaleSave(SaveStalenessView),
    StalePrompt,
    InvalidCommand(CommandProblem),
    InvalidEquipmentSlot { requested: Seq<char>, required: Seq<char> },
    InvalidContainment(ContainmentProblem),
    WrongPhase(PhaseRequirement),
    InvalidState(StateProblem),
    InvalidSave(SaveProblem),
    Catalog(Seq<char>),
    CompositionFingerprintMismatch { expected: Seq<char>, actual: Seq<char> },
    UnsupportedSaveSchema { actual: u32 },
    CounterOverflow,
    D20Identity(D20IdentityErrorView),
    Session(SessionErrorView),
}

impl View for GameRuntimeError {
    type V = GameErrorView;

    open spec fn view(&self) -> GameErrorView {
        match self {
            GameRuntimeError::NoEncounter => GameErrorView::NoEncounter,
            GameRuntimeError::ReactionPromptCannotBeSaved => GameErrorView::ReactionPromptCannotBeSaved,
            GameRuntimeError::StaleCommand(stale) => GameErrorView::StaleCommand(*stale),
            GameRuntimeError::StaleSave(stale) => GameErrorView::StaleSave(stale@),
            GameRuntimeError::StalePrompt => GameErrorView::StalePrompt,
            GameRuntimeError::InvalidCommand(problem) => GameErrorView::InvalidCommand(*problem),
            GameRuntimeError::InvalidEquipmentSlot { requested, required } =>
                GameErrorView::InvalidEquipmentSlot { requested: requested@, required: required@ },
            GameRuntimeError::InvalidContainment(problem) => GameErrorView::InvalidContainment(
                *problem,
            ),
            GameRuntimeError::WrongPhase(requirement) => GameErrorView::WrongPhase(*requirement),
            GameRuntimeError::InvalidState(problem) => GameErrorView::InvalidState(*problem),
            GameRuntimeError::InvalidSave(problem) => GameErrorView::InvalidSave(*problem),
            GameRuntimeError::Catalog(message) => GameErrorView::Catalog(message@),
            GameRuntimeError::CompositionFingerprintMismatch { expected, actual } =>
                GameErrorView::CompositionFingerprintMismatch {
                expected: expected@,
                actual: actual@,
            },
            GameRuntimeError::UnsupportedSaveSchema { actual } =>
                GameErrorView::UnsupportedSaveSchema { actual: *actual },
            GameRuntimeError::CounterOverflow => GameErrorView::CounterOverflow,
            GameRuntimeError::D20Identity(error) => GameErrorView::D20Identity(error@),
            GameRuntimeError::Session(error) => GameErrorView::Session(error@),
        }
    }
}

/// The protocol error kind of an Engine mechanics refusal.
pub open spec fn mechanics_kind(failure: MechanicsFailure) -> ApiErrorKindDto {
    match failure {
        MechanicsFailure::StaleComponentRevision => ApiErrorKindDto::Stale,
        MechanicsFailure::UnknownEquipmentSlot
        | MechanicsFailure::EquipmentSlotOccupied
        | MechanicsFailure::EquipmentSlotEmpty
        | MechanicsFailure::EquipmentSlotCountMismatch
        | MechanicsFailure::EquipmentSlotClassificationMismatch
        | MechanicsFailure::EquipmentExclusivityConflict => ApiErrorKindDto::InvalidSlot,
        MechanicsFailure::InventoryCapacityExceeded
        | MechanicsFailure::InventoryContainmentQuotaExceeded
        | MechanicsFailure::CapacityArithmeticOverflow => ApiErrorKindDto::Capacity,
        MechanicsFailure::ItemNotContained
        | MechanicsFailure::ItemEquipped
        | MechanicsFailure::InventoryOwnerConflict => ApiErrorKindDto::Containment,
        MechanicsFailure::EquipmentWouldInvalidateTrack => ApiErrorKindDto::TrackBound,
        MechanicsFailure::Other => ApiErrorKindDto::Invalid,
    }
}

/// Classifies an Engine mechanics refusal for the protocol.
pub fn mechanics_api_error_kind(failure: MechanicsFailure) -> (kind: ApiErrorKindDto)
    ensures
        kind == mechanics_kind(failure),
{
    match failure {
        MechanicsFailure::StaleComponentRevision => ApiErrorKindDto::Stale,
        MechanicsFailure::UnknownEquipmentSlot
        | MechanicsFailure::EquipmentSlotOccupied
        | MechanicsFailure::EquipmentSlotEmpty
        | MechanicsFailure::EquipmentSlotCountMismatch
        | MechanicsFailure::EquipmentSlotClassificationMismatch
        | MechanicsFailure::EquipmentExclusivityConflict => ApiErrorKindDto::InvalidSlot,
        MechanicsFailure::InventoryCapacityExceeded
        | MechanicsFailure::InventoryContainmentQuotaExceeded
        | MechanicsFailure::CapacityArithmeticOverflow => ApiErrorKindDto::Capacity,
        MechanicsFailure::ItemNotContained
        | MechanicsFailure::ItemEquipped
        | MechanicsFailure::InventoryOwnerConflict => ApiErrorKindDto::Containment,
        MechanicsFailure::EquipmentWouldInvalidateTrack => ApiErrorKindDto::TrackBound,
        MechanicsFailure::Other => ApiErrorKindDto::Invalid,
    }
}

/// The protocol kind of a runtime error, and whether retrying may succeed.
pub open spec fn api_classification(error: GameErrorView) -> (ApiErrorKindDto, bool) {
    match error {
        GameErrorView::StaleCommand(_) | GameErrorView::StaleSave(_) | GameErrorView::StalePrompt => (
            ApiErrorKindDto::Stale,
            true,
        ),
        GameErrorView::NoEncounter => (ApiErrorKindDto::NotFound, false),
        GameErrorView::InvalidEquipmentSlot { .. } => (ApiErrorKindDto::InvalidSlot, false),
        GameErrorView::InvalidContainment(_) => (ApiErrorKindDto::Containment, false),
        GameErrorView::WrongPhase(_) => (ApiErrorKindDto::Phase, false),
        GameErrorView::Session(SessionErrorView::Mechanics(failure)) => (
            mechanics_kind(failure),
            mechanics_kind(failure) == ApiErrorKindDto::Stale,
        ),
        GameErrorView::Session(SessionErrorView::StalePreview { .. }) => (
            ApiErrorKindDto::Stale,
            true,
        ),
        GameErrorView::Session(SessionErrorView::RequiredImplementNotEquipped { .. })
        | GameErrorView::Session(SessionErrorView::ActionForbidden { .. })
        | GameErrorView::Session(SessionErrorView::MovementForbidden { .. }) => (
            ApiErrorKindDto::Invalid,
            false,
        ),
        GameErrorView::ReactionPromptCannotBeSaved
        | GameErrorView::InvalidCommand(_)
        | GameErrorView::D20Identity(_) => (ApiErrorKindDto::Invalid, false),
        GameErrorView::InvalidSave(_)
        | GameErrorView::CompositionFingerprintMismatch { .. }
        | GameErrorView::UnsupportedSaveSchema { .. } => (ApiErrorKindDto::Persistence, false),
        _ => (ApiErrorKindDto::Internal, false),
    }
}

impl GameRuntimeError {
    /// The protocol error for this refusal, carrying `message` (the
    /// rendered text of the refusal).
    pub fn api_error(&self, message: String) -> (error: ApiErrorDto)
        ensures
            (error.kind, error.retryable) == api_classification(self@),
            error.message == message,
    {
        let (kind, retryable) = match self {
            GameRuntimeError::StaleCommand(_)
            | GameRuntimeError::StaleSave(_)
            | GameRuntimeError::StalePrompt => (
                ApiErrorKindDto::Stale,
                true,
            ),
            GameRuntimeError::NoEncounter => (ApiErrorKindDto::NotFound, false),
            GameRuntimeError::InvalidEquipmentSlot { .. } => (ApiErrorKindDto::InvalidSlot, false),
            GameRuntimeError::InvalidContainment(_) => (ApiErrorKindDto::Containment, false),
            GameRuntimeError::WrongPhase(_) => (ApiErrorKindDto::Phase, false),
            GameRuntimeError::Session(D20SessionError::Mechanics(failure)) => {
                let kind = mechanics_api_error_kind(*failure);
                let stale = match kind {
                    ApiErrorKindDto::Stale => true,
                    _ => false,
                };
                (kind, stale)
            },
            GameRuntimeError::Session(D20SessionError::StalePreview { .. }) => (
                ApiErrorKindDto::Stale,
                true,
            ),
            GameRuntimeError::Session(D20SessionError::RequiredImplementNotEquipped { .. })
            | GameRuntimeError::Session(D20SessionError::ActionForbidden { .. })
            | GameRuntimeError::Session(D20SessionError::MovementForbidden { .. }) => (
                ApiErrorKindDto::Invalid,
                false,
            ),
            GameRuntimeError::ReactionPromptCannotBeSaved
            | GameRuntimeError::InvalidCommand(_)
            | GameRuntimeError::D20Identity(_) => (ApiErrorKindDto::Invalid, false),
            GameRuntimeError::InvalidSave(_)
            | GameRuntimeError::CompositionFingerprintMismatch { .. }
            | GameRuntimeError::UnsupportedSaveSchema { .. } => (
                ApiErrorKindDto::Persistence,
                false,
            ),
            _ => (ApiErrorKindDto::Internal, false),
        };
        ApiErrorDto { kind, message, retryable }
    }
}

/// The HTTP status a refusal of each kind is answered with: a conflict for
/// stale commands, unprocessable for refused game moves, not found without
/// an encounter, and a server error for saves and internal faults.
pub open spec fn http_status_spec(kind: ApiErrorKindDto) -> u16 {
    match kind {
        ApiErrorKindDto::Stale => 409,
        ApiErrorKindDto::Invalid
        | ApiErrorKindDto::InvalidSlot
        | ApiErrorKindDto::Capacity
        | ApiErrorKindDto::Containment
        | ApiErrorKindDto::TrackBound
        | ApiErrorKindDto::Phase => 422,
        ApiErrorKindDto::NotFound => 404,
        ApiErrorKindDto::Persistence | ApiErrorKindDto::Internal => 500,
    }
}

/// The HTTP status of a refusal of kind `kind`.
pub fn http_status(kind: ApiErrorKindDto) -> (status: u16)
    ensures
        status == http_status_spec(kind),
{
    match kind {
        ApiErrorKindDto::Stale => 409,
        ApiErrorKindDto::Invalid
        | ApiErrorKindDto::InvalidSlot
        | ApiErrorKindDto::Capacity
        | ApiErrorKindDto::Containment
        | ApiErrorKindDto::TrackBound
        | ApiErrorKindDto::Phase => 422,
        ApiErrorKindDto::NotFound => 404,
        ApiErrorKindDto::Persistence | ApiErrorKindDto::Internal => 500,
    }
}

/// A stale refusal is always answered with a conflict that may be
/// retried, and a refused game move never with a server error.
pub proof fn lemma_stale_is_retryable_conflict(error: GameErrorView)
    ensures
        api_classification(error).0 == ApiErrorKindDto::Stale ==> api_classification(error).1
            && http_status_spec(api_classification(error).0) == 409,
        (error is InvalidCommand || error is WrongPhase || error is InvalidContainment
            || error is InvalidEquipmentSlot) ==> http_status_spec(api_classification(error).0)
            == 422,
{
}

} // verus!
