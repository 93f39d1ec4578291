use vstd::prelude::*;

verus! {

/// Where a campaign stands.
#[derive(Debug, Clone, Copy, PartialEq, Eq, Structural)]
pub enum CampaignPhase {
    Camp,
    Exploration,
    Encounter,
    Outcome,
    AdventureComplete,
}

/// How an encounter ended.
#[derive(Debug, Clone, Copy, PartialEq, Eq, Structural)]
pub enum EncounterOutcome {
    Victory,
    Defeat,
}

/// A compass direction in a dungeon.
#[derive(Debug, Clone, Copy, PartialEq, Eq, Structural)]
pub enum DungeonFacingDefinition {
    North,
    East,
    South,
    West,
}

/// A cell of a dungeon grid.
#[derive(Debug, Clone, Copy, PartialEq, Eq, Structural)]
pub struct DungeonPosition {
    pub x: u16,
    pub y: u16,
}

/// An encounter the campaign has finished, with its outcome.
#[derive(Debug, Clone, PartialEq, Eq)]
pub struct CompletedEncounter {
    pub encounter_id: String,
    pub outcome: EncounterOutcome,
}

} // verus!
