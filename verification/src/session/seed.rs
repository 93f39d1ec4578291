use vstd::prelude::*;

use crate::identity::D20Id;
use crate::session::error::{D20SessionError, EntityId, RollSourceProblem};

verus! {

/// Seed of the default seeded roll source.
pub const DEFAULT_ROLL_SEED: u64 = 0xD20_2026;

/// Largest number of action rolls on a static tape.
pub const MAX_STATIC_ACTION_ROLLS: usize = 4096;

/// Largest number of damage dice a compiled damage definition rolls.
pub const MAX_D20_DAMAGE_DICE: u8 = 16;

/// Largest number of sides of a compiled damage die.
pub const MAX_D20_DAMAGE_DIE_SIDES: u16 = 100;

/// One prerecorded action roll: the d20 result and the damage dice results.
#[derive(Debug, Clone, PartialEq, Eq)]
pub struct StaticActionRoll {
    pub d20: u8,
    pub damage: Vec<u16>,
}

/// Where action rolls come from: a seeded generator, or a fixed tape.
#[derive(Debug, Clone, PartialEq, Eq)]
pub enum RollSourceConfig {
    Seeded { seed: u64 },
    Static { rolls: Vec<StaticActionRoll> },
}

/// A damage die result that some compiled die could produce.
pub open spec fn damage_result_ok(result: u16) -> bool {
    result != 0 && result <= MAX_D20_DAMAGE_DIE_SIDES
}

/// The first out-of-range damage result at or after position `j`.
pub open spec fn first_bad_damage(damage: Seq<u16>, j: nat) -> Option<u16>
    decreases damage.len() - j,
{
    if j >= damage.len() {
        None
    } else if !damage_result_ok(damage[j as int]) {
        Some(damage[j as int])
    } else {
        first_bad_damage(damage, j + 1)
    }
}

/// What is wrong with the roll at tape position `index`, checked in the
/// order d20 range, dice count, damage results.
pub open spec fn roll_problem(index: int, roll: StaticActionRoll) -> Option<RollSourceProblem> {
    if !(1 <= roll.d20 && roll.d20 <= 20) {
        Some(RollSourceProblem::D20OutOfRange { index: index as usize, d20: roll.d20 })
    } else if roll.damage@.len() > MAX_D20_DAMAGE_DICE {
        Some(RollSourceProblem::TooManyDice { index: index as usize })
    } else {
        match first_bad_damage(roll.damage@, 0) {
            Some(result) => Some(
                RollSourceProblem::DamageOutOfRange { index: index as usize, result },
            ),
            None => None,
        }
    }
}

/// The first problem of the tape at or after position `i`.
pub open spec fn tape_problem_from(rolls: Seq<StaticActionRoll>, i: nat) -> Option<
    RollSourceProblem,
>
    decreases rolls.len() - i,
{
    if i >= rolls.len() {
        None
    } else {
        match roll_problem(i as int, rolls[i as int]) {
            Some(problem) => Some(problem),
            None => tape_problem_from(rolls, i + 1),
        }
    }
}

/// The problem of a roll tape as a whole: its length first, then its rolls in order.
pub open spec fn tape_problem(rolls: Seq<StaticActionRoll>) -> Option<RollSourceProblem> {
    if rolls.len() == 0 || rolls.len() > MAX_STATIC_ACTION_ROLLS {
        Some(RollSourceProblem::TapeLength)
    } else {
        tape_problem_from(rolls, 0)
    }
}

/// The problem of a roll source; a seeded source has none.
pub open spec fn roll_source_problem(source: RollSourceConfig) -> Option<RollSourceProblem> {
    match source {
        RollSourceConfig::Seeded { .. } => None,
        RollSourceConfig::Static { rolls } => tape_problem(rolls@),
    }
}

/// The outcome of validating a source with the given problem.
pub open spec fn validation_result(problem: Option<RollSourceProblem>) -> Result<
    (),
    D20SessionError,
> {
    match problem {
        Some(problem) => Err(D20SessionError::InvalidRollSource(problem)),
        None => Ok(()),
    }
}

impl RollSourceConfig {
    /// A seeded source.
    pub fn seeded(seed: u64) -> (source: Self)
        ensures
            source == (RollSourceConfig::Seeded { seed }),
    {
        RollSourceConfig::Seeded { seed }
    }

    /// A static tape source, admitted only when the tape is well formed.
    pub fn static_rolls(rolls: Vec<StaticActionRoll>) -> (result: Result<Self, D20SessionError>)
        ensures
            tape_problem(rolls@) matches Some(problem) ==> result == Err::<
                RollSourceConfig,
                D20SessionError,
            >(D20SessionError::InvalidRollSource(problem)),
            tape_problem(rolls@) is None ==> result == Ok::<RollSourceConfig, D20SessionError>(
                RollSourceConfig::Static { rolls },
            ),
    {
        let source = RollSourceConfig::Static { rolls };
        match source.validate() {
            Ok(()) => Ok(source),
            Err(error) => Err(error),
        }
    }

    /// Checks the source: a seeded source is always valid; a tape must hold
    /// `1..=MAX_STATIC_ACTION_ROLLS` rolls, each with a d20 in `1..=20`, at
    /// most `MAX_D20_DAMAGE_DICE` damage results, each in
    /// `1..=MAX_D20_DAMAGE_DIE_SIDES`. The first problem found is reported.
    pub fn validate(&self) -> (result: Result<(), D20SessionError>)
        ensures
            result == validation_result(roll_source_problem(*self)),
    {
        match self {
            RollSourceConfig::Seeded { .. } => Ok(()),
            RollSourceConfig::Static { rolls } => {
                if rolls.len() == 0 || rolls.len() > MAX_STATIC_ACTION_ROLLS {
                    return Err(D20SessionError::InvalidRollSource(RollSourceProblem::TapeLength));
                }
                let mut index: usize = 0;
                while index < rolls.len()
                    invariant
                        0 <= index <= rolls@.len(),
                        0 < rolls@.len() <= MAX_STATIC_ACTION_ROLLS,
                        tape_problem(rolls@) == tape_problem_from(rolls@, index as nat),
                        roll_source_problem(*self) == tape_problem(rolls@),
                    decreases rolls@.len() - index,
                {
                    let roll = &rolls[index];
                    if !(1 <= roll.d20 && roll.d20 <= 20) {
                        return Err(
                            D20SessionError::InvalidRollSource(
                                RollSourceProblem::D20OutOfRange { index, d20: roll.d20 },
                            ),
                        );
                    }
                    if roll.damage.len() > MAX_D20_DAMAGE_DICE as usize {
                        return Err(
                            D20SessionError::InvalidRollSource(
                                RollSourceProblem::TooManyDice { index },
                            ),
                        );
                    }
                    let mut die: usize = 0;
                    while die < roll.damage.len()
                        invariant
                            0 <= die <= roll.damage@.len(),
                            first_bad_damage(roll.damage@, 0) == first_bad_damage(
                                roll.damage@,
                                die as nat,
                            ),
                            0 <= index < rolls@.len(),
                            0 < rolls@.len() <= MAX_STATIC_ACTION_ROLLS,
                            *roll == rolls@[index as int],
                            1 <= roll.d20 <= 20,
                            roll.damage@.len() <= MAX_D20_DAMAGE_DICE,
                            tape_problem(rolls@) == tape_problem_from(rolls@, index as nat),
                            roll_source_problem(*self) == tape_problem(rolls@),
                        decreases roll.damage@.len() - die,
                    {
                        let result = roll.damage[die];
                        if result == 0 || result > MAX_D20_DAMAGE_DIE_SIDES {
                            return Err(
                                D20SessionError::InvalidRollSource(
                                    RollSourceProblem::DamageOutOfRange { index, result },
                                ),
                            );
                        }
                        die = die + 1;
                    }
                    index = index + 1;
                }
                Ok(())
            },
        }
    }
}

impl Default for RollSourceConfig {
    fn default() -> (source: Self)
        ensures
            source == (RollSourceConfig::Seeded { seed: DEFAULT_ROLL_SEED }),
    {
        RollSourceConfig::seeded(DEFAULT_ROLL_SEED)
    }
}

/// Whether a character is resistant or vulnerable to a damage type.
#[derive(Debug, Clone, Copy, PartialEq, Eq)]
pub enum DamageAffinity {
    Resistant,
    Vulnerable,
}

/// A character's authored affinity to one damage type.
#[derive(Debug, PartialEq, Eq)]
pub struct AffinitySeed {
    pub damage_type: D20Id,
    pub affinity: DamageAffinity,
}

} // verus!
