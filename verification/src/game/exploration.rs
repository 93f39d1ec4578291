use vstd::prelude::*;

use crate::game::dto::{
    DiscoveredCellDto, ExplorationCommandKindDto, ExplorationDepthDto, ExplorationDto,
    ExplorationFacingDto, ExplorationLandmarkDto,
};
use crate::game::error::{CommandProblem, GameRuntimeError, StateProblem};
use crate::game::state::{DungeonFacingDefinition, DungeonPosition};
use crate::identity::D20Id;

verus! {

/// How many cells ahead the first-person view reports.
pub const VIEW_DEPTH: u16 = 3;

/// An authored point of interest in a dungeon.
#[derive(Debug, PartialEq, Eq)]
pub struct DungeonLandmarkDefinition {
    pub id: D20Id,
    pub x: u16,
    pub y: u16,
    pub title: String,
    pub text: String,
}

/// An authored encounter trigger at a dungeon cell.
#[derive(Debug, PartialEq, Eq)]
pub struct DungeonEncounterDefinition {
    pub encounter: D20Id,
    pub x: u16,
    pub y: u16,
}

/// An authored checkpoint the party returns to after leaving the dungeon.
#[derive(Debug, PartialEq, Eq)]
pub struct DungeonCheckpointDefinition {
    pub id: D20Id,
    pub x: u16,
    pub y: u16,
}

/// An authored door of a dungeon, and the treasure that unlocks it, if it
/// is locked.
#[derive(Debug, PartialEq, Eq)]
pub struct DungeonDoorDefinition {
    pub id: D20Id,
    pub requires: Option<D20Id>,
}

/// An authored treasure of a dungeon.
#[derive(Debug, PartialEq, Eq)]
pub struct DungeonTreasureDefinition {
    pub id: D20Id,
}

/// An authored dungeon: a grid of rows in which `#` is solid stone.
#[derive(Debug, PartialEq, Eq)]
pub struct DungeonDefinition {
    pub title: String,
    pub wall_style: String,
    pub width: u16,
    pub height: u16,
    pub rows: Vec<Vec<u8>>,
    pub start_x: u16,
    pub start_y: u16,
    pub start_facing: DungeonFacingDefinition,
    pub start_checkpoint: D20Id,
    pub landmarks: Vec<DungeonLandmarkDefinition>,
    pub encounters: Vec<DungeonEncounterDefinition>,
    pub checkpoints: Vec<DungeonCheckpointDefinition>,
    pub doors: Vec<DungeonDoorDefinition>,
    pub treasures: Vec<DungeonTreasureDefinition>,
}

/// Whether the cell `(x, y)` lies on the grid and is not solid stone.
pub open spec fn dungeon_floor(dungeon: DungeonDefinition, x: int, y: int) -> bool {
    &&& 0 <= x < dungeon.width
    &&& 0 <= y < dungeon.height
    &&& y < dungeon.rows@.len()
    &&& x < dungeon.rows@[y]@.len()
    &&& dungeon.rows@[y]@[x] != 35u8
}

impl DungeonDefinition {
    /// Whether the cell `(x, y)` can be walked on.
    pub fn is_floor(&self, x: u16, y: u16) -> (floor: bool)
        ensures
            floor == dungeon_floor(*self, x as int, y as int),
    {
        x < self.width && y < self.height && (y as usize) < self.rows.len() && (x as usize)
            < self.rows[y as usize].len() && self.rows[y as usize][x as usize] != 35u8
    }
}

/// The facing after a quarter turn, clockwise or counterclockwise.
pub open spec fn turned(facing: DungeonFacingDefinition, clockwise: bool) -> DungeonFacingDefinition {
    match (facing, clockwise) {
        (DungeonFacingDefinition::North, true) | (DungeonFacingDefinition::South, false) =>
            DungeonFacingDefinition::East,
        (DungeonFacingDefinition::East, true) | (DungeonFacingDefinition::West, false) =>
            DungeonFacingDefinition::South,
        (DungeonFacingDefinition::South, true) | (DungeonFacingDefinition::North, false) =>
            DungeonFacingDefinition::West,
        (DungeonFacingDefinition::West, true) | (DungeonFacingDefinition::East, false) =>
            DungeonFacingDefinition::North,
    }
}

/// Turns a quarter turn, clockwise or counterclockwise.
pub fn turn(facing: DungeonFacingDefinition, clockwise: bool) -> (next: DungeonFacingDefinition)
    ensures
        next == turned(facing, clockwise),
{
    match (facing, clockwise) {
        (DungeonFacingDefinition::North, true) | (DungeonFacingDefinition::South, false) =>
            DungeonFacingDefinition::East,
        (DungeonFacingDefinition::East, true) | (DungeonFacingDefinition::West, false) =>
            DungeonFacingDefinition::South,
        (DungeonFacingDefinition::South, true) | (DungeonFacingDefinition::North, false) =>
            DungeonFacingDefinition::West,
        (DungeonFacingDefinition::West, true) | (DungeonFacingDefinition::East, false) =>
            DungeonFacingDefinition::North,
    }
}

/// A grid coordinate, with everything off the `u16` range collapsed to `u16::MAX`.
pub open spec fn clamp_coordinate(value: int) -> u16 {
    if 0 <= value <= u16::MAX {
        value as u16
    } else {
        u16::MAX
    }
}

/// The horizontal step of a facing.
pub open spec fn facing_dx(facing: DungeonFacingDefinition) -> int {
    match facing {
        DungeonFacingDefinition::East => 1,
        DungeonFacingDefinition::West => -1,
        _ => 0,
    }
}

/// The vertical step of a facing (north is up, toward smaller `y`).
pub open spec fn facing_dy(facing: DungeonFacingDefinition) -> int {
    match facing {
        DungeonFacingDefinition::North => -1,
        DungeonFacingDefinition::South => 1,
        _ => 0,
    }
}

/// The cell `distance` cells away along `facing`.
pub open spec fn offset_position(
    position: DungeonPosition,
    facing: DungeonFacingDefinition,
    distance: int,
) -> DungeonPosition {
    DungeonPosition {
        x: clamp_coordinate(position.x + facing_dx(facing) * distance),
        y: clamp_coordinate(position.y + facing_dy(facing) * distance),
    }
}

/// The cell `distance` cells away along `facing`; coordinates off the grid
/// range become `u16::MAX`.
pub fn offset_by(position: DungeonPosition, facing: DungeonFacingDefinition, distance: i32) -> (moved:
    DungeonPosition)
    ensures
        moved == offset_position(position, facing, distance as int),
{
    let step: i64 = distance as i64;
    let (dx, dy): (i64, i64) = match facing {
        DungeonFacingDefinition::North => (0, -step),
        DungeonFacingDefinition::East => (step, 0),
        DungeonFacingDefinition::South => (0, step),
        DungeonFacingDefinition::West => (-step, 0),
    };
    let x: i64 = position.x as i64 + dx;
    let y: i64 = position.y as i64 + dy;
    DungeonPosition {
        x: if 0 <= x && x <= u16::MAX as i64 {
            x as u16
        } else {
            u16::MAX
        },
        y: if 0 <= y && y <= u16::MAX as i64 {
            y as u16
        } else {
            u16::MAX
        },
    }
}

/// The neighbouring cell ahead (or behind), unless it leaves the grid range.
pub open spec fn step_target(
    position: DungeonPosition,
    facing: DungeonFacingDefinition,
    forward: bool,
) -> Option<DungeonPosition> {
    let moved = offset_position(position, facing, if forward { 1 } else { -1 });
    if moved.x != u16::MAX && moved.y != u16::MAX {
        Some(moved)
    } else {
        None
    }
}

/// The neighbouring cell ahead, or behind.
pub fn offset(position: DungeonPosition, facing: DungeonFacingDefinition, forward: bool) -> (target:
    Option<DungeonPosition>)
    ensures
        target == step_target(position, facing, forward),
{
    let distance: i32 = if forward {
        1
    } else {
        -1
    };
    let moved = offset_by(position, facing, distance);
    if moved.x != u16::MAX && moved.y != u16::MAX {
        Some(moved)
    } else {
        None
    }
}

/// The cells to the left and right of a position, relative to a facing.
pub fn side_positions(position: DungeonPosition, facing: DungeonFacingDefinition) -> (sides: (
    DungeonPosition,
    DungeonPosition,
))
    ensures
        sides.0 == offset_position(position, turned(facing, false), 1),
        sides.1 == offset_position(position, turned(facing, true), 1),
{
    (offset_by(position, turn(facing, false), 1), offset_by(position, turn(facing, true), 1))
}

/// The protocol value of a facing.
pub open spec fn facing_view(facing: DungeonFacingDefinition) -> ExplorationFacingDto {
    match facing {
        DungeonFacingDefinition::North => ExplorationFacingDto::North,
        DungeonFacingDefinition::East => ExplorationFacingDto::East,
        DungeonFacingDefinition::South => ExplorationFacingDto::South,
        DungeonFacingDefinition::West => ExplorationFacingDto::West,
    }
}

/// The protocol value of a facing.
pub fn facing_dto(facing: DungeonFacingDefinition) -> (dto: ExplorationFacingDto)
    ensures
        dto == facing_view(facing),
{
    match facing {
        DungeonFacingDefinition::North => ExplorationFacingDto::North,
        DungeonFacingDefinition::East => ExplorationFacingDto::East,
        DungeonFacingDefinition::South => ExplorationFacingDto::South,
        DungeonFacingDefinition::West => ExplorationFacingDto::West,
    }
}

/// Whether a cell is floor of the dungeon.
pub fn is_floor(dungeon: &DungeonDefinition, position: DungeonPosition) -> (floor: bool)
    ensures
        floor == dungeon_floor(*dungeon, position.x as int, position.y as int),
{
    dungeon.is_floor(position.x, position.y)
}

/// Turning counterclockwise undoes a clockwise turn, and the converse.
pub proof fn lemma_turn_inverse(facing: DungeonFacingDefinition, clockwise: bool)
    ensures
        turned(turned(facing, clockwise), !clockwise) == facing,
{
}

/// Four quarter turns in one direction face the way they started.
pub proof fn lemma_four_turns(facing: DungeonFacingDefinition, clockwise: bool)
    ensures
        turned(turned(turned(turned(facing, clockwise), clockwise), clockwise), clockwise)
            == facing,
{
}

/// A step forward followed by a step backward, with the same facing,
/// returns to the start.
pub proof fn lemma_step_back(position: DungeonPosition, facing: DungeonFacingDefinition)
    requires
        position.x != u16::MAX,
        position.y != u16::MAX,
        step_target(position, facing, true) is Some,
    ensures
        step_target(step_target(position, facing, true).unwrap(), facing, false) == Some(
            position,
        ),
{
}

/// The order of dungeon cells: by column, then by row.
pub open spec fn position_key(position: DungeonPosition) -> int {
    position.x * 65536 + position.y
}

/// Cells listed in strictly increasing order, hence without repetition.
pub open spec fn positions_sorted(cells: Seq<DungeonPosition>) -> bool {
    forall|i: int, j: int|
        0 <= i < j < cells.len() ==> position_key(cells[i]) < position_key(cells[j])
}

proof fn lemma_position_key_injective(a: DungeonPosition, b: DungeonPosition)
    ensures
        position_key(a) == position_key(b) <==> a == b,
{
}

/// Adds a cell to a sorted list of cells, keeping it sorted.
pub fn insert_position(cells: &mut Vec<DungeonPosition>, position: DungeonPosition)
    requires
        positions_sorted(old(cells)@),
    ensures
        positions_sorted(final(cells)@),
        final(cells)@.to_set() == old(cells)@.to_set().insert(position),
{
    let key: u64 = position.x as u64 * 65536 + position.y as u64;
    let mut index: usize = 0;
    while index < cells.len() && (cells[index].x as u64 * 65536 + cells[index].y as u64) < key
        invariant
            0 <= index <= cells@.len(),
            key == position_key(position),
            positions_sorted(cells@),
            forall|j: int| 0 <= j < index ==> position_key(cells@[j]) < key,
        decreases cells@.len() - index,
    {
        index = index + 1;
    }
    if index < cells.len() && (cells[index].x as u64 * 65536 + cells[index].y as u64) == key {
        proof {
            lemma_position_key_injective(cells@[index as int], position);
        }
        assert(cells@.to_set() =~= cells@.to_set().insert(position)) by {
            assert(cells@.contains(position)) by {
                assert(cells@[index as int] == position);
            }
        }
        return;
    }
    let ghost before = cells@;
    cells.insert(index, position);
    assert forall|i: int, j: int| 0 <= i < j < cells@.len() implies position_key(cells@[i])
        < position_key(cells@[j]) by {
        if j < index {
        } else if j == index {
        } else if i < index {
        } else if i == index {
            assert(position_key(before[index as int]) > key);
        } else {
        }
    }
    assert forall|cell: DungeonPosition| #[trigger]
        cells@.contains(cell) <==> before.contains(cell) || cell == position by {
        if cells@.contains(cell) {
            let k = choose|k: int| 0 <= k < cells@.len() && cells@[k] == cell;
            if k < index {
                assert(before[k] == cell);
            } else if k > index {
                assert(before[k - 1] == cell);
            }
        }
        if before.contains(cell) {
            let k = choose|k: int| 0 <= k < before.len() && before[k] == cell;
            if k < index {
                assert(cells@[k] == cell);
            } else {
                assert(cells@[k + 1] == cell);
            }
        }
        if cell == position {
            assert(cells@[index as int] == cell);
        }
    }
    assert(cells@.to_set() =~= before.to_set().insert(position));
}

/// Adds a text to a list of texts unless it is already there.
pub fn insert_text(texts: &mut Vec<String>, text: String)
    ensures
        final(texts)@.map_values(|t: String| t@).to_set() == old(texts)@.map_values(
            |t: String| t@,
        ).to_set().insert(text@),
{
    let ghost before = texts@.map_values(|t: String| t@);
    let mut index: usize = 0;
    while index < texts.len()
        invariant
            0 <= index <= texts@.len(),
            before == texts@.map_values(|t: String| t@),
            forall|j: int| 0 <= j < index ==> texts@[j]@ != text@,
        decreases texts@.len() - index,
    {
        if texts[index] == text {
            assert(before[index as int] == text@);
            assert(before.to_set() =~= before.to_set().insert(text@));
            return;
        }
        index = index + 1;
    }
    let ghost added = text@;
    texts.push(text);
    assert(texts@.map_values(|t: String| t@) =~= before.push(added));
    assert forall|t: Seq<char>| #[trigger] before.push(added).contains(t) <==> before.contains(t)
        || t == added by {
        if before.push(added).contains(t) {
            let k = choose|k: int| 0 <= k < before.push(added).len() && before.push(added)[k] == t;
            if k < before.len() {
                assert(before[k] == t);
            }
        }
        if before.contains(t) {
            let k = choose|k: int| 0 <= k < before.len() && before[k] == t;
            assert(before.push(added)[k] == t);
        }
        if t == added {
            assert(before.push(added)[before.len() as int] == t);
        }
    }
    assert(before.push(added).to_set() =~= before.to_set().insert(added));
}

/// Where the party stands in the dungeon, what it has seen, and the doors
/// it has opened and treasures it has collected.
#[derive(Debug, PartialEq, Eq)]
pub struct ExplorationState {
    pub position: DungeonPosition,
    pub facing: DungeonFacingDefinition,
    pub discovered: Vec<DungeonPosition>,
    pub inspected_landmarks: Vec<String>,
    pub checkpoint_id: String,
    pub opened_doors: Vec<String>,
    pub collected_treasures: Vec<String>,
}

/// The mathematical value of an exploration state.
pub struct ExplorationStateView {
    pub position: DungeonPosition,
    pub facing: DungeonFacingDefinition,
    pub discovered: Set<DungeonPosition>,
    pub inspected_landmarks: Set<Seq<char>>,
    pub checkpoint_id: Seq<char>,
    pub opened_doors: Set<Seq<char>>,
    pub collected_treasures: Set<Seq<char>>,
}

/// The set of the texts of a list of strings.
pub open spec fn text_set(texts: Seq<String>) -> Set<Seq<char>> {
    texts.map_values(|t: String| t@).to_set()
}

impl View for ExplorationState {
    type V = ExplorationStateView;

    open spec fn view(&self) -> ExplorationStateView {
        ExplorationStateView {
            position: self.position,
            facing: self.facing,
            discovered: self.discovered@.to_set(),
            inspected_landmarks: self.inspected_landmarks@.map_values(|t: String| t@).to_set(),
            checkpoint_id: self.checkpoint_id@,
            opened_doors: text_set(self.opened_doors@),
            collected_treasures: text_set(self.collected_treasures@),
        }
    }
}

/// The exploration invariant: the party stands on floor it has
/// discovered, and every discovered cell is floor.
pub open spec fn exploration_wf(dungeon: DungeonDefinition, state: ExplorationStateView) -> bool {
    &&& dungeon_floor(dungeon, state.position.x as int, state.position.y as int)
    &&& state.discovered.contains(state.position)
    &&& forall|cell: DungeonPosition| #[trigger]
        state.discovered.contains(cell) ==> dungeon_floor(dungeon, cell.x as int, cell.y as int)
}

/// What an exploration command did.
#[derive(Debug, Clone, Copy, PartialEq, Eq, Structural)]
pub enum ExplorationEvent {
    /// The party turned in place.
    Turned,
    /// The party stepped onto an empty cell.
    Moved,
    /// The party stepped onto the cell of this encounter trigger.
    EncounterTriggered { trigger: usize },
    /// The party inspected this landmark.
    Inspected { landmark: usize },
}

/// Position of the first encounter trigger, from `i`, at a cell.
pub open spec fn trigger_at_from(
    triggers: Seq<DungeonEncounterDefinition>,
    cell: DungeonPosition,
    i: nat,
) -> Option<int>
    decreases triggers.len() - i,
{
    if i >= triggers.len() {
        None
    } else if triggers[i as int].x == cell.x && triggers[i as int].y == cell.y {
        Some(i as int)
    } else {
        trigger_at_from(triggers, cell, i + 1)
    }
}

/// Position of the first landmark, from `i`, at a cell.
pub open spec fn landmark_at_from(
    landmarks: Seq<DungeonLandmarkDefinition>,
    cell: DungeonPosition,
    i: nat,
) -> Option<int>
    decreases landmarks.len() - i,
{
    if i >= landmarks.len() {
        None
    } else if landmarks[i as int].x == cell.x && landmarks[i as int].y == cell.y {
        Some(i as int)
    } else {
        landmark_at_from(landmarks, cell, i + 1)
    }
}

proof fn lemma_trigger_at_from(triggers: Seq<DungeonEncounterDefinition>, cell: DungeonPosition, i: nat)
    ensures
        trigger_at_from(triggers, cell, i) matches Some(k) ==> i <= k < triggers.len(),
    decreases triggers.len() - i,
{
    if i < triggers.len() {
        lemma_trigger_at_from(triggers, cell, i + 1);
    }
}

proof fn lemma_landmark_at_from(landmarks: Seq<DungeonLandmarkDefinition>, cell: DungeonPosition, i: nat)
    ensures
        landmark_at_from(landmarks, cell, i) matches Some(k) ==> i <= k < landmarks.len(),
    decreases landmarks.len() - i,
{
    if i < landmarks.len() {
        lemma_landmark_at_from(landmarks, cell, i + 1);
    }
}

/// The encounter trigger at a cell, if any.
pub fn trigger_at(dungeon: &DungeonDefinition, cell: DungeonPosition) -> (found: Option<usize>)
    ensures
        match trigger_at_from(dungeon.encounters@, cell, 0) {
            Some(k) => found == Some(k as usize) && k < dungeon.encounters@.len(),
            None => found is None,
        },
        found matches Some(i) ==> i < dungeon.encounters@.len() && trigger_at_from(
            dungeon.encounters@,
            cell,
            0,
        ) == Some(i as int),
{
    proof {
        lemma_trigger_at_from(dungeon.encounters@, cell, 0);
    }
    let mut index: usize = 0;
    while index < dungeon.encounters.len()
        invariant
            0 <= index <= dungeon.encounters@.len(),
            trigger_at_from(dungeon.encounters@, cell, 0) == trigger_at_from(
                dungeon.encounters@,
                cell,
                index as nat,
            ),
        decreases dungeon.encounters@.len() - index,
    {
        if dungeon.encounters[index].x == cell.x && dungeon.encounters[index].y == cell.y {
            return Some(index);
        }
        index = index + 1;
    }
    None
}

/// The landmark at a cell, if any.
pub fn landmark_at(dungeon: &DungeonDefinition, cell: DungeonPosition) -> (found: Option<usize>)
    ensures
        match landmark_at_from(dungeon.landmarks@, cell, 0) {
            Some(k) => found == Some(k as usize) && k < dungeon.landmarks@.len(),
            None => found is None,
        },
        found matches Some(i) ==> i < dungeon.landmarks@.len() && landmark_at_from(
            dungeon.landmarks@,
            cell,
            0,
        ) == Some(i as int),
{
    proof {
        lemma_landmark_at_from(dungeon.landmarks@, cell, 0);
    }
    let mut index: usize = 0;
    while index < dungeon.landmarks.len()
        invariant
            0 <= index <= dungeon.landmarks@.len(),
            landmark_at_from(dungeon.landmarks@, cell, 0) == landmark_at_from(
                dungeon.landmarks@,
                cell,
                index as nat,
            ),
        decreases dungeon.landmarks@.len() - index,
    {
        if dungeon.landmarks[index].x == cell.x && dungeon.landmarks[index].y == cell.y {
            return Some(index);
        }
        index = index + 1;
    }
    None
}

/// The result of an exploration command on a state: the next state and
/// what happened, or why the command is refused.
pub open spec fn exploration_next(
    dungeon: DungeonDefinition,
    state: ExplorationStateView,
    command: ExplorationCommandKindDto,
) -> Result<(ExplorationStateView, ExplorationEvent), CommandProblem> {
    match command {
        ExplorationCommandKindDto::TurnLeft | ExplorationCommandKindDto::TurnRight => Ok(
            (
                ExplorationStateView {
                    position: state.position,
                    facing: turned(state.facing, command == ExplorationCommandKindDto::TurnRight),
                    discovered: state.discovered,
                    inspected_landmarks: state.inspected_landmarks,
                    checkpoint_id: state.checkpoint_id,
                    opened_doors: state.opened_doors,
                    collected_treasures: state.collected_treasures,
                },
                ExplorationEvent::Turned,
            ),
        ),
        ExplorationCommandKindDto::StepForward | ExplorationCommandKindDto::StepBackward => {
            match step_target(
                state.position,
                state.facing,
                command == ExplorationCommandKindDto::StepForward,
            ) {
                Some(cell) => if dungeon_floor(dungeon, cell.x as int, cell.y as int) {
                    let next = ExplorationStateView {
                        position: cell,
                        facing: state.facing,
                        discovered: state.discovered.insert(cell),
                        inspected_landmarks: state.inspected_landmarks,
                        checkpoint_id: state.checkpoint_id,
                        opened_doors: state.opened_doors,
                        collected_treasures: state.collected_treasures,
                    };
                    match trigger_at_from(dungeon.encounters@, cell, 0) {
                        Some(k) => Ok(
                            (next, ExplorationEvent::EncounterTriggered { trigger: k as usize }),
                        ),
                        None => Ok((next, ExplorationEvent::Moved)),
                    }
                } else {
                    Err(CommandProblem::BlockedStep)
                },
                None => Err(CommandProblem::BlockedStep),
            }
        },
        ExplorationCommandKindDto::Interact => match landmark_at_from(
            dungeon.landmarks@,
            state.position,
            0,
        ) {
            Some(k) => Ok(
                (
                    ExplorationStateView {
                        position: state.position,
                        facing: state.facing,
                        discovered: state.discovered,
                        inspected_landmarks: state.inspected_landmarks.insert(
                            dungeon.landmarks@[k].id@,
                        ),
                        checkpoint_id: state.checkpoint_id,
                        opened_doors: state.opened_doors,
                        collected_treasures: state.collected_treasures,
                    },
                    ExplorationEvent::Inspected { landmark: k as usize },
                ),
            ),
            None => Err(CommandProblem::NothingToInspect),
        },
    }
}

/// Applies one exploration command. A refused command leaves the state as
/// it was.
pub fn exploration_command(
    dungeon: &DungeonDefinition,
    state: &mut ExplorationState,
    command: ExplorationCommandKindDto,
) -> (result: Result<ExplorationEvent, GameRuntimeError>)
    requires
        positions_sorted(old(state).discovered@),
    ensures
        positions_sorted(final(state).discovered@),
        match exploration_next(*dungeon, old(state)@, command) {
            Ok((next, event)) => result == Ok::<ExplorationEvent, GameRuntimeError>(event)
                && final(state)@ == next,
            Err(problem) => result == Err::<ExplorationEvent, GameRuntimeError>(
                GameRuntimeError::InvalidCommand(problem),
            ) && final(state)@ == old(state)@,
        },
{
    match command {
        ExplorationCommandKindDto::TurnLeft | ExplorationCommandKindDto::TurnRight => {
            let clockwise = match command {
                ExplorationCommandKindDto::TurnRight => true,
                _ => false,
            };
            state.facing = turn(state.facing, clockwise);
            Ok(ExplorationEvent::Turned)
        },
        ExplorationCommandKindDto::StepForward | ExplorationCommandKindDto::StepBackward => {
            let forward = match command {
                ExplorationCommandKindDto::StepForward => true,
                _ => false,
            };
            let cell = match offset(state.position, state.facing, forward) {
                Some(cell) => cell,
                None => {
                    return Err(GameRuntimeError::InvalidCommand(CommandProblem::BlockedStep));
                },
            };
            if !dungeon.is_floor(cell.x, cell.y) {
                return Err(GameRuntimeError::InvalidCommand(CommandProblem::BlockedStep));
            }
            state.position = cell;
            insert_position(&mut state.discovered, cell);
            match trigger_at(dungeon, cell) {
                Some(trigger) => Ok(ExplorationEvent::EncounterTriggered { trigger }),
                None => Ok(ExplorationEvent::Moved),
            }
        },
        ExplorationCommandKindDto::Interact => {
            match landmark_at(dungeon, state.position) {
                Some(landmark) => {
                    let text = dungeon.landmarks[landmark].id.as_str().to_owned();
                    insert_text(&mut state.inspected_landmarks, text);
                    Ok(ExplorationEvent::Inspected { landmark })
                },
                None => Err(GameRuntimeError::InvalidCommand(CommandProblem::NothingToInspect)),
            }
        },
    }
}

/// Every exploration command keeps the exploration invariant.
pub proof fn lemma_exploration_preserves_wf(
    dungeon: DungeonDefinition,
    state: ExplorationStateView,
    command: ExplorationCommandKindDto,
)
    requires
        exploration_wf(dungeon, state),
    ensures
        exploration_next(dungeon, state, command) matches Ok((next, _)) ==> exploration_wf(
            dungeon,
            next,
        ),
{
}

/// A turn in one direction followed by a turn in the other restores the
/// state.
pub proof fn lemma_turn_commands_cancel(dungeon: DungeonDefinition, state: ExplorationStateView)
    ensures
        exploration_next(dungeon, state, ExplorationCommandKindDto::TurnLeft) matches Ok((left, _))
            && exploration_next(dungeon, left, ExplorationCommandKindDto::TurnRight) matches Ok(
            (back, _),
        ) && back == state,
{
    lemma_turn_inverse(state.facing, false);
}

/// The first-person view `depth` cells ahead: whether the cells in front
/// of, left of, and right of that cell are blocked.
pub open spec fn depth_view(
    dungeon: DungeonDefinition,
    position: DungeonPosition,
    facing: DungeonFacingDefinition,
    depth: u16,
) -> ExplorationDepthDto {
    let center = offset_position(position, facing, depth as int);
    let left = offset_position(center, turned(facing, false), 1);
    let right = offset_position(center, turned(facing, true), 1);
    let front = offset_position(center, facing, 1);
    ExplorationDepthDto {
        depth,
        front_blocked: !dungeon_floor(dungeon, front.x as int, front.y as int),
        left_blocked: !dungeon_floor(dungeon, left.x as int, left.y as int),
        right_blocked: !dungeon_floor(dungeon, right.x as int, right.y as int),
    }
}

/// Whether a step (forward or backward) is open.
pub open spec fn step_open(
    dungeon: DungeonDefinition,
    position: DungeonPosition,
    facing: DungeonFacingDefinition,
    forward: bool,
) -> bool {
    match step_target(position, facing, forward) {
        Some(cell) => dungeon_floor(dungeon, cell.x as int, cell.y as int),
        None => false,
    }
}

/// The protocol view of the party's exploration: grid, position, facing,
/// open steps, the view ahead, the discovered cells in order, and the
/// landmark underfoot.
pub fn project_exploration(dungeon: &DungeonDefinition, state: &ExplorationState) -> (result: Result<
    ExplorationDto,
    GameRuntimeError,
>)
    ensures
        !dungeon_floor(*dungeon, state.position.x as int, state.position.y as int) ==> result
            == Err::<ExplorationDto, GameRuntimeError>(
            GameRuntimeError::InvalidState(StateProblem::NotTraversable),
        ),
        dungeon_floor(*dungeon, state.position.x as int, state.position.y as int) ==> (result matches Ok(
            dto,
        ) && {
            &&& dto.dungeon_title@ == dungeon.title@
            &&& dto.wall_style@ == dungeon.wall_style@
            &&& dto.width == dungeon.width
            &&& dto.height == dungeon.height
            &&& dto.x == state.position.x
            &&& dto.y == state.position.y
            &&& dto.facing == facing_view(state.facing)
            &&& dto.can_step_forward == step_open(*dungeon, state.position, state.facing, true)
            &&& dto.can_step_backward == step_open(*dungeon, state.position, state.facing, false)
            &&& dto.view@.len() == VIEW_DEPTH
            &&& forall|d: int|
                0 <= d < VIEW_DEPTH ==> #[trigger] dto.view@[d] == depth_view(
                    *dungeon,
                    state.position,
                    state.facing,
                    d as u16,
                )
            &&& dto.discovered_cells@.len() == state.discovered@.len()
            &&& forall|i: int|
                0 <= i < state.discovered@.len() ==> (#[trigger] dto.discovered_cells@[i]).x
                    == state.discovered@[i].x && dto.discovered_cells@[i].y
                    == state.discovered@[i].y
            &&& match landmark_at_from(dungeon.landmarks@, state.position, 0) {
                None => dto.landmark is None,
                Some(k) => dto.landmark matches Some(landmark) && landmark.id@
                    == dungeon.landmarks@[k].id@ && landmark.title@ == dungeon.landmarks@[k].title@
                    && landmark.text@ == dungeon.landmarks@[k].text@ && landmark.inspected
                    == state@.inspected_landmarks.contains(dungeon.landmarks@[k].id@),
            }
            &&& dto.door_ahead is None
            &&& dto.treasure is None
            &&& dto.checkpoint is None
        }),
{
    if !dungeon.is_floor(state.position.x, state.position.y) {
        return Err(GameRuntimeError::InvalidState(StateProblem::NotTraversable));
    }
    let mut view: Vec<ExplorationDepthDto> = Vec::new();
    let mut depth: u16 = 0;
    while depth < VIEW_DEPTH
        invariant
            0 <= depth <= VIEW_DEPTH,
            view@.len() == depth,
            forall|d: int|
                0 <= d < depth ==> #[trigger] view@[d] == depth_view(
                    *dungeon,
                    state.position,
                    state.facing,
                    d as u16,
                ),
        decreases VIEW_DEPTH - depth,
    {
        let center = offset_by(state.position, state.facing, depth as i32);
        let (left, right) = side_positions(center, state.facing);
        let front = offset_by(center, state.facing, 1);
        view.push(
            ExplorationDepthDto {
                depth,
                front_blocked: !is_floor(dungeon, front),
                left_blocked: !is_floor(dungeon, left),
                right_blocked: !is_floor(dungeon, right),
            },
        );
        depth = depth + 1;
    }
    let backward = offset(state.position, state.facing, false);
    let forward = offset(state.position, state.facing, true);
    let can_step_forward = match forward {
        Some(cell) => is_floor(dungeon, cell),
        None => false,
    };
    let can_step_backward = match backward {
        Some(cell) => is_floor(dungeon, cell),
        None => false,
    };
    let mut cells: Vec<DiscoveredCellDto> = Vec::new();
    let mut index: usize = 0;
    while index < state.discovered.len()
        invariant
            0 <= index <= state.discovered@.len(),
            cells@.len() == index,
            forall|i: int|
                0 <= i < index ==> (#[trigger] cells@[i]).x == state.discovered@[i].x
                    && cells@[i].y == state.discovered@[i].y,
        decreases state.discovered@.len() - index,
    {
        cells.push(DiscoveredCellDto { x: state.discovered[index].x, y: state.discovered[index].y });
        index = index + 1;
    }
    let landmark = match landmark_at(dungeon, state.position) {
        Some(found) => {
            let authored = &dungeon.landmarks[found];
            let id = authored.id.as_str().to_owned();
            let inspected = contains_text(&state.inspected_landmarks, &id);
            Some(
                ExplorationLandmarkDto {
                    id,
                    title: authored.title.clone(),
                    text: authored.text.clone(),
                    inspected,
                },
            )
        },
        None => None,
    };
    Ok(
        ExplorationDto {
            dungeon_title: dungeon.title.clone(),
            wall_style: dungeon.wall_style.clone(),
            width: dungeon.width,
            height: dungeon.height,
            x: state.position.x,
            y: state.position.y,
            facing: facing_dto(state.facing),
            can_step_forward,
            can_step_backward,
            view,
            discovered_cells: cells,
            landmark,
            door_ahead: None,
            treasure: None,
            checkpoint: None,
        },
    )
}

/// Whether a list of texts holds `text`.
pub fn contains_text(texts: &Vec<String>, text: &String) -> (found: bool)
    ensures
        found == texts@.map_values(|t: String| t@).contains(text@),
{
    let ghost view = texts@.map_values(|t: String| t@);
    let mut index: usize = 0;
    while index < texts.len()
        invariant
            0 <= index <= texts@.len(),
            view == texts@.map_values(|t: String| t@),
            forall|j: int| 0 <= j < index ==> view[j] != text@,
        decreases texts@.len() - index,
    {
        if texts[index] == *text {
            assert(view[index as int] == text@);
            return true;
        }
        index = index + 1;
    }
    false
}

/// Whether some landmark of the dungeon is named `id`.
pub open spec fn is_landmark_id(dungeon: DungeonDefinition, id: Seq<char>) -> bool {
    exists|k: int| 0 <= k < dungeon.landmarks@.len() && #[trigger] dungeon.landmarks@[k].id@ == id
}

/// Whether some checkpoint of the dungeon is named `id`.
pub open spec fn is_checkpoint_id(dungeon: DungeonDefinition, id: Seq<char>) -> bool {
    exists|k: int| 0 <= k < dungeon.checkpoints@.len() && #[trigger] dungeon.checkpoints@[k].id@ == id
}

/// Position, from `i` on, of the first door named `id`.
pub open spec fn door_from(doors: Seq<DungeonDoorDefinition>, id: Seq<char>, i: nat) -> Option<int>
    decreases doors.len() - i,
{
    if i >= doors.len() {
        None
    } else if doors[i as int].id@ == id {
        Some(i as int)
    } else {
        door_from(doors, id, i + 1)
    }
}

/// Whether the door named `id` may stand open: it is an authored door, and
/// the treasure that unlocks it, if it is locked, has been collected.
pub open spec fn door_may_be_open(dungeon: DungeonDefinition, id: Seq<char>, collected: Set<Seq<char>>) -> bool {
    match door_from(dungeon.doors@, id, 0) {
        None => false,
        Some(k) => match dungeon.doors@[k].requires {
            None => true,
            Some(key) => collected.contains(key@),
        },
    }
}

/// Whether some treasure of the dungeon is named `id`.
pub open spec fn is_treasure_id(dungeon: DungeonDefinition, id: Seq<char>) -> bool {
    exists|k: int| 0 <= k < dungeon.treasures@.len() && #[trigger] dungeon.treasures@[k].id@ == id
}

/// Whether the opened doors and collected treasures of an exploration
/// agree with the dungeon: every opened door is authored and, when locked,
/// its key treasure is collected; every collected treasure is authored.
pub open spec fn doors_and_treasures_valid(
    dungeon: DungeonDefinition,
    opened: Set<Seq<char>>,
    collected: Set<Seq<char>>,
) -> bool {
    &&& forall|t: Seq<char>| #[trigger] opened.contains(t) ==> door_may_be_open(dungeon, t, collected)
    &&& forall|t: Seq<char>| #[trigger] collected.contains(t) ==> is_treasure_id(dungeon, t)
}

fn door_index(dungeon: &DungeonDefinition, id: &String) -> (found: Option<usize>)
    ensures
        found matches Some(k) ==> door_from(dungeon.doors@, id@, 0) == Some(k as int) && k
            < dungeon.doors@.len(),
        found is None ==> door_from(dungeon.doors@, id@, 0) is None,
{
    let mut index: usize = 0;
    while index < dungeon.doors.len()
        invariant
            0 <= index <= dungeon.doors@.len(),
            door_from(dungeon.doors@, id@, 0) == door_from(dungeon.doors@, id@, index as nat),
        decreases dungeon.doors@.len() - index,
    {
        if dungeon.doors[index].id.matches_text(id) {
            return Some(index);
        }
        index = index + 1;
    }
    None
}

fn treasure_known(dungeon: &DungeonDefinition, id: &String) -> (known: bool)
    ensures
        known == is_treasure_id(*dungeon, id@),
{
    let mut index: usize = 0;
    while index < dungeon.treasures.len()
        invariant
            0 <= index <= dungeon.treasures@.len(),
            forall|k: int| 0 <= k < index ==> dungeon.treasures@[k].id@ != id@,
        decreases dungeon.treasures@.len() - index,
    {
        if dungeon.treasures[index].id.matches_text(id) {
            assert(dungeon.treasures@[index as int].id@ == id@);
            return true;
        }
        index = index + 1;
    }
    false
}

/// Checks the opened doors and collected treasures of an exploration
/// against the dungeon.
pub fn doors_and_treasures_ok(dungeon: &DungeonDefinition, opened: &Vec<String>, collected: &Vec<String>) -> (ok:
    bool)
    ensures
        ok == doors_and_treasures_valid(*dungeon, text_set(opened@), text_set(collected@)),
{
    let ghost keys = text_set(collected@);
    let mut index: usize = 0;
    while index < opened.len()
        invariant
            0 <= index <= opened@.len(),
            keys == text_set(collected@),
            forall|j: int| 0 <= j < index ==> door_may_be_open(*dungeon, (#[trigger] opened@[j])@, keys),
        decreases opened@.len() - index,
    {
        proof {
            assert(opened@.map_values(|t: String| t@)[index as int] == opened@[index as int]@);
            assert(text_set(opened@).contains(opened@[index as int]@));
        }
        match door_index(dungeon, &opened[index]) {
            None => {
                return false;
            },
            Some(k) => {
                match &dungeon.doors[k].requires {
                    None => {},
                    Some(key) => {
                        let key_text = key.as_str().to_owned();
                        if !contains_text(collected, &key_text) {
                            return false;
                        }
                    },
                }
            },
        }
        index = index + 1;
    }
    proof {
        assert forall|t: Seq<char>| #[trigger] text_set(opened@).contains(t) implies door_may_be_open(
            *dungeon,
            t,
            keys,
        ) by {
            let views = opened@.map_values(|t: String| t@);
            let j = choose|j: int| 0 <= j < views.len() && views[j] == t;
            assert(views[j] == opened@[j]@);
        }
    }
    let mut held: usize = 0;
    while held < collected.len()
        invariant
            0 <= held <= collected@.len(),
            keys == text_set(collected@),
            forall|t: Seq<char>| #[trigger] text_set(opened@).contains(t) ==> door_may_be_open(*dungeon, t, keys),
            forall|j: int| 0 <= j < held ==> is_treasure_id(*dungeon, (#[trigger] collected@[j])@),
        decreases collected@.len() - held,
    {
        proof {
            assert(collected@.map_values(|t: String| t@)[held as int] == collected@[held as int]@);
            assert(keys.contains(collected@[held as int]@));
        }
        if !treasure_known(dungeon, &collected[held]) {
            return false;
        }
        held = held + 1;
    }
    proof {
        assert forall|t: Seq<char>| #[trigger] keys.contains(t) implies is_treasure_id(*dungeon, t) by {
            let views = collected@.map_values(|t: String| t@);
            let j = choose|j: int| 0 <= j < views.len() && views[j] == t;
            assert(views[j] == collected@[j]@);
        }
    }
    true
}

/// Whether the collected treasures agree with the session's events:
/// `taken` tells, for each authored treasure in order, whether the events
/// hand it to the party, and a treasure is collected exactly when it is
/// taken.
pub open spec fn treasure_ownership_agrees(
    dungeon: DungeonDefinition,
    collected: Set<Seq<char>>,
    taken: Seq<bool>,
) -> bool {
    &&& taken.len() == dungeon.treasures@.len()
    &&& forall|k: int|
        0 <= k < taken.len() ==> (collected.contains(dungeon.treasures@[k].id@) <==> #[trigger] taken[k])
}

/// Checks the collected treasures of an exploration against what the
/// session's events say of each authored treasure.
pub fn validate_treasure_ownership(dungeon: &DungeonDefinition, collected: &Vec<String>, taken: &Vec<bool>) -> (result:
    Result<(), GameRuntimeError>)
    ensures
        result == (if treasure_ownership_agrees(*dungeon, text_set(collected@), taken@) {
            Ok::<(), GameRuntimeError>(())
        } else {
            Err(
                GameRuntimeError::InvalidSave(
                    crate::game::error::SaveProblem::TreasureOwnershipContradiction,
                ),
            )
        }),
{
    if taken.len() != dungeon.treasures.len() {
        return Err(
            GameRuntimeError::InvalidSave(crate::game::error::SaveProblem::TreasureOwnershipContradiction),
        );
    }
    let mut index: usize = 0;
    while index < taken.len()
        invariant
            0 <= index <= taken@.len(),
            taken@.len() == dungeon.treasures@.len(),
            forall|k: int|
                0 <= k < index ==> (text_set(collected@).contains(dungeon.treasures@[k].id@)
                    <==> #[trigger] taken@[k]),
        decreases taken@.len() - index,
    {
        let name = dungeon.treasures[index].id.as_str().to_owned();
        let held = contains_text(collected, &name);
        if held != taken[index] {
            return Err(
                GameRuntimeError::InvalidSave(
                    crate::game::error::SaveProblem::TreasureOwnershipContradiction,
                ),
            );
        }
        index = index + 1;
    }
    Ok(())
}

/// Position, from `i` on, of the first checkpoint named `id`.
pub open spec fn checkpoint_from(checkpoints: Seq<DungeonCheckpointDefinition>, id: Seq<char>, i: nat) -> Option<
    int,
>
    decreases checkpoints.len() - i,
{
    if i >= checkpoints.len() {
        None
    } else if checkpoints[i as int].id@ == id {
        Some(i as int)
    } else {
        checkpoint_from(checkpoints, id, i + 1)
    }
}

pub(crate) proof fn lemma_checkpoint_from(checkpoints: Seq<DungeonCheckpointDefinition>, id: Seq<char>, i: nat)
    ensures
        checkpoint_from(checkpoints, id, i) matches Some(k) ==> i <= k < checkpoints.len()
            && checkpoints[k].id@ == id,
        checkpoint_from(checkpoints, id, i) is None ==> forall|k: int|
            i <= k < checkpoints.len() ==> checkpoints[k].id@ != id,
    decreases checkpoints.len() - i,
{
    if i < checkpoints.len() {
        lemma_checkpoint_from(checkpoints, id, i + 1);
    }
}

/// The checkpoint named `id`, if the dungeon has one.
pub fn find_checkpoint(dungeon: &DungeonDefinition, id: &String) -> (found: Option<usize>)
    ensures
        match checkpoint_from(dungeon.checkpoints@, id@, 0) {
            Some(k) => found matches Some(n) && n == k,
            None => found is None,
        },
        found matches Some(k) ==> k < dungeon.checkpoints@.len() && dungeon.checkpoints@[k as int].id@
            == id@,
        found is None <==> !is_checkpoint_id(*dungeon, id@),
{
    proof {
        lemma_checkpoint_from(dungeon.checkpoints@, id@, 0);
    }
    let mut index: usize = 0;
    while index < dungeon.checkpoints.len()
        invariant
            0 <= index <= dungeon.checkpoints@.len(),
            checkpoint_from(dungeon.checkpoints@, id@, 0) == checkpoint_from(
                dungeon.checkpoints@,
                id@,
                index as nat,
            ),
            forall|k: int| 0 <= k < index ==> dungeon.checkpoints@[k].id@ != id@,
        decreases dungeon.checkpoints@.len() - index,
    {
        if dungeon.checkpoints[index].id.matches_text(id) {
            return Some(index);
        }
        index = index + 1;
    }
    None
}

/// Whether a restored exploration state is consistent with its dungeon:
/// the party stands on discovered floor, at least one and at most
/// `width * height` cells are discovered, all of them floor, every
/// inspected landmark is authored, and the checkpoint is authored.
pub open spec fn exploration_state_valid(dungeon: DungeonDefinition, state: ExplorationState) -> bool {
    &&& dungeon_floor(dungeon, state.position.x as int, state.position.y as int)
    &&& state.discovered@.contains(state.position)
    &&& state.discovered@.len() > 0
    &&& state.discovered@.len() <= dungeon.width * dungeon.height
    &&& forall|i: int|
        0 <= i < state.discovered@.len() ==> dungeon_floor(
            dungeon,
            (#[trigger] state.discovered@[i]).x as int,
            state.discovered@[i].y as int,
        )
    &&& forall|i: int|
        0 <= i < state.inspected_landmarks@.len() ==> is_landmark_id(
            dungeon,
            (#[trigger] state.inspected_landmarks@[i])@,
        )
    &&& is_checkpoint_id(dungeon, state.checkpoint_id@)
    &&& doors_and_treasures_valid(
        dungeon,
        text_set(state.opened_doors@),
        text_set(state.collected_treasures@),
    )
}

/// Checks a restored exploration state against its dungeon.
pub fn validate_exploration_state(dungeon: &DungeonDefinition, state: &ExplorationState) -> (result:
    Result<(), GameRuntimeError>)
    ensures
        result == (if exploration_state_valid(*dungeon, *state) {
            Ok::<(), GameRuntimeError>(())
        } else {
            Err(GameRuntimeError::InvalidSave(crate::game::error::SaveProblem::InvalidExploration))
        }),
{
    if !dungeon.is_floor(state.position.x, state.position.y) {
        return Err(GameRuntimeError::InvalidSave(crate::game::error::SaveProblem::InvalidExploration));
    }
    let count = state.discovered.len();
    let width: u64 = dungeon.width as u64;
    let height: u64 = dungeon.height as u64;
    assert(width * height <= 0xffff_ffff) by (nonlinear_arith)
        requires
            width <= 0xffff,
            height <= 0xffff,
    ;
    if count == 0 || count as u64 > width * height {
        return Err(GameRuntimeError::InvalidSave(crate::game::error::SaveProblem::InvalidExploration));
    }
    let mut present = false;
    let mut index: usize = 0;
    while index < state.discovered.len()
        invariant
            0 <= index <= state.discovered@.len(),
            present <==> exists|j: int| 0 <= j < index && state.discovered@[j] == state.position,
            forall|j: int|
                0 <= j < index ==> dungeon_floor(
                    *dungeon,
                    (#[trigger] state.discovered@[j]).x as int,
                    state.discovered@[j].y as int,
                ),
        decreases state.discovered@.len() - index,
    {
        let cell = state.discovered[index];
        if !dungeon.is_floor(cell.x, cell.y) {
            return Err(GameRuntimeError::InvalidSave(crate::game::error::SaveProblem::InvalidExploration));
        }
        if cell.x == state.position.x && cell.y == state.position.y {
            present = true;
        }
        index = index + 1;
    }
    if !present {
        return Err(GameRuntimeError::InvalidSave(crate::game::error::SaveProblem::InvalidExploration));
    }
    let mut inspected: usize = 0;
    while inspected < state.inspected_landmarks.len()
        invariant
            0 <= inspected <= state.inspected_landmarks@.len(),
            forall|j: int|
                0 <= j < inspected ==> is_landmark_id(
                    *dungeon,
                    (#[trigger] state.inspected_landmarks@[j])@,
                ),
        decreases state.inspected_landmarks@.len() - inspected,
    {
        let mut known = false;
        let mut landmark: usize = 0;
        while landmark < dungeon.landmarks.len()
            invariant
                0 <= landmark <= dungeon.landmarks@.len(),
                0 <= inspected < state.inspected_landmarks@.len(),
                known ==> is_landmark_id(*dungeon, state.inspected_landmarks@[inspected as int]@),
                !known ==> forall|k: int|
                    0 <= k < landmark ==> dungeon.landmarks@[k].id@
                        != state.inspected_landmarks@[inspected as int]@,
            decreases dungeon.landmarks@.len() - landmark,
        {
            if dungeon.landmarks[landmark].id.matches_text(&state.inspected_landmarks[inspected]) {
                known = true;
            }
            landmark = landmark + 1;
        }
        if !known {
            assert(!is_landmark_id(*dungeon, state.inspected_landmarks@[inspected as int]@));
            assert(!exploration_state_valid(*dungeon, *state));
            return Err(GameRuntimeError::InvalidSave(crate::game::error::SaveProblem::InvalidExploration));
        }
        inspected = inspected + 1;
    }
    if find_checkpoint(dungeon, &state.checkpoint_id).is_none() {
        return Err(GameRuntimeError::InvalidSave(crate::game::error::SaveProblem::InvalidExploration));
    }
    if !doors_and_treasures_ok(dungeon, &state.opened_doors, &state.collected_treasures) {
        return Err(GameRuntimeError::InvalidSave(crate::game::error::SaveProblem::InvalidExploration));
    }
    Ok(())
}

/// The exploration invariant together with authored inspections and an
/// authored checkpoint.
pub open spec fn exploration_view_valid(dungeon: DungeonDefinition, state: ExplorationStateView) -> bool {
    &&& exploration_wf(dungeon, state)
    &&& forall|t: Seq<char>| #[trigger]
        state.inspected_landmarks.contains(t) ==> is_landmark_id(dungeon, t)
    &&& is_checkpoint_id(dungeon, state.checkpoint_id)
    &&& doors_and_treasures_valid(dungeon, state.opened_doors, state.collected_treasures)
}

/// The cell `(x, y)` of a `w`-wide grid numbered row by row.
proof fn lemma_cell_number_injective(w: int, x1: int, y1: int, x2: int, y2: int)
    requires
        0 <= x1 < w,
        0 <= x2 < w,
        0 <= y1,
        0 <= y2,
        y1 * w + x1 == y2 * w + x2,
    ensures
        x1 == x2,
        y1 == y2,
{
    if y1 < y2 {
        assert(y2 * w >= y1 * w + w) by (nonlinear_arith)
            requires
                y2 >= y1 + 1,
                w >= 0,
        ;
    } else if y2 < y1 {
        assert(y1 * w >= y2 * w + w) by (nonlinear_arith)
            requires
                y1 >= y2 + 1,
                w >= 0,
        ;
    }
}

/// Distinct floor cells of a dungeon number at most `width * height`.
pub proof fn lemma_sorted_floor_cells_fit(dungeon: DungeonDefinition, cells: Seq<DungeonPosition>)
    requires
        positions_sorted(cells),
        forall|i: int|
            0 <= i < cells.len() ==> dungeon_floor(
                dungeon,
                (#[trigger] cells[i]).x as int,
                cells[i].y as int,
            ),
    ensures
        cells.len() <= dungeon.width * dungeon.height,
{
    let w = dungeon.width as int;
    let h = dungeon.height as int;
    assert forall|i: int, j: int|
        0 <= i < cells.len() && 0 <= j < cells.len() && i != j implies cells[i] != cells[j] by {
        if i < j {
            assert(position_key(cells[i]) < position_key(cells[j]));
        } else {
            assert(position_key(cells[j]) < position_key(cells[i]));
        }
    }
    assert(cells.no_duplicates());
    cells.unique_seq_to_set();
    let cell_set = cells.to_set();
    let number = |p: DungeonPosition| (p.y as int) * w + (p.x as int);
    assert forall|p: DungeonPosition| #[trigger] cell_set.contains(p) implies dungeon_floor(
        dungeon,
        p.x as int,
        p.y as int,
    ) by {
        let k = choose|k: int| 0 <= k < cells.len() && cells[k] == p;
        assert(dungeon_floor(dungeon, cells[k].x as int, cells[k].y as int));
    }
    assert forall|p: DungeonPosition, q: DungeonPosition|
        cell_set.contains(p) && cell_set.contains(q) && #[trigger] number(p) == #[trigger] number(
            q,
        ) implies p == q by {
        lemma_cell_number_injective(w, p.x as int, p.y as int, q.x as int, q.y as int);
    }
    assert(vstd::relations::injective_on(number, cell_set));
    let numbers = cell_set.map(number);
    let range = vstd::set_lib::set_int_range(0, w * h);
    assert forall|n: int| numbers.contains(n) implies #[trigger] range.contains(n) by {
        let p = choose|p: DungeonPosition| cell_set.contains(p) && number(p) == n;
        let x = p.x as int;
        let y = p.y as int;
        assert(0 <= y * w + x < w * h) by (nonlinear_arith)
            requires
                0 <= x < w,
                0 <= y < h,
        ;
    }
    vstd::set_lib::lemma_map_size(cell_set, numbers, number);
    vstd::set_lib::lemma_int_range(0, w * h);
    vstd::set_lib::lemma_len_subset(numbers, range);
}

/// For a sorted list of cells, validity of the stored state is validity of
/// its mathematical value.
pub proof fn lemma_exploration_valid_view(dungeon: DungeonDefinition, state: ExplorationState)
    requires
        positions_sorted(state.discovered@),
    ensures
        exploration_state_valid(dungeon, state) <==> exploration_view_valid(dungeon, state@),
{
    let cells = state.discovered@;
    let texts = state.inspected_landmarks@;
    let inspected = texts.map_values(|t: String| t@);
    if exploration_state_valid(dungeon, state) {
        assert forall|cell: DungeonPosition| #[trigger]
            state@.discovered.contains(cell) implies dungeon_floor(
            dungeon,
            cell.x as int,
            cell.y as int,
        ) by {
            let k = choose|k: int| 0 <= k < cells.len() && cells[k] == cell;
            assert(dungeon_floor(dungeon, cells[k].x as int, cells[k].y as int));
        }
        assert forall|t: Seq<char>| #[trigger]
            state@.inspected_landmarks.contains(t) implies is_landmark_id(dungeon, t) by {
            let k = choose|k: int| 0 <= k < inspected.len() && inspected[k] == t;
            assert(is_landmark_id(dungeon, texts[k]@));
        }
    }
    if exploration_view_valid(dungeon, state@) {
        assert forall|i: int| 0 <= i < cells.len() implies dungeon_floor(
            dungeon,
            (#[trigger] cells[i]).x as int,
            cells[i].y as int,
        ) by {
            assert(state@.discovered.contains(cells[i]));
        }
        assert forall|i: int| 0 <= i < texts.len() implies is_landmark_id(
            dungeon,
            (#[trigger] texts[i])@,
        ) by {
            assert(inspected[i] == texts[i]@);
            assert(state@.inspected_landmarks.contains(texts[i]@));
        }
        assert(cells.contains(state.position));
        lemma_sorted_floor_cells_fit(dungeon, cells);
    }
}

/// Every exploration command keeps an exploration valid.
pub proof fn lemma_exploration_keeps_validity(
    dungeon: DungeonDefinition,
    state: ExplorationStateView,
    command: ExplorationCommandKindDto,
)
    requires
        exploration_view_valid(dungeon, state),
    ensures
        exploration_next(dungeon, state, command) matches Ok((next, _)) ==> exploration_view_valid(
            dungeon,
            next,
        ),
{
    if let ExplorationCommandKindDto::Interact = command {
        if let Some(k) = landmark_at_from(dungeon.landmarks@, state.position, 0) {
            lemma_landmark_at_from(dungeon.landmarks@, state.position, 0);
            let id = dungeon.landmarks@[k].id@;
            assert(is_landmark_id(dungeon, id));
        }
    }
}

/// The exploration state when the party (re)enters the dungeon: an
/// existing state keeps everything and rediscovers its own cell; a new one
/// starts at the dungeon's start cell, facing and checkpoint, having seen
/// only that cell.
pub fn begin_exploration_state(dungeon: &DungeonDefinition, existing: Option<ExplorationState>) -> (state:
    ExplorationState)
    requires
        existing matches Some(s) ==> positions_sorted(s.discovered@),
    ensures
        positions_sorted(state.discovered@),
        match existing {
            Some(s) => state@ == (ExplorationStateView {
                discovered: s@.discovered.insert(s.position),
                ..s@
            }),
            None => state@ == (ExplorationStateView {
                position: DungeonPosition { x: dungeon.start_x, y: dungeon.start_y },
                facing: dungeon.start_facing,
                discovered: Set::empty().insert(
                    DungeonPosition { x: dungeon.start_x, y: dungeon.start_y },
                ),
                inspected_landmarks: Set::empty(),
                checkpoint_id: dungeon.start_checkpoint@,
                opened_doors: Set::empty(),
                collected_treasures: Set::empty(),
            }),
        },
{
    match existing {
        Some(mut state) => {
            let position = state.position;
            insert_position(&mut state.discovered, position);
            state
        },
        None => {
            let position = DungeonPosition { x: dungeon.start_x, y: dungeon.start_y };
            let mut discovered: Vec<DungeonPosition> = Vec::new();
            insert_position(&mut discovered, position);
            let inspected: Vec<String> = Vec::new();
            let state = ExplorationState {
                position,
                facing: dungeon.start_facing,
                discovered,
                inspected_landmarks: inspected,
                checkpoint_id: dungeon.start_checkpoint.as_str().to_owned(),
                opened_doors: Vec::new(),
                collected_treasures: Vec::new(),
            };
            assert(state@.inspected_landmarks =~= Set::empty());
            assert(state@.opened_doors =~= Set::empty());
            assert(state@.collected_treasures =~= Set::empty());
            assert(Seq::<DungeonPosition>::empty().to_set() =~= Set::empty());
            state
        },
    }
}

/// Whether the dungeon's `j`-th encounter trigger stands on `cell`.
pub open spec fn trigger_stands_on(dungeon: DungeonDefinition, j: int, cell: DungeonPosition) -> bool {
    dungeon.encounters@[j].x == cell.x && dungeon.encounters@[j].y == cell.y
}

/// The search for a trigger from `i` finds the first one on the cell, or
/// reports that none from `i` on stands there.
proof fn lemma_trigger_search(triggers: Seq<DungeonEncounterDefinition>, cell: DungeonPosition, i: nat)
    ensures
        trigger_at_from(triggers, cell, i) matches Some(k) ==> i <= k < triggers.len()
            && triggers[k].x == cell.x && triggers[k].y == cell.y && forall|j: int|
            i <= j < k ==> !(#[trigger] triggers[j].x == cell.x && triggers[j].y == cell.y),
        trigger_at_from(triggers, cell, i) is None ==> forall|j: int|
            i <= j < triggers.len() ==> !(#[trigger] triggers[j].x == cell.x && triggers[j].y
                == cell.y),
    decreases triggers.len() - i,
{
    if i < triggers.len() {
        lemma_trigger_search(triggers, cell, i + 1);
    }
}

/// A step forward or backward that is accepted moves the party onto a
/// floor cell next to where it stood, facing as before; if an encounter
/// trigger stands on that cell, the step enters the encounter of the
/// first such trigger, and otherwise it is a plain move.
#[verifier::spinoff_prover]
pub proof fn lemma_steps_enter_triggered_encounters(
    dungeon: DungeonDefinition,
    state: ExplorationStateView,
    command: ExplorationCommandKindDto,
)
    requires
        command == ExplorationCommandKindDto::StepForward || command
            == ExplorationCommandKindDto::StepBackward,
        dungeon.encounters@.len() <= usize::MAX,
    ensures
        exploration_next(dungeon, state, command) matches Ok((next, event)) ==> dungeon_floor(
            dungeon,
            next.position.x as int,
            next.position.y as int,
        ),
        exploration_next(dungeon, state, command) matches Ok((next, event)) ==> next.facing == state.facing,
        exploration_next(dungeon, state, command) matches Ok((next, event)) ==> (if next.position.x >= state.position.x {
            next.position.x - state.position.x
        } else {
            state.position.x - next.position.x
        }) + (if next.position.y >= state.position.y {
            next.position.y - state.position.y
        } else {
            state.position.y - next.position.y
        }) == 1,
        exploration_next(dungeon, state, command) matches Ok((next, event)) ==> ((exists|j: int|
            0 <= j < dungeon.encounters@.len() && #[trigger] trigger_stands_on(dungeon, j, next.position))
            ==> (event matches ExplorationEvent::EncounterTriggered { trigger } && trigger
            < dungeon.encounters@.len() && trigger_stands_on(dungeon, trigger as int, next.position)
            && forall|j: int| 0 <= j < trigger ==> !#[trigger] trigger_stands_on(dungeon, j, next.position))),
        exploration_next(dungeon, state, command) matches Ok((next, event)) ==> (!(exists|j: int|
            0 <= j < dungeon.encounters@.len() && #[trigger] trigger_stands_on(dungeon, j, next.position))
            ==> event == ExplorationEvent::Moved),
{
    match step_target(state.position, state.facing, command == ExplorationCommandKindDto::StepForward) {
        Some(cell) => {
            let d: int = if command == ExplorationCommandKindDto::StepForward {
                1
            } else {
                -1
            };
            let mx = state.position.x + facing_dx(state.facing) * d;
            let my = state.position.y + facing_dy(state.facing) * d;
            assert(cell.x == clamp_coordinate(mx) && cell.y == clamp_coordinate(my));
            assert(cell.x as int == mx && cell.y as int == my);
            assert(d == 1 || d == -1);
            let fx = facing_dx(state.facing);
            let fy = facing_dy(state.facing);
            assert((fx == 0 && (fy == 1 || fy == -1)) || (fy == 0 && (fx == 1 || fx == -1)));
            assert(fx * d == 0 || fx * d == 1 || fx * d == -1) by (nonlinear_arith)
                requires
                    fx == 0 || fx == 1 || fx == -1,
                    d == 1 || d == -1,
            ;
            assert(fy * d == 0 || fy * d == 1 || fy * d == -1) by (nonlinear_arith)
                requires
                    fy == 0 || fy == 1 || fy == -1,
                    d == 1 || d == -1,
            ;
            assert(fx == 0 ==> fx * d == 0) by (nonlinear_arith);
            assert(fy == 0 ==> fy * d == 0) by (nonlinear_arith);
            assert(fx != 0 ==> fx * d != 0) by (nonlinear_arith)
                requires
                    d == 1 || d == -1,
            ;
            assert(fy != 0 ==> fy * d != 0) by (nonlinear_arith)
                requires
                    d == 1 || d == -1,
            ;
            lemma_trigger_search(dungeon.encounters@, cell, 0);
            assert(exploration_next(dungeon, state, command) matches Ok((moved, _)) ==> moved.position
                == cell);
            if let Some(k) = trigger_at_from(dungeon.encounters@, cell, 0) {
                assert(trigger_stands_on(dungeon, k, cell));
                assert((k as usize) as int == k);
                assert(exists|j: int|
                    0 <= j < dungeon.encounters@.len() && #[trigger] trigger_stands_on(dungeon, j, cell));
                assert forall|j: int| 0 <= j < k implies !#[trigger] trigger_stands_on(dungeon, j, cell) by {
                    assert(!(dungeon.encounters@[j].x == cell.x && dungeon.encounters@[j].y == cell.y));
                }
            } else {
                assert forall|j: int| 0 <= j < dungeon.encounters@.len() implies !#[trigger] trigger_stands_on(
                    dungeon,
                    j,
                    cell,
                ) by {
                    assert(!(dungeon.encounters@[j].x == cell.x && dungeon.encounters@[j].y == cell.y));
                }
            }
        },
        None => {},
    }
}

} // verus!
