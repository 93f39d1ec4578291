use vstd::prelude::*;

use crate::component::TacticalPosition;
use crate::definitions::ActionLineOfEffectDefinition;

verus! {

/// An authored tactical board: a grid of rows in which `#` is a wall.
#[derive(Debug, PartialEq, Eq)]
pub struct TacticalBoardDefinition {
    pub width: u16,
    pub height: u16,
    pub rows: Vec<Vec<u8>>,
}

/// Whether the cell `(x, y)` lies on the board and is not a wall.
pub open spec fn board_floor(board: TacticalBoardDefinition, x: int, y: int) -> bool {
    &&& 0 <= x < board.width
    &&& 0 <= y < board.height
    &&& y < board.rows@.len()
    &&& x < board.rows@[y]@.len()
    &&& board.rows@[y]@[x] != 35u8
}

impl TacticalBoardDefinition {
    /// Whether a participant can stand on the cell `(x, y)`.
    pub fn is_floor(&self, x: u16, y: u16) -> (floor: bool)
        ensures
            floor == board_floor(*self, x as int, y as int),
    {
        x < self.width && y < self.height && (y as usize) < self.rows.len() && (x as usize)
            < self.rows[y as usize].len() && self.rows[y as usize][x as usize] != 35u8
    }
}

/// The king-move distance between two cells.
pub open spec fn chebyshev(a: TacticalPosition, b: TacticalPosition) -> int {
    let dx = if a.x >= b.x {
        a.x - b.x
    } else {
        b.x - a.x
    };
    let dy = if a.y >= b.y {
        a.y - b.y
    } else {
        b.y - a.y
    };
    if dx >= dy {
        dx
    } else {
        dy
    }
}

/// The king-move distance between two cells.
pub fn tactical_distance(a: TacticalPosition, b: TacticalPosition) -> (distance: u16)
    ensures
        distance == chebyshev(a, b),
{
    let dx = if a.x >= b.x {
        a.x - b.x
    } else {
        b.x - a.x
    };
    let dy = if a.y >= b.y {
        a.y - b.y
    } else {
        b.y - a.y
    };
    if dx >= dy {
        dx
    } else {
        dy
    }
}

/// Whether an action from `actor` may reach `target`: the target is a
/// different cell within `range` king moves, and, when the action needs a
/// line of effect, `line_clear` (whether the Engine's collision projection
/// found the straight line between the cells unobstructed) holds.
pub fn action_is_spatially_legal(
    actor: TacticalPosition,
    target: TacticalPosition,
    range: u16,
    line_of_effect: ActionLineOfEffectDefinition,
    line_clear: bool,
) -> (legal: bool)
    ensures
        legal == (chebyshev(actor, target) != 0 && chebyshev(actor, target) <= range && (
        line_of_effect == ActionLineOfEffectDefinition::Ignored || line_clear)),
{
    let distance = tactical_distance(actor, target);
    if distance == 0 || distance > range {
        return false;
    }
    match line_of_effect {
        ActionLineOfEffectDefinition::Ignored => true,
        ActionLineOfEffectDefinition::Required => line_clear,
    }
}

/// The sign of an integer.
pub open spec fn signum(value: int) -> int {
    if value > 0 {
        1
    } else if value < 0 {
        -1
    } else {
        0
    }
}

/// The direction a forced movement pushes: away from the actor along the
/// dominant axis (the horizontal one on ties).
pub open spec fn push_direction(actor: TacticalPosition, target: TacticalPosition) -> (int, int) {
    let dx = target.x - actor.x;
    let dy = target.y - actor.y;
    let ax = if dx >= 0 {
        dx
    } else {
        -dx
    };
    let ay = if dy >= 0 {
        dy
    } else {
        -dy
    };
    if ax >= ay {
        (signum(dx), 0)
    } else {
        (0, signum(dy))
    }
}

/// Whether a forced movement cannot enter `(x, y)`: off the coordinate
/// range, occupied, or not floor.
pub open spec fn push_blocked(
    board: TacticalBoardDefinition,
    occupied: Seq<TacticalPosition>,
    x: int,
    y: int,
) -> bool {
    ||| !(0 <= x <= u16::MAX && 0 <= y <= u16::MAX)
    ||| occupied.contains(TacticalPosition { x: x as u16, y: y as u16 })
    ||| !board_floor(board, x, y)
}

/// Where `steps` pushes in direction `(sx, sy)` from `from` end: each push
/// moves one cell unless the next cell is blocked, which ends the movement.
pub open spec fn pushed(
    board: TacticalBoardDefinition,
    occupied: Seq<TacticalPosition>,
    from: TacticalPosition,
    sx: int,
    sy: int,
    steps: nat,
) -> TacticalPosition
    decreases steps,
{
    if steps == 0 {
        from
    } else if push_blocked(board, occupied, from.x + sx, from.y + sy) {
        from
    } else {
        pushed(
            board,
            occupied,
            TacticalPosition { x: (from.x + sx) as u16, y: (from.y + sy) as u16 },
            sx,
            sy,
            (steps - 1) as nat,
        )
    }
}

/// Where a target pushed by `actor` for up to `maximum_steps` cells ends.
pub open spec fn forced_result(
    board: TacticalBoardDefinition,
    occupied: Seq<TacticalPosition>,
    actor: TacticalPosition,
    target: TacticalPosition,
    maximum_steps: u16,
) -> TacticalPosition {
    let (sx, sy) = push_direction(actor, target);
    if sx == 0 && sy == 0 {
        target
    } else {
        pushed(board, occupied, target, sx, sy, maximum_steps as nat)
    }
}

/// Whether a list of cells holds `cell`.
pub fn contains_position(cells: &Vec<TacticalPosition>, cell: TacticalPosition) -> (found: bool)
    ensures
        found == cells@.contains(cell),
{
    let mut index: usize = 0;
    while index < cells.len()
        invariant
            0 <= index <= cells@.len(),
            forall|j: int| 0 <= j < index ==> cells@[j] != cell,
        decreases cells@.len() - index,
    {
        if cells[index] == cell {
            assert(cells@[index as int] == cell);
            return true;
        }
        index = index + 1;
    }
    false
}

/// Where a forced movement leaves its target: pushed away from the actor
/// along the dominant axis, one cell at a time, for at most `maximum_steps`
/// cells, stopping before the first cell that is off the board, a wall, or
/// occupied.
pub fn forced_destination(
    board: &TacticalBoardDefinition,
    occupied: &Vec<TacticalPosition>,
    actor: TacticalPosition,
    target: TacticalPosition,
    maximum_steps: u16,
) -> (destination: TacticalPosition)
    ensures
        destination == forced_result(*board, occupied@, actor, target, maximum_steps),
{
    let dx: i32 = target.x as i32 - actor.x as i32;
    let dy: i32 = target.y as i32 - actor.y as i32;
    let ax: i32 = if dx >= 0 {
        dx
    } else {
        -dx
    };
    let ay: i32 = if dy >= 0 {
        dy
    } else {
        -dy
    };
    let sign_x: i32 = if dx > 0 {
        1
    } else if dx < 0 {
        -1
    } else {
        0
    };
    let sign_y: i32 = if dy > 0 {
        1
    } else if dy < 0 {
        -1
    } else {
        0
    };
    let (step_x, step_y): (i32, i32) = if ax >= ay {
        (sign_x, 0)
    } else {
        (0, sign_y)
    };
    if step_x == 0 && step_y == 0 {
        return target;
    }
    let ghost goal = forced_result(*board, occupied@, actor, target, maximum_steps);
    let mut destination = target;
    let mut taken: u16 = 0;
    while taken < maximum_steps
        invariant
            0 <= taken <= maximum_steps,
            -1 <= step_x <= 1,
            -1 <= step_y <= 1,
            goal == forced_result(*board, occupied@, actor, target, maximum_steps),
            goal == pushed(
                *board,
                occupied@,
                destination,
                step_x as int,
                step_y as int,
                (maximum_steps - taken) as nat,
            ),
        decreases maximum_steps - taken,
    {
        let next_x: i32 = destination.x as i32 + step_x;
        let next_y: i32 = destination.y as i32 + step_y;
        if next_x < 0 || next_x > u16::MAX as i32 || next_y < 0 || next_y > u16::MAX as i32 {
            return destination;
        }
        let next = TacticalPosition { x: next_x as u16, y: next_y as u16 };
        if contains_position(occupied, next) || !board.is_floor(next.x, next.y) {
            return destination;
        }
        destination = next;
        taken = taken + 1;
    }
    destination
}

/// A forced movement ends on its target or on a floor cell that no other
/// participant occupies.
pub proof fn lemma_pushed_lands_clear(
    board: TacticalBoardDefinition,
    occupied: Seq<TacticalPosition>,
    from: TacticalPosition,
    sx: int,
    sy: int,
    steps: nat,
)
    ensures
        pushed(board, occupied, from, sx, sy, steps) == from || (board_floor(
            board,
            pushed(board, occupied, from, sx, sy, steps).x as int,
            pushed(board, occupied, from, sx, sy, steps).y as int,
        ) && !occupied.contains(pushed(board, occupied, from, sx, sy, steps))),
    decreases steps,
{
    if steps > 0 && !push_blocked(board, occupied, from.x + sx, from.y + sy) {
        let next = TacticalPosition { x: (from.x + sx) as u16, y: (from.y + sy) as u16 };
        lemma_pushed_lands_clear(board, occupied, next, sx, sy, (steps - 1) as nat);
    }
}

/// A forced movement travels a whole number of cells `k`, at most
/// `steps`, along its direction.
pub proof fn lemma_pushed_distance(
    board: TacticalBoardDefinition,
    occupied: Seq<TacticalPosition>,
    from: TacticalPosition,
    sx: int,
    sy: int,
    steps: nat,
) -> (k: int)
    ensures
        0 <= k <= steps,
        pushed(board, occupied, from, sx, sy, steps).x == from.x + k * sx,
        pushed(board, occupied, from, sx, sy, steps).y == from.y + k * sy,
    decreases steps,
{
    if steps > 0 && !push_blocked(board, occupied, from.x + sx, from.y + sy) {
        let next = TacticalPosition { x: (from.x + sx) as u16, y: (from.y + sy) as u16 };
        let k = lemma_pushed_distance(board, occupied, next, sx, sy, (steps - 1) as nat);
        let end = pushed(board, occupied, from, sx, sy, steps);
        assert(end.x == from.x + (k + 1) * sx) by (nonlinear_arith)
            requires
                end.x == next.x + k * sx,
                next.x == from.x + sx,
        ;
        assert(end.y == from.y + (k + 1) * sy) by (nonlinear_arith)
            requires
                end.y == next.y + k * sy,
                next.y == from.y + sy,
        ;
        k + 1
    } else {
        0
    }
}

/// The cell `k` cells from `from` in direction `(sx, sy)` is open to a
/// forced movement.
pub open spec fn push_open(
    board: TacticalBoardDefinition,
    occupied: Seq<TacticalPosition>,
    from: TacticalPosition,
    sx: int,
    sy: int,
    k: int,
) -> bool {
    !push_blocked(board, occupied, from.x + k * sx, from.y + k * sy)
}

/// A walk of up to `steps` cells in direction `(sx, sy)` goes `k` cells:
/// every cell it enters is open, and it stops early only before a cell
/// that is not.
proof fn lemma_pushed_walk(
    board: TacticalBoardDefinition,
    occupied: Seq<TacticalPosition>,
    from: TacticalPosition,
    sx: int,
    sy: int,
    steps: nat,
) -> (k: int)
    ensures
        0 <= k <= steps,
        pushed(board, occupied, from, sx, sy, steps).x == from.x + k * sx,
        pushed(board, occupied, from, sx, sy, steps).y == from.y + k * sy,
        forall|i: int| 1 <= i <= k ==> #[trigger] push_open(board, occupied, from, sx, sy, i),
        k < steps ==> !push_open(board, occupied, from, sx, sy, k + 1),
    decreases steps,
{
    if steps > 0 && !push_blocked(board, occupied, from.x + sx, from.y + sy) {
        let next = TacticalPosition { x: (from.x + sx) as u16, y: (from.y + sy) as u16 };
        let k = lemma_pushed_walk(board, occupied, next, sx, sy, (steps - 1) as nat);
        let end = pushed(board, occupied, from, sx, sy, steps);
        assert(end.x == from.x + (k + 1) * sx) by (nonlinear_arith)
            requires
                end.x == next.x + k * sx,
                next.x == from.x + sx,
        ;
        assert(end.y == from.y + (k + 1) * sy) by (nonlinear_arith)
            requires
                end.y == next.y + k * sy,
                next.y == from.y + sy,
        ;
        assert forall|i: int| 1 <= i <= k + 1 implies #[trigger] push_open(board, occupied, from, sx, sy, i) by {
            if i == 1 {
                assert(from.x + 1 * sx == from.x + sx);
                assert(from.y + 1 * sy == from.y + sy);
            } else {
                assert(push_open(board, occupied, next, sx, sy, i - 1));
                assert(next.x + (i - 1) * sx == from.x + i * sx) by (nonlinear_arith)
                    requires
                        next.x == from.x + sx,
                ;
                assert(next.y + (i - 1) * sy == from.y + i * sy) by (nonlinear_arith)
                    requires
                        next.y == from.y + sy,
                ;
            }
        }
        if k + 1 < steps {
            assert(!push_open(board, occupied, next, sx, sy, k + 1));
            assert(next.x + (k + 1) * sx == from.x + (k + 2) * sx) by (nonlinear_arith)
                requires
                    next.x == from.x + sx,
            ;
            assert(next.y + (k + 1) * sy == from.y + (k + 2) * sy) by (nonlinear_arith)
                requires
                    next.y == from.y + sy,
            ;
        }
        k + 1
    } else {
        if steps > 0 {
            assert(from.x + 1 * sx == from.x + sx);
            assert(from.y + 1 * sy == from.y + sy);
        }
        0
    }
}

/// A forced movement pushes its target straight away from the actor along
/// the axis on which they are farther apart (the horizontal one on a
/// tie): vertically, by the sign of the target's row less the actor's,
/// when the rows differ by more than the columns; else horizontally, by
/// the sign of the column difference. It goes `k` cells, at most
/// `maximum_steps`, every one of them open, and stops early only before a
/// cell that is off the board, a wall, or occupied. A target on the
/// actor's own cell does not move.
pub proof fn lemma_push_moves_away_from_actor(
    board: TacticalBoardDefinition,
    occupied: Seq<TacticalPosition>,
    actor: TacticalPosition,
    target: TacticalPosition,
    maximum_steps: u16,
) -> (k: int)
    ensures
        ({
            let dx = target.x - actor.x;
            let dy = target.y - actor.y;
            let vertical = (if dy >= 0 { dy } else { -dy }) > (if dx >= 0 { dx } else { -dx });
            let sx: int = if vertical { 0 } else if dx > 0 { 1 } else if dx < 0 { -1 } else { 0 };
            let sy: int = if !vertical { 0 } else if dy > 0 { 1 } else { -1 };
            let end = forced_result(board, occupied, actor, target, maximum_steps);
            &&& 0 <= k <= maximum_steps
            &&& end.x == target.x + k * sx
            &&& end.y == target.y + k * sy
            &&& forall|i: int| 1 <= i <= k ==> #[trigger] push_open(board, occupied, target, sx, sy, i)
            &&& (sx != 0 || sy != 0) && k < maximum_steps ==> !push_open(
                board,
                occupied,
                target,
                sx,
                sy,
                k + 1,
            )
            &&& actor == target ==> end == target
        }),
{
    let (sx, sy) = push_direction(actor, target);
    if sx == 0 && sy == 0 {
        0
    } else {
        lemma_pushed_walk(board, occupied, target, sx, sy, maximum_steps as nat)
    }
}

} // verus!
