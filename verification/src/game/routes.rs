//! Tactical movement routes: which of the Engine pathfinder's routes an
//! actor may take, in what order they are offered, and which one the
//! opposition takes toward the party.

use vstd::prelude::*;

use crate::component::TacticalPosition;
use crate::game::activation::TacticalRoute;
use crate::game::tactical::{board_floor, chebyshev, contains_position, tactical_distance, TacticalBoardDefinition};

verus! {

/// The king-move distance from `destination` to the nearest of `targets`,
/// or `u16::MAX` without targets.
pub open spec fn nearest_distance(destination: TacticalPosition, targets: Seq<TacticalPosition>) -> int
    decreases targets.len(),
{
    if targets.len() == 0 {
        u16::MAX as int
    } else {
        let rest = nearest_distance(destination, targets.drop_last());
        let here = chebyshev(destination, targets.last());
        if here < rest {
            here
        } else {
            rest
        }
    }
}

/// How the opposition ranks a route: nearness of its destination to the
/// party, then its length, then the destination's row and column.
pub open spec fn route_rank(route: TacticalRoute, targets: Seq<TacticalPosition>) -> (int, int, int, int) {
    (
        nearest_distance(route.destination, targets),
        route.path@.len() as int,
        route.destination.y as int,
        route.destination.x as int,
    )
}

/// The lexicographic order of ranks.
pub open spec fn rank_less(a: (int, int, int, int), b: (int, int, int, int)) -> bool {
    ||| a.0 < b.0
    ||| (a.0 == b.0 && a.1 < b.1)
    ||| (a.0 == b.0 && a.1 == b.1 && a.2 < b.2)
    ||| (a.0 == b.0 && a.1 == b.1 && a.2 == b.2 && a.3 < b.3)
}

/// Whether route `k` is the first of the best-ranked routes.
pub open spec fn first_best(routes: Seq<TacticalRoute>, targets: Seq<TacticalPosition>, k: int) -> bool {
    &&& 0 <= k < routes.len()
    &&& forall|j: int|
        0 <= j < k ==> rank_less(route_rank(routes[k], targets), route_rank(#[trigger] routes[j], targets))
    &&& forall|j: int|
        0 <= j < routes.len() ==> !rank_less(
            route_rank(#[trigger] routes[j], targets),
            route_rank(routes[k], targets),
        )
}

fn nearest(destination: TacticalPosition, targets: &Vec<TacticalPosition>) -> (distance: u16)
    ensures
        distance == nearest_distance(destination, targets@),
{
    let mut best: u16 = 65535;
    let mut index: usize = 0;
    while index < targets.len()
        invariant
            0 <= index <= targets@.len(),
            best == nearest_distance(destination, targets@.take(index as int)),
        decreases targets@.len() - index,
    {
        proof {
            assert(targets@.take(index as int + 1).drop_last() =~= targets@.take(index as int));
        }
        let here = tactical_distance(destination, targets[index]);
        if here < best {
            best = here;
        }
        index = index + 1;
    }
    proof {
        assert(targets@.take(targets@.len() as int) =~= targets@);
    }
    best
}

/// The route the opposition takes toward `targets`: the first of the
/// routes nearest to one of them, shortest, then topmost and leftmost.
pub fn closest_route(routes: &Vec<TacticalRoute>, targets: &Vec<TacticalPosition>) -> (chosen: Option<
    usize,
>)
    ensures
        routes@.len() == 0 ==> chosen is None,
        routes@.len() > 0 ==> (chosen matches Some(k) && first_best(routes@, targets@, k as int)),
{
    if routes.len() == 0 {
        return None;
    }
    let mut best: usize = 0;
    let mut best_distance = nearest(routes[0].destination, targets);
    let mut index: usize = 1;
    while index < routes.len()
        invariant
            1 <= index <= routes@.len(),
            best < index,
            best_distance == nearest_distance(routes@[best as int].destination, targets@),
            forall|j: int|
                0 <= j < best ==> rank_less(
                    route_rank(routes@[best as int], targets@),
                    route_rank(#[trigger] routes@[j], targets@),
                ),
            forall|j: int|
                0 <= j < index ==> !rank_less(
                    route_rank(#[trigger] routes@[j], targets@),
                    route_rank(routes@[best as int], targets@),
                ),
        decreases routes@.len() - index,
    {
        let candidate = &routes[index];
        let distance = nearest(candidate.destination, targets);
        let current = &routes[best];
        let better = distance < best_distance || (distance == best_distance && (candidate.path.len()
            < current.path.len() || (candidate.path.len() == current.path.len() && (
        candidate.destination.y < current.destination.y || (candidate.destination.y
            == current.destination.y && candidate.destination.x < current.destination.x)))));
        proof {
            assert(better == rank_less(
                route_rank(routes@[index as int], targets@),
                route_rank(routes@[best as int], targets@),
            ));
        }
        if better {
            best = index;
            best_distance = distance;
        }
        index = index + 1;
    }
    Some(best)
}

/// The position of a cell in the pathfinder's row-major answers.
pub open spec fn cell_index(cell: TacticalPosition, width: u16) -> int {
    cell.y * width + cell.x
}

/// The squares a path of `length` cells crosses: all but its first.
pub open spec fn path_steps(length: int) -> int {
    if length <= 0 {
        0
    } else {
        length - 1
    }
}

/// Whether the actor standing on `start` may move to `cell`, given the
/// pathfinder's answer for each cell of the board (row-major, `None` where
/// it found no way): the cell is another floor cell of the board that
/// nobody occupies, and the path found there crosses at least one square
/// and no more than `maximum_steps`.
pub open spec fn route_admitted(
    board: TacticalBoardDefinition,
    occupied: Seq<TacticalPosition>,
    start: TacticalPosition,
    maximum_steps: u16,
    paths: Seq<Option<Vec<TacticalPosition>>>,
    cell: TacticalPosition,
) -> bool {
    &&& cell.x < board.width
    &&& cell.y < board.height
    &&& cell != start
    &&& !occupied.contains(cell)
    &&& board_floor(board, cell.x as int, cell.y as int)
    &&& paths[cell_index(cell, board.width)] is Some
    &&& 1 <= path_steps(paths[cell_index(cell, board.width)]->0@.len() as int) <= maximum_steps
}

/// The order routes are offered in: shortest first, then by row and
/// column of the destination.
pub open spec fn route_order_key(route: TacticalRoute) -> int {
    route.path@.len() * 4294967296 + route.destination.y * 65536 + route.destination.x
}

/// Routes in strictly increasing offer order.
pub open spec fn routes_ordered(routes: Seq<TacticalRoute>) -> bool {
    forall|i: int, j: int|
        0 <= i < j < routes.len() ==> route_order_key(#[trigger] routes[i]) < route_order_key(
            #[trigger] routes[j],
        )
}

/// Whether a route of `routes` ends at `cell`.
pub open spec fn reaches(routes: Seq<TacticalRoute>, cell: TacticalPosition) -> bool {
    exists|i: int| 0 <= i < routes.len() && #[trigger] routes[i].destination == cell
}

fn copy_path(path: &Vec<TacticalPosition>) -> (copy: Vec<TacticalPosition>)
    ensures
        copy@ == path@,
{
    let mut copy: Vec<TacticalPosition> = Vec::new();
    let mut index: usize = 0;
    while index < path.len()
        invariant
            0 <= index <= path@.len(),
            copy@ == path@.take(index as int),
        decreases path@.len() - index,
    {
        copy.push(path[index]);
        proof {
            assert(path@.take(index as int + 1) =~= path@.take(index as int).push(path@[index as int]));
        }
        index = index + 1;
    }
    proof {
        assert(path@.take(path@.len() as int) =~= path@);
    }
    copy
}

fn comes_before(a: &TacticalRoute, b: &TacticalRoute) -> (before: bool)
    ensures
        before == (route_order_key(*a) < route_order_key(*b)),
{
    let la = a.path.len();
    let lb = b.path.len();
    la < lb || (la == lb && (a.destination.y < b.destination.y || (a.destination.y
        == b.destination.y && a.destination.x < b.destination.x)))
}

fn insert_route(routes: &mut Vec<TacticalRoute>, route: TacticalRoute)
    requires
        routes_ordered(old(routes)@),
        forall|i: int| 0 <= i < old(routes)@.len() ==> (#[trigger] old(routes)@[i]).destination
            != route.destination,
    ensures
        routes_ordered(final(routes)@),
        final(routes)@.len() == old(routes)@.len() + 1,
        forall|r: TacticalRoute| final(routes)@.contains(r) <==> (old(routes)@.contains(r) || r == route),
{
    let ghost before = routes@;
    let mut p: usize = 0;
    while p < routes.len() && comes_before(&routes[p], &route)
        invariant
            routes@ == before,
            routes_ordered(before),
            0 <= p <= before.len(),
            forall|k: int| 0 <= k < p ==> route_order_key(#[trigger] before[k]) < route_order_key(route),
        decreases before.len() - p,
    {
        p = p + 1;
    }
    proof {
        if p < before.len() {
            assert(before[p as int].destination != route.destination);
            assert(route_order_key(route) < route_order_key(before[p as int]));
        }
    }
    let ghost inserted = route;
    routes.insert(p, route);
    proof {
        let after = routes@;
        assert(after =~= before.take(p as int).push(inserted) + before.skip(p as int));
        assert forall|i: int, j: int| 0 <= i < j < after.len() implies route_order_key(
            #[trigger] after[i],
        ) < route_order_key(#[trigger] after[j]) by {
            if j < p {
                assert(after[i] == before[i] && after[j] == before[j]);
            } else if j == p {
                assert(after[i] == before[i]);
            } else if i < p {
                assert(after[i] == before[i] && after[j] == before[j - 1]);
            } else if i == p {
                assert(after[j] == before[j - 1]);
            } else {
                assert(after[i] == before[i - 1] && after[j] == before[j - 1]);
            }
        }
        assert forall|r: TacticalRoute| after.contains(r) <==> (before.contains(r) || r == inserted) by {
            if after.contains(r) {
                let k = choose|k: int| 0 <= k < after.len() && after[k] == r;
                if k < p {
                    assert(before[k] == r);
                } else if k > p {
                    assert(before[k - 1] == r);
                }
            }
            if before.contains(r) {
                let k = choose|k: int| 0 <= k < before.len() && before[k] == r;
                if k < p {
                    assert(after[k] == r);
                } else {
                    assert(after[k + 1] == r);
                }
            }
            if r == inserted {
                assert(after[p as int] == r);
            }
        }
    }
}

/// Whether `cell` comes before the scan position `(x, y)` in row-major
/// order.
pub open spec fn scanned(cell: TacticalPosition, x: int, y: int) -> bool {
    cell.y < y || (cell.y == y && cell.x < x)
}

/// The routes an actor on `start` may take with `maximum_steps` squares
/// of movement, in offer order. `paths` holds, for each cell of the board
/// in row-major order, the path the Engine's pathfinder found to it from
/// `start`, or `None` where it found none.
pub fn legal_routes_from(
    board: &TacticalBoardDefinition,
    occupied: &Vec<TacticalPosition>,
    start: TacticalPosition,
    maximum_steps: u16,
    paths: &Vec<Option<Vec<TacticalPosition>>>,
) -> (routes: Vec<TacticalRoute>)
    requires
        paths@.len() == board.width * board.height,
    ensures
        maximum_steps == 0 ==> routes@.len() == 0,
        routes_ordered(routes@),
        forall|i: int|
            0 <= i < routes@.len() ==> {
                let route = #[trigger] routes@[i];
                &&& route_admitted(*board, occupied@, start, maximum_steps, paths@, route.destination)
                &&& route.path@ == paths@[cell_index(route.destination, board.width)]->0@
            },
        forall|cell: TacticalPosition|
            route_admitted(*board, occupied@, start, maximum_steps, paths@, cell) ==> reaches(
                routes@,
                cell,
            ),
{
    let mut routes: Vec<TacticalRoute> = Vec::new();
    if maximum_steps == 0 {
        return routes;
    }
    let width = board.width;
    let height = board.height;
    let mut y: u16 = 0;
    while y < height
        invariant
            board.width == width,
            board.height == height,
            paths@.len() == width * height,
            maximum_steps > 0,
            y <= height,
            routes_ordered(routes@),
            forall|i: int|
                0 <= i < routes@.len() ==> {
                    let route = #[trigger] routes@[i];
                    &&& route_admitted(*board, occupied@, start, maximum_steps, paths@, route.destination)
                    &&& route.path@ == paths@[cell_index(route.destination, width)]->0@
                    &&& route.destination.y < y
                },
            forall|cell: TacticalPosition|
                cell.y < y && route_admitted(*board, occupied@, start, maximum_steps, paths@, cell)
                    ==> reaches(routes@, cell),
        decreases height - y,
    {
        let mut x: u16 = 0;
        while x < width
            invariant
                board.width == width,
                board.height == height,
                paths@.len() == width * height,
                maximum_steps > 0,
                y < height,
                x <= width,
                routes_ordered(routes@),
                forall|i: int|
                    0 <= i < routes@.len() ==> {
                        let route = #[trigger] routes@[i];
                        &&& route_admitted(
                            *board,
                            occupied@,
                            start,
                            maximum_steps,
                            paths@,
                            route.destination,
                        )
                        &&& route.path@ == paths@[cell_index(route.destination, width)]->0@
                        &&& scanned(route.destination, x as int, y as int)
                    },
                forall|cell: TacticalPosition|
                    scanned(cell, x as int, y as int) && route_admitted(
                        *board,
                        occupied@,
                        start,
                        maximum_steps,
                        paths@,
                        cell,
                    ) ==> reaches(routes@, cell),
            decreases width - x,
        {
            let cell = TacticalPosition { x, y };
            proof {
                assert(y * width + x < width * height) by (nonlinear_arith)
                    requires
                        x < width,
                        y < height,
                ;
                assert(width * height <= 65535 * 65535) by (nonlinear_arith)
                    requires
                        width <= 65535,
                        height <= 65535,
                ;
                assert(0 <= y * width <= y * width + x) by (nonlinear_arith)
                    requires
                        0 <= y,
                        0 <= width,
                        0 <= x,
                ;
            }
            let index = (y as usize) * (width as usize) + (x as usize);
            assert(index as int == cell_index(cell, width));
            let open = cell != start && !contains_position(occupied, cell) && board.is_floor(x, y);
            if open {
                match &paths[index] {
                    Some(path) => {
                        let length = path.len();
                        let steps: usize = if length == 0 {
                            0
                        } else {
                            length - 1
                        };
                        if steps >= 1 && steps <= maximum_steps as usize {
                            let route = TacticalRoute { destination: cell, path: copy_path(path) };
                            proof {
                                assert forall|i: int| 0 <= i < routes@.len() implies (
                                #[trigger] routes@[i]).destination != route.destination by {
                                    assert(scanned(routes@[i].destination, x as int, y as int));
                                }
                            }
                            let ghost old_routes = routes@;
                            insert_route(&mut routes, route);
                            proof {
                                assert forall|i: int| 0 <= i < routes@.len() implies {
                                    let r = #[trigger] routes@[i];
                                    &&& route_admitted(
                                        *board,
                                        occupied@,
                                        start,
                                        maximum_steps,
                                        paths@,
                                        r.destination,
                                    )
                                    &&& r.path@ == paths@[cell_index(r.destination, width)]->0@
                                    &&& scanned(r.destination, x as int + 1, y as int)
                                } by {
                                    assert(routes@.contains(routes@[i]));
                                    if old_routes.contains(routes@[i]) {
                                        let k = choose|k: int|
                                            0 <= k < old_routes.len() && old_routes[k] == routes@[i];
                                        assert(scanned(old_routes[k].destination, x as int, y as int));
                                    }
                                }
                                assert forall|c: TacticalPosition|
                                    scanned(c, x as int + 1, y as int) && route_admitted(
                                        *board,
                                        occupied@,
                                        start,
                                        maximum_steps,
                                        paths@,
                                        c,
                                    ) implies reaches(routes@, c) by {
                                    if c == cell {
                                        assert(routes@.contains(route));
                                        let k = choose|k: int| 0 <= k < routes@.len() && routes@[k] == route;
                                        assert(routes@[k].destination == c);
                                    } else {
                                        assert(scanned(c, x as int, y as int));
                                        assert(reaches(old_routes, c));
                                        let k = choose|k: int|
                                            0 <= k < old_routes.len() && #[trigger] old_routes[k].destination == c;
                                        assert(old_routes.contains(old_routes[k]));
                                        assert(routes@.contains(old_routes[k]));
                                        let m = choose|m: int| 0 <= m < routes@.len() && routes@[m] == old_routes[k];
                                        assert(routes@[m].destination == c);
                                    }
                                }
                            }
                        } else {
                            proof {
                                assert(!route_admitted(*board, occupied@, start, maximum_steps, paths@, cell));
                                assert forall|c: TacticalPosition|
                                    scanned(c, x as int + 1, y as int) && route_admitted(
                                        *board,
                                        occupied@,
                                        start,
                                        maximum_steps,
                                        paths@,
                                        c,
                                    ) implies reaches(routes@, c) by {
                                    if c != cell {
                                        assert(scanned(c, x as int, y as int));
                                    }
                                }
                            }
                        }
                    },
                    None => {
                        proof {
                            assert forall|c: TacticalPosition|
                                scanned(c, x as int + 1, y as int) && route_admitted(
                                    *board,
                                    occupied@,
                                    start,
                                    maximum_steps,
                                    paths@,
                                    c,
                                ) implies reaches(routes@, c) by {
                                if c != cell {
                                    assert(scanned(c, x as int, y as int));
                                }
                            }
                        }
                    },
                }
            } else {
                proof {
                    assert(!route_admitted(*board, occupied@, start, maximum_steps, paths@, cell));
                    assert forall|c: TacticalPosition|
                        scanned(c, x as int + 1, y as int) && route_admitted(
                            *board,
                            occupied@,
                            start,
                            maximum_steps,
                            paths@,
                            c,
                        ) implies reaches(routes@, c) by {
                        if c != cell {
                            assert(scanned(c, x as int, y as int));
                        }
                    }
                }
            }
            x = x + 1;
        }
        proof {
            assert forall|c: TacticalPosition|
                c.y < y + 1 && route_admitted(*board, occupied@, start, maximum_steps, paths@, c)
                    implies reaches(routes@, c) by {
                assert(scanned(c, width as int, y as int));
            }
        }
        y = y + 1;
    }
    routes
}

} // verus!
