use rusty_d20::{closest_route, legal_routes_from, TacticalBoardDefinition, TacticalPosition, TacticalRoute};

fn at(x: u16, y: u16) -> TacticalPosition {
    TacticalPosition { x, y }
}

fn route(path: &[(u16, u16)]) -> TacticalRoute {
    let cells: Vec<TacticalPosition> = path.iter().map(|&(x, y)| at(x, y)).collect();
    TacticalRoute { destination: *cells.last().expect("nonempty"), path: cells }
}

#[test]
fn opposition_takes_the_route_nearest_the_party() {
    let routes = vec![
        route(&[(0, 0), (1, 0)]),
        route(&[(0, 0), (1, 1), (2, 2)]),
        route(&[(0, 0), (0, 1), (0, 2)]),
    ];
    assert_eq!(closest_route(&routes, &vec![at(3, 3)]), Some(1));
    assert_eq!(closest_route(&routes, &vec![at(0, 4), at(9, 9)]), Some(2));
    assert_eq!(closest_route(&vec![], &vec![at(3, 3)]), None);
}

#[test]
fn ties_prefer_shorter_then_upper_then_left_then_first() {
    let routes = vec![
        route(&[(0, 0), (1, 1), (2, 1)]),
        route(&[(0, 0), (2, 0)]),
        route(&[(0, 0), (2, 1)]),
    ];
    // All three are one square from (3, 1); the two short ones tie on length,
    // and the one on row 0 wins.
    assert_eq!(closest_route(&routes, &vec![at(3, 1)]), Some(1));
    let same = vec![route(&[(0, 0), (1, 0)]), route(&[(0, 0), (1, 0)])];
    assert_eq!(closest_route(&same, &vec![at(5, 5)]), Some(0));
    // Without targets every route is as far as can be; the shortest wins.
    assert_eq!(closest_route(&routes, &vec![]), Some(1));
}

fn board() -> TacticalBoardDefinition {
    TacticalBoardDefinition {
        width: 3,
        height: 2,
        rows: vec![b"..#".to_vec(), b"...".to_vec()],
    }
}

fn paths() -> Vec<Option<Vec<TacticalPosition>>> {
    // Row-major answers of the pathfinder from (0, 0).
    vec![
        Some(vec![at(0, 0)]),
        Some(vec![at(0, 0), at(1, 0)]),
        None,
        Some(vec![at(0, 0), at(0, 1)]),
        Some(vec![at(0, 0), at(1, 1)]),
        Some(vec![at(0, 0), at(1, 1), at(2, 1)]),
    ]
}

#[test]
fn legal_routes_are_filtered_and_ordered() {
    let routes = legal_routes_from(&board(), &vec![at(0, 1)], at(0, 0), 2, &paths());
    let destinations: Vec<(u16, u16)> = routes.iter().map(|r| (r.destination.x, r.destination.y)).collect();
    assert_eq!(destinations, vec![(1, 0), (1, 1), (2, 1)]);
    assert_eq!(routes[2].path, vec![at(0, 0), at(1, 1), at(2, 1)]);
}

#[test]
fn movement_budget_bounds_routes() {
    let routes = legal_routes_from(&board(), &vec![], at(0, 0), 1, &paths());
    let destinations: Vec<(u16, u16)> = routes.iter().map(|r| (r.destination.x, r.destination.y)).collect();
    assert_eq!(destinations, vec![(1, 0), (0, 1), (1, 1)]);
    assert!(legal_routes_from(&board(), &vec![], at(0, 0), 0, &paths()).is_empty());
}
