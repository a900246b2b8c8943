use twobombs::coord::Coord;
use twobombs::coord_set::CoordSet;
use twobombs::search::{abs_difference, find_attack_points, find_bombs, hits, test_explode};

fn set_of(cells: &[(usize, usize)]) -> CoordSet {
    let mut set = CoordSet::new();
    for &(x, y) in cells {
        set.insert(Coord { x, y });
    }
    set
}

fn sorted(set: &CoordSet) -> Vec<(usize, usize)> {
    let mut cells: Vec<(usize, usize)> = set.members().iter().map(|c| (c.x, c.y)).collect();
    cells.sort();
    cells
}

fn grid(dim: usize) -> Vec<(usize, usize)> {
    let mut cells = Vec::new();
    for x in 0..dim {
        for y in 0..dim {
            cells.push((x, y));
        }
    }
    cells
}

#[test]
fn a_set_holds_each_coordinate_once() {
    let mut set = CoordSet::new();
    assert!(set.is_empty());
    assert!(set.insert(Coord { x: 1, y: 2 }));
    assert!(!set.insert(Coord { x: 1, y: 2 }));
    assert!(set.insert(Coord { x: 2, y: 1 }));
    assert_eq!(set.len(), 2);
    assert!(set.contains(&Coord { x: 2, y: 1 }));
    assert!(!set.contains(&Coord { x: 2, y: 2 }));
    assert!(set.remove(&Coord { x: 1, y: 2 }));
    assert!(!set.remove(&Coord { x: 1, y: 2 }));
    assert_eq!(sorted(&set), vec![(2, 1)]);
    let copy = set.clone();
    assert_eq!(sorted(&copy), vec![(2, 1)]);
}

#[test]
fn the_distance_is_symmetric() {
    assert_eq!(abs_difference(3, 7), 4);
    assert_eq!(abs_difference(7, 3), 4);
    assert_eq!(abs_difference(5, 5), 0);
    assert_eq!(abs_difference(0, usize::MAX), usize::MAX);
}

#[test]
fn a_bomb_hits_its_column_row_and_diagonals() {
    let bomb = Coord { x: 2, y: 2 };
    assert!(hits(&bomb, &Coord { x: 2, y: 2 }));
    assert!(hits(&bomb, &Coord { x: 2, y: 9 }));
    assert!(hits(&bomb, &Coord { x: 0, y: 2 }));
    assert!(hits(&bomb, &Coord { x: 0, y: 0 }));
    assert!(hits(&bomb, &Coord { x: 4, y: 0 }));
    assert!(hits(&bomb, &Coord { x: 0, y: 4 }));
    assert!(!hits(&bomb, &Coord { x: 3, y: 0 }));
    assert!(!hits(&bomb, &Coord { x: 0, y: 1 }));
}

#[test]
fn an_explosion_leaves_the_targets_off_its_lines() {
    let targets = set_of(&[(0, 0), (0, 2), (2, 0), (4, 4), (3, 1), (1, 4)]);
    let remaining = test_explode(&Coord { x: 0, y: 1 }, &targets);
    assert_eq!(sorted(&remaining), vec![(1, 4), (2, 0), (4, 4)]);
    let none = test_explode(&Coord { x: 9, y: 9 }, &set_of(&[]));
    assert!(none.is_empty());
    let all = test_explode(&Coord { x: 7, y: 1 }, &set_of(&[(0, 0), (2, 2)]));
    assert_eq!(sorted(&all), vec![(0, 0), (2, 2)]);
}

#[test]
fn attack_points_of_a_corner_target() {
    let points = find_attack_points(&set_of(&[(2, 2)]), 3);
    assert_eq!(sorted(&points), vec![(0, 0), (0, 2), (1, 1), (1, 2), (2, 0), (2, 1), (2, 2)]);
}

#[test]
fn attack_points_of_an_edge_target() {
    let points = find_attack_points(&set_of(&[(1, 0)]), 3);
    assert_eq!(sorted(&points), vec![(0, 0), (0, 1), (1, 0), (1, 1), (1, 2), (2, 0), (2, 1)]);
}

#[test]
fn attack_points_count_once() {
    let points = find_attack_points(&set_of(&[(0, 0), (1, 1)]), 2);
    assert_eq!(sorted(&points), vec![(0, 0), (0, 1), (1, 0), (1, 1)]);
}

#[test]
fn attack_points_of_nothing_are_none() {
    assert!(find_attack_points(&set_of(&[]), 5).is_empty());
    assert!(find_attack_points(&set_of(&[(1, 1)]), 0).is_empty());
}

#[test]
fn attack_points_of_a_target_off_the_grid() {
    let points = find_attack_points(&set_of(&[(5, 1)]), 3);
    assert_eq!(sorted(&points), vec![(0, 1), (1, 1), (2, 1), (5, 0), (5, 1), (5, 2)]);
}

#[test]
fn the_bombs_found_leave_no_target() {
    let cells = [(0, 0), (0, 2), (2, 0), (4, 4)];
    let targets = set_of(&cells);
    let (first, second) = find_bombs(&targets, 5).expect("two bombs cover these targets");
    let after_first = test_explode(&first, &targets);
    assert!(!after_first.is_empty());
    assert!(test_explode(&second, &after_first).is_empty());
    for &(x, y) in &cells {
        let target = Coord { x, y };
        assert!(hits(&first, &target) || hits(&second, &target));
    }
    assert!(first.x < 5 && first.y < 5 && second.x < 5 && second.y < 5);
}

#[test]
fn a_cover_in_two_steps_is_found() {
    let targets = set_of(&[(0, 1), (2, 0), (4, 3), (7, 5), (5, 7), (1, 6), (6, 2)]);
    let first = Coord { x: 0, y: 2 };
    let second = Coord { x: 2, y: 5 };
    let left = test_explode(&first, &targets);
    assert!(!left.is_empty() && left.len() < targets.len());
    assert!(test_explode(&second, &left).is_empty());
    let (one, two) = find_bombs(&targets, 8).expect("a cover in two steps exists");
    assert!(test_explode(&two, &test_explode(&one, &targets)).is_empty());
}

#[test]
fn the_whole_board_needs_more_than_two_bombs() {
    assert_eq!(find_bombs(&set_of(&grid(5)), 5), None);
}

#[test]
fn fourteen_targets_that_two_bombs_cannot_cover() {
    let cells = [
        (0, 0), (0, 2), (0, 3), (0, 4), (1, 1), (1, 3), (1, 4),
        (2, 0), (2, 4), (3, 0), (3, 4), (4, 0), (4, 2), (4, 3),
    ];
    for a in grid(5) {
        for b in grid(5) {
            let (a, b) = (Coord::from(a), Coord::from(b));
            assert!(cells.iter().any(|&t| !hits(&a, &Coord::from(t)) && !hits(&b, &Coord::from(t))));
        }
    }
    assert_eq!(find_bombs(&set_of(&cells), 5), None);
}

#[test]
fn no_targets_no_bombs() {
    assert_eq!(find_bombs(&set_of(&[]), 3), None);
}

#[test]
fn a_first_bomb_that_leaves_nothing_is_no_pair() {
    assert_eq!(find_bombs(&set_of(&[(1, 1)]), 3), None);
    assert_eq!(find_bombs(&set_of(&[(0, 0), (1, 1)]), 2), None);
}
