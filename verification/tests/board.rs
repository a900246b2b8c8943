use twobombs::coord::Coord;
use twobombs::errors::TBError;
use twobombs::search::hits;
use twobombs::twobombs::{TBBoard, TBCell, TBGame};

#[test]
fn a_new_board_is_empty() {
    let board = TBBoard::new_anysize(7);
    assert_eq!(board.get_size(), 7);
    assert_eq!(board.len(), 0);
    assert_eq!(board.fetch(&Coord { x: 0, y: 0 }), None);
    assert_eq!(TBBoard::new().get_size(), 3);
    assert_eq!(TBGame::new().get_board().get_size(), 3);
    assert_eq!(TBGame::new_anysize(9).board.get_size(), 9);
}

#[test]
fn set_writes_a_cell_of_the_board() {
    let mut board = TBBoard::new_anysize(3);
    assert_eq!(board.set(&Coord { x: 2, y: 1 }, TBCell::Target), Ok(TBCell::Target));
    assert_eq!(board.fetch(&Coord { x: 2, y: 1 }), Some(&TBCell::Target));
    assert_eq!(board.set(&Coord { x: 2, y: 1 }, TBCell::Bomb), Ok(TBCell::Bomb));
    assert_eq!(board.fetch(&Coord { x: 2, y: 1 }), Some(&TBCell::Bomb));
    assert_eq!(board.set(&Coord { x: 2, y: 1 }, TBCell::Target), Ok(TBCell::Target));
    assert_eq!(board.fetch(&Coord { x: 2, y: 1 }), Some(&TBCell::Target));
    assert_eq!(board.len(), 1);
}

#[test]
fn set_refuses_a_cell_off_the_board() {
    let mut board = TBBoard::new_anysize(3);
    board.set(&Coord { x: 1, y: 1 }, TBCell::Target).unwrap();
    for coord in [Coord { x: 3, y: 0 }, Coord { x: 0, y: 3 }, Coord { x: 3, y: 3 }, Coord { x: 9, y: 1 }] {
        assert_eq!(board.set(&coord, TBCell::Target), Err(TBError::InvalidCellPosition(coord)));
        assert_eq!(board.set(&coord, TBCell::Bomb), Err(TBError::InvalidCellPosition(coord)));
        assert_eq!(board.fetch(&coord), None);
    }
    assert_eq!(board.len(), 1);
    assert_eq!(board.fetch(&Coord { x: 1, y: 1 }), Some(&TBCell::Target));
}

#[test]
fn a_board_of_side_zero_has_no_cell() {
    let mut board = TBBoard::new_anysize(0);
    let origin = Coord { x: 0, y: 0 };
    assert_eq!(board.set(&origin, TBCell::Target), Err(TBError::InvalidCellPosition(origin)));
    assert_eq!(board.mark_target(&origin), Err(TBError::InvalidCellPosition(origin)));
    assert_eq!(board.find_bombs(), None);
    assert_eq!(board.len(), 0);
}

#[test]
fn clear_empties_a_cell() {
    let mut board = TBBoard::new_anysize(3);
    board.set(&Coord { x: 0, y: 0 }, TBCell::Bomb).unwrap();
    board.set(&Coord { x: 1, y: 0 }, TBCell::Target).unwrap();
    board.clear(&Coord { x: 0, y: 0 });
    assert_eq!(board.fetch(&Coord { x: 0, y: 0 }), None);
    assert_eq!(board.fetch(&Coord { x: 1, y: 0 }), Some(&TBCell::Target));
    board.clear(&Coord { x: 2, y: 2 });
    board.clear(&Coord { x: 50, y: 50 });
    assert_eq!(board.len(), 1);
}

#[test]
fn marking_once_puts_one_target() {
    let mut board = TBBoard::new_anysize(4);
    let coord = Coord { x: 3, y: 2 };
    assert_eq!(board.mark_target(&coord), Ok(()));
    assert_eq!(board.len(), 1);
    assert_eq!(board.fetch(&coord), Some(&TBCell::Target));
}

#[test]
fn marking_twice_leaves_the_board_empty() {
    let mut board = TBBoard::new_anysize(4);
    let coord = Coord { x: 3, y: 2 };
    board.mark_target(&coord).unwrap();
    board.mark_target(&coord).unwrap();
    assert_eq!(board.len(), 0);
    assert_eq!(board.fetch(&coord), None);
}

#[test]
fn marking_a_bomb_clears_it() {
    let mut board = TBBoard::new_anysize(4);
    let coord = Coord { x: 1, y: 1 };
    board.set(&coord, TBCell::Bomb).unwrap();
    assert_eq!(board.mark_target(&coord), Ok(()));
    assert_eq!(board.fetch(&coord), None);
    assert_eq!(board.mark_target(&coord), Ok(()));
    assert_eq!(board.fetch(&coord), Some(&TBCell::Target));
}

#[test]
fn marking_off_the_board_is_refused() {
    let mut board = TBBoard::new_anysize(4);
    board.mark_target(&Coord { x: 0, y: 0 }).unwrap();
    let coord = Coord { x: 4, y: 0 };
    assert_eq!(board.mark_target(&coord), Err(TBError::InvalidCellPosition(coord)));
    assert_eq!(board.len(), 1);
}

#[test]
fn init_empties_the_board() {
    let mut board = TBBoard::new_anysize(4);
    board.mark_target(&Coord { x: 0, y: 0 }).unwrap();
    board.set(&Coord { x: 1, y: 2 }, TBCell::Bomb).unwrap();
    board.init();
    assert_eq!(board.len(), 0);
    assert_eq!(board.get_size(), 4);
}

#[test]
fn targets_are_the_occupied_cells() {
    let mut board = TBBoard::new_anysize(4);
    board.mark_target(&Coord { x: 0, y: 3 }).unwrap();
    board.set(&Coord { x: 1, y: 2 }, TBCell::Bomb).unwrap();
    let targets = board.targets();
    assert_eq!(targets.len(), 2);
    assert!(targets.contains(&Coord { x: 0, y: 3 }));
    assert!(targets.contains(&Coord { x: 1, y: 2 }));
}

#[test]
fn two_corner_targets_are_solved() {
    let mut board = TBBoard::new_anysize(3);
    let targets = [Coord { x: 0, y: 0 }, Coord { x: 2, y: 2 }];
    for target in &targets {
        board.mark_target(target).unwrap();
    }
    let (first, second) = board.find_bombs().expect("two bombs cover both corners");
    for target in &targets {
        assert!(hits(&first, target) || hits(&second, target));
    }
    assert!(first.x < 3 && first.y < 3 && second.x < 3 && second.y < 3);
    assert_eq!(board.fetch(&first), Some(&TBCell::Bomb));
    assert_eq!(board.fetch(&second), Some(&TBCell::Bomb));
    for target in &targets {
        if *target != first && *target != second {
            assert_eq!(board.fetch(target), Some(&TBCell::Target));
        }
    }
}

#[test]
fn four_targets_on_a_board_of_five_are_solved() {
    let mut board = TBBoard::new_anysize(5);
    let targets = [Coord { x: 0, y: 0 }, Coord { x: 0, y: 2 }, Coord { x: 2, y: 0 }, Coord { x: 4, y: 4 }];
    for target in &targets {
        board.mark_target(target).unwrap();
    }
    let (first, second) = board.find_bombs().expect("two bombs cover these four");
    for target in &targets {
        assert!(hits(&first, target) || hits(&second, target));
    }
    assert_eq!(board.fetch(&first), Some(&TBCell::Bomb));
    assert_eq!(board.fetch(&second), Some(&TBCell::Bomb));
}

#[test]
fn a_full_board_of_five_stays_as_it_was() {
    let mut board = TBBoard::new_anysize(5);
    for x in 0..5 {
        for y in 0..5 {
            board.mark_target(&Coord { x, y }).unwrap();
        }
    }
    assert_eq!(board.find_bombs(), None);
    assert_eq!(board.len(), 25);
    for x in 0..5 {
        for y in 0..5 {
            assert_eq!(board.fetch(&Coord { x, y }), Some(&TBCell::Target));
        }
    }
}

#[test]
fn a_single_target_is_not_solved() {
    let mut board = TBBoard::new_anysize(3);
    board.mark_target(&Coord { x: 1, y: 1 }).unwrap();
    assert_eq!(board.find_bombs(), None);
    assert_eq!(board.fetch(&Coord { x: 1, y: 1 }), Some(&TBCell::Target));
}

#[test]
fn the_rules_of_a_board() {
    let board = TBBoard::new_anysize(3);
    assert_eq!(board.render_board_top(), "╭─┬─┬─╮");
    assert_eq!(board.render_board_row_sep(), "├─┼─┼─┤");
    assert_eq!(board.render_board_bottom(), "╰─┴─┴─╯");
    let none = TBBoard::new_anysize(0);
    assert_eq!(none.render_board_top(), "╮");
    assert_eq!(none.render_board_row_sep(), "┤");
    assert_eq!(none.render_board_bottom(), "╯");
    assert_eq!(none.render_board_row(0), "│");
}

#[test]
fn a_row_shows_its_cells() {
    let mut board = TBBoard::new_anysize(3);
    board.set(&Coord { x: 0, y: 1 }, TBCell::Target).unwrap();
    board.set(&Coord { x: 2, y: 1 }, TBCell::Bomb).unwrap();
    assert_eq!(board.render_board_row(0), "│ │ │ │");
    assert_eq!(board.render_board_row(1), "│O│ │X│");
    assert_eq!(board.render_board_row(7), "│ │ │ │");
}

#[test]
fn the_states_read_x_and_o() {
    assert_eq!(TBCell::Bomb.to_string(), "X");
    assert_eq!(TBCell::Target.to_string(), "O");
}

#[test]
fn the_board_as_text() {
    let mut board = TBBoard::new_anysize(2);
    board.set(&Coord { x: 0, y: 0 }, TBCell::Target).unwrap();
    board.set(&Coord { x: 1, y: 1 }, TBCell::Bomb).unwrap();
    let expected = "     0 1\n    ╭─┬─╮\n  0 │O│ │\n    ├─┼─┤\n  1 │ │X│\n    ╰─┴─╯\n";
    assert_eq!(board.to_string(), expected);
    assert_eq!(TBBoard::new_anysize(0).to_string(), "    \n    ╯\n");
}

#[test]
fn row_numbers_are_right_aligned() {
    let text = TBBoard::new_anysize(11).to_string();
    let lines: Vec<&str> = text.lines().collect();
    assert_eq!(lines.len(), 24);
    assert_eq!(lines[0], "     0 1 2 3 4 5 6 7 8 9 10");
    assert!(lines[2].starts_with("  0 │"));
    assert!(lines[22].starts_with(" 10 │"));
}

#[test]
fn the_messages_of_the_errors() {
    assert_eq!(TBError::InvalidGameInput.to_string(), "Invalid game input");
    assert_eq!(
        TBError::InvalidCellPosition(Coord { x: 23, y: 4 }).to_string(),
        "Invalid cell position: 23,4"
    );
}
