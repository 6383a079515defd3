use game_of_life::board::Board;
use game_of_life::cell::Cell;

/// A board drawn as text: one string for each row, `X` for a live cell and
/// any other character for a dead one.
fn board_from(rows: &[&str]) -> Board {
    let height = rows.len();
    let width = if height == 0 { 0 } else { rows[0].len() };
    let mut board = Board::dead(width, height);
    for (row, line) in rows.iter().enumerate() {
        assert_eq!(line.len(), width);
        for (col, mark) in line.chars().enumerate() {
            assert!(board.set_alive(col, row, mark == 'X'));
        }
    }
    board
}

/// The board drawn back, in the way `board_from` reads it.
fn drawing(board: &Board) -> Vec<String> {
    let mut rows = Vec::new();
    for row in 0..board.height() {
        let mut line = String::new();
        for col in 0..board.width() {
            line.push(if board.is_alive(col, row) { 'X' } else { '_' });
        }
        rows.push(line);
    }
    rows
}

#[test]
fn can_fit_tells_which_boards_can_be_made() {
    let most = isize::MAX as usize / 24;
    assert!(Board::can_fit(100, 100));
    assert!(Board::can_fit(0, 0));
    assert!(Board::can_fit(0, usize::MAX));
    assert!(Board::can_fit(usize::MAX, 0));
    assert!(Board::can_fit(most, 1));
    assert!(Board::can_fit(1, most));
    assert!(!Board::can_fit(most + 1, 1));
    assert!(!Board::can_fit(1, most + 1));
    assert!(!Board::can_fit(usize::MAX, 1));
    assert!(!Board::can_fit(usize::MAX, 2));
    assert!(!Board::can_fit(usize::MAX, usize::MAX));
    assert!(!Board::can_fit(1 << (usize::BITS / 2), 1 << (usize::BITS / 2)));
}

#[test]
fn board_without_columns_or_rows_has_no_cell() {
    let flat = Board::dead(6, 0);
    assert_eq!((flat.width(), flat.height()), (6, 0));
    assert_eq!(flat.get(0, 0), None);
    assert!(flat.cells().is_empty());
    let thin = Board::dead(0, 6);
    assert_eq!((thin.width(), thin.height()), (0, 6));
    assert_eq!(thin.get(0, 0), None);
    assert!(thin.cells().is_empty());
    assert_eq!(thin.live_neighbors(0, 0), 0);
}

#[test]
fn dead_board_has_the_asked_size_and_no_live_cell() {
    let board = Board::dead(7, 3);
    assert_eq!(board.width(), 7);
    assert_eq!(board.height(), 3);
    for row in 0..3 {
        for col in 0..7 {
            assert_eq!(board.get(col, row), Some(Cell { alive: false, col, row }));
            assert!(!board.is_alive(col, row));
        }
    }
}

#[test]
fn positions_off_the_board_hold_no_cell() {
    let board = board_from(&["XXX", "XXX"]);
    assert_eq!(board.get(3, 0), None);
    assert_eq!(board.get(0, 2), None);
    assert_eq!(board.get(2, 1), Some(Cell { alive: true, col: 2, row: 1 }));
    assert_eq!(board.get(usize::MAX, usize::MAX), None);
    assert!(!board.is_alive(3, 0));
    assert!(!board.is_alive(0, 2));
    assert!(!board.is_alive(usize::MAX, 0));
    assert!(board.is_alive(2, 1));
}

#[test]
fn set_alive_changes_one_cell_only() {
    let mut board = Board::dead(4, 3);
    assert!(board.set_alive(2, 1, true));
    assert_eq!(drawing(&board), vec!["____", "__X_", "____"]);
    assert!(board.set_alive(0, 2, true));
    assert_eq!(drawing(&board), vec!["____", "__X_", "X___"]);
    assert!(board.set_alive(2, 1, false));
    assert_eq!(drawing(&board), vec!["____", "____", "X___"]);
    assert_eq!(board.get(0, 2), Some(Cell { alive: true, col: 0, row: 2 }));
}

#[test]
fn set_alive_off_the_board_changes_nothing() {
    let mut board = board_from(&["X_", "_X"]);
    assert!(!board.set_alive(2, 0, true));
    assert!(!board.set_alive(0, 2, true));
    assert!(!board.set_alive(usize::MAX, usize::MAX, true));
    assert_eq!(drawing(&board), vec!["X_", "_X"]);
    assert_eq!(board.width(), 2);
    assert_eq!(board.height(), 2);
}

#[test]
fn width_and_height_are_not_mixed_up() {
    let mut board = Board::dead(5, 2);
    assert_eq!((board.width(), board.height()), (5, 2));
    assert!(board.set_alive(4, 1, true));
    assert!(!board.set_alive(1, 4, true));
    assert!(board.is_alive(4, 1));
}

#[test]
fn random_board_has_the_asked_size_and_placed_cells() {
    let board = Board::new(100, 100);
    assert_eq!(board.width(), 100);
    assert_eq!(board.height(), 100);
    let cells = board.cells();
    assert_eq!(cells.len(), 10_000);
    for row in 0..100 {
        for col in 0..100 {
            let cell = board.get(col, row).unwrap();
            assert_eq!((cell.col, cell.row), (col, row));
            assert_eq!(cells[row * 100 + col], cell);
        }
    }
    assert!(cells.iter().any(|cell| cell.alive));
    assert!(cells.iter().any(|cell| !cell.alive));
}

#[test]
fn random_board_may_be_oblong_or_empty() {
    let board = Board::new(3, 8);
    assert_eq!((board.width(), board.height()), (3, 8));
    assert_eq!(board.cells().len(), 24);
    let empty = Board::new(0, 0);
    assert_eq!((empty.width(), empty.height()), (0, 0));
    assert!(empty.cells().is_empty());
}

#[test]
fn cells_come_in_reading_order() {
    let board = board_from(&["X__", "_XX"]);
    assert_eq!(
        board.cells(),
        vec![
            Cell { alive: true, col: 0, row: 0 },
            Cell { alive: false, col: 1, row: 0 },
            Cell { alive: false, col: 2, row: 0 },
            Cell { alive: false, col: 0, row: 1 },
            Cell { alive: true, col: 1, row: 1 },
            Cell { alive: true, col: 2, row: 1 },
        ]
    );
}

#[test]
fn cells_holds_every_position_once() {
    let board = board_from(&["X_X_", "_X_X", "XX__"]);
    let cells = board.cells();
    assert_eq!(cells.len(), 12);
    for row in 0..3 {
        for col in 0..4 {
            let found: Vec<&Cell> =
                cells.iter().filter(|cell| cell.col == col && cell.row == row).collect();
            assert_eq!(found.len(), 1);
            assert_eq!(found[0].alive, board.is_alive(col, row));
        }
    }
}

#[test]
fn cells_does_not_change_the_board() {
    let board = board_from(&["X_", "_X"]);
    let first = board.cells();
    let second = board.cells();
    assert_eq!(first, second);
    assert_eq!(drawing(&board), vec!["X_", "_X"]);
}

#[test]
fn text_marks_each_cell_and_closes_each_row() {
    let board = board_from(&["X__", "_XX"]);
    assert_eq!(board.to_text(), " X _ _\n _ X X\n");
    assert_eq!(Board::dead(2, 1).to_text(), " _ _\n");
    assert_eq!(Board::dead(0, 2).to_text(), "\n\n");
    assert_eq!(Board::dead(2, 0).to_text(), "");
}

#[test]
fn clone_is_a_board_of_its_own() {
    let mut board = board_from(&["X_", "_X"]);
    let copy = board.clone();
    assert!(board.set_alive(1, 0, true));
    assert_eq!(drawing(&copy), vec!["X_", "_X"]);
    assert_eq!(drawing(&board), vec!["XX", "_X"]);
    assert_eq!((copy.width(), copy.height()), (2, 2));
}

#[test]
fn tally_counts_the_eight_positions_around() {
    let board = board_from(&["XXX", "XXX", "XXX"]);
    assert_eq!(board.live_neighbors(1, 1), 8);
    let ring = board_from(&["XXX", "X_X", "XXX"]);
    assert_eq!(ring.live_neighbors(1, 1), 8);
    let centre = board_from(&["___", "_X_", "___"]);
    assert_eq!(centre.live_neighbors(1, 1), 0);
    assert_eq!(centre.live_neighbors(0, 0), 1);
    assert_eq!(centre.live_neighbors(2, 1), 1);
}

#[test]
fn tally_tells_columns_from_rows() {
    let board = board_from(&["_X__", "____", "____"]);
    assert_eq!(board.live_neighbors(0, 0), 1);
    assert_eq!(board.live_neighbors(2, 1), 1);
    assert_eq!(board.live_neighbors(1, 2), 0);
    assert_eq!(board.live_neighbors(0, 1), 1);
    assert_eq!(board.live_neighbors(3, 0), 0);
}

#[test]
fn corner_and_edge_cells_count_only_cells_on_the_board() {
    let board = board_from(&["XXXX", "XXXX", "XXXX"]);
    assert_eq!(board.live_neighbors(0, 0), 3);
    assert_eq!(board.live_neighbors(3, 0), 3);
    assert_eq!(board.live_neighbors(0, 2), 3);
    assert_eq!(board.live_neighbors(3, 2), 3);
    assert_eq!(board.live_neighbors(1, 0), 5);
    assert_eq!(board.live_neighbors(0, 1), 5);
    assert_eq!(board.live_neighbors(3, 1), 5);
    assert_eq!(board.live_neighbors(2, 2), 5);
    assert_eq!(board.live_neighbors(1, 1), 8);
    let lone = board_from(&["X"]);
    assert_eq!(lone.live_neighbors(0, 0), 0);
}

#[test]
fn tally_does_not_wrap_around_the_edges() {
    let board = board_from(&["X__", "X__", "X__"]);
    assert_eq!(board.live_neighbors(2, 0), 0);
    assert_eq!(board.live_neighbors(2, 1), 0);
    assert_eq!(board.live_neighbors(2, 2), 0);
    let top = board_from(&["XXX", "___", "___"]);
    assert_eq!(top.live_neighbors(0, 2), 0);
    assert_eq!(top.live_neighbors(1, 2), 0);
    assert_eq!(top.live_neighbors(2, 2), 0);
}

#[test]
fn tally_of_a_position_off_the_board() {
    let board = board_from(&["XX", "XX"]);
    assert_eq!(board.live_neighbors(2, 0), 2);
    assert_eq!(board.live_neighbors(2, 2), 1);
    assert_eq!(board.live_neighbors(3, 0), 0);
    assert_eq!(board.live_neighbors(usize::MAX, usize::MAX), 0);
    assert_eq!(board.live_neighbors(usize::MAX, 0), 0);
    assert_eq!(board.live_neighbors(0, usize::MAX), 0);
}

#[test]
fn next_keeps_the_size() {
    for (width, height) in [(0, 0), (1, 1), (7, 3), (3, 7), (0, 4), (4, 0), (10, 10)] {
        let board = Board::new(width, height);
        let next = board.next();
        assert_eq!((next.width(), next.height()), (width, height));
    }
}

#[test]
fn next_keeps_each_cell_in_its_place() {
    let board = Board::new(6, 4);
    let next = board.next();
    for row in 0..4 {
        for col in 0..6 {
            let cell = next.get(col, row).unwrap();
            assert_eq!((cell.col, cell.row), (col, row));
        }
    }
}

#[test]
fn next_follows_the_rule_at_every_position() {
    let board = Board::new(12, 9);
    let next = board.next();
    for row in 0..9 {
        for col in 0..12 {
            let tally = board.live_neighbors(col, row);
            let expected = if board.is_alive(col, row) {
                tally == 2 || tally == 3
            } else {
                tally == 3
            };
            assert_eq!(next.is_alive(col, row), expected, "at ({}, {})", col, row);
        }
    }
}

#[test]
fn next_twice_from_one_board_gives_the_same() {
    let board = Board::new(20, 15);
    let before = board.cells();
    let first = board.next();
    let second = board.next();
    assert_eq!(first.cells(), second.cells());
    assert_eq!(board.cells(), before);
}

#[test]
fn next_leaves_the_board_it_reads_unchanged() {
    let board = board_from(&["_____", "_____", "_XXX_", "_____", "_____"]);
    let _ = board.next();
    assert_eq!(drawing(&board), vec!["_____", "_____", "_XXX_", "_____", "_____"]);
}

#[test]
fn blinker_turns_and_turns_back() {
    let board = board_from(&["_____", "_____", "_XXX_", "_____", "_____"]);
    let upright = board.next();
    assert_eq!(drawing(&upright), vec!["_____", "__X__", "__X__", "__X__", "_____"]);
    let flat = upright.next();
    assert_eq!(drawing(&flat), vec!["_____", "_____", "_XXX_", "_____", "_____"]);
}

#[test]
fn blinker_on_an_oblong_board() {
    let board = board_from(&["_______", "__XXX__", "_______"]);
    let upright = board.next();
    assert_eq!(drawing(&upright), vec!["___X___", "___X___", "___X___"]);
    let flat = upright.next();
    assert_eq!(drawing(&flat), vec!["_______", "__XXX__", "_______"]);
}

#[test]
fn block_stands_still() {
    let board = board_from(&["____", "_XX_", "_XX_", "____"]);
    assert_eq!(drawing(&board.next()), vec!["____", "_XX_", "_XX_", "____"]);
}

#[test]
fn glider_moves_one_step_down_and_right_in_four_generations() {
    let mut board = board_from(&["_X____", "__X___", "XXX___", "______", "______", "______"]);
    for _ in 0..4 {
        board = board.next();
    }
    assert_eq!(
        drawing(&board),
        vec!["______", "__X___", "___X__", "_XXX__", "______", "______"]
    );
}

#[test]
fn crowded_cells_die() {
    let board = board_from(&["XXX", "XXX", "XXX"]);
    assert_eq!(drawing(&board.next()), vec!["X_X", "___", "X_X"]);
}

#[test]
fn cells_at_the_edge_have_no_neighbors_beyond_it() {
    let board = board_from(&["XXX"]);
    let next = board.next();
    assert_eq!(drawing(&next), vec!["_X_"]);
    assert_eq!(drawing(&next.next()), vec!["___"]);
    let left = board_from(&["X___", "X___", "X___"]);
    assert_eq!(drawing(&left.next()), vec!["____", "XX__", "____"]);
}

#[test]
fn all_dead_board_stays_dead() {
    for (width, height) in [(0, 0), (1, 1), (5, 5), (9, 2), (2, 9), (0, 3), (3, 0)] {
        let mut board = Board::dead(width, height);
        for _ in 0..5 {
            board = board.next();
            assert_eq!((board.width(), board.height()), (width, height));
            assert!(board.cells().iter().all(|cell| !cell.alive));
        }
    }
}

#[test]
fn lone_cell_dies() {
    let board = board_from(&["_____", "_____", "__X__", "_____", "_____"]);
    assert_eq!(board.live_neighbors(2, 2), 0);
    let next = board.next();
    assert!(next.cells().iter().all(|cell| !cell.alive));
    let corner = board_from(&["X__", "___", "___"]);
    assert!(corner.next().cells().iter().all(|cell| !cell.alive));
    let only = board_from(&["X"]);
    assert!(!only.next().is_alive(0, 0));
}
