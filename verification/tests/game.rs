use tic_tac_toe::{Cell, Game};

/// Plays the given moves in order, each as the player whose turn it is.
fn play(moves: &[(usize, usize)]) -> Game {
    let mut g = Game::new();
    for &(r, c) in moves {
        g.make_move(r, c);
    }
    g
}

#[test]
fn fresh_game_starts_empty_with_player_a() {
    let g = Game::new();
    assert_eq!(g.turn(), Cell::PlayerA);
    for r in 0..3 {
        for c in 0..3 {
            assert_eq!(g.cell_at(r, c), Cell::Empty);
        }
    }
}

#[test]
fn fresh_board_has_no_winner() {
    let g = Game::new();
    assert_eq!(g.check_win(), None);
    assert!(!g.is_winner());
    assert!(!g.is_draw());
}

#[test]
fn turn_alternates_after_each_accepted_move() {
    let mut g = Game::new();
    assert_eq!(g.turn(), Cell::PlayerA);
    g.make_move(0, 0);
    assert_eq!(g.turn(), Cell::PlayerB);
    g.make_move(1, 1);
    assert_eq!(g.turn(), Cell::PlayerA);
    g.make_move(2, 2);
    assert_eq!(g.turn(), Cell::PlayerB);
    g.make_move(0, 1);
    assert_eq!(g.turn(), Cell::PlayerA);
}

#[test]
fn rejected_move_on_occupied_cell_changes_nothing() {
    let mut g = Game::new();
    g.make_move(1, 1);
    let board_before = g.board();
    let turn_before = g.turn();
    // Repeated clicks on the same occupied cell are silent no-ops.
    for _ in 0..3 {
        g.make_move(1, 1);
        assert_eq!(g.board(), board_before);
        assert_eq!(g.turn(), turn_before);
    }
    assert_eq!(g.cell_at(1, 1), Cell::PlayerA);
}

#[test]
fn out_of_range_move_changes_nothing() {
    let mut g = Game::new();
    g.make_move(0, 0);
    let board_before = g.board();
    let turn_before = g.turn();
    g.make_move(3, 0);
    g.make_move(0, 3);
    g.make_move(100, 100);
    assert_eq!(g.board(), board_before);
    assert_eq!(g.turn(), turn_before);
}

#[test]
fn row_win_is_detected_with_its_line() {
    // (0,0)=A, (1,1)=B, (0,1)=A, (1,0)=B, (0,2)=A completes row 0.
    let g = play(&[(0, 0), (1, 1), (0, 1), (1, 0), (0, 2)]);
    assert_eq!(g.cell_at(0, 0), Cell::PlayerA);
    assert_eq!(g.cell_at(0, 1), Cell::PlayerA);
    assert_eq!(g.cell_at(0, 2), Cell::PlayerA);
    assert_eq!(g.check_win(), Some((Cell::PlayerA, [(0, 0), (0, 1), (0, 2)])));
    assert!(g.is_winner());
    assert!(!g.is_draw());
}

#[test]
fn column_win_is_detected_with_its_line() {
    // (0,1)=A, (0,0)=B, (1,1)=A, (1,0)=B, (2,1)=A completes column 1.
    let g = play(&[(0, 1), (0, 0), (1, 1), (1, 0), (2, 1)]);
    assert_eq!(g.check_win(), Some((Cell::PlayerA, [(0, 1), (1, 1), (2, 1)])));
    assert!(g.is_winner());
}

#[test]
fn diagonal_win_is_detected_with_its_line() {
    // (0,0)=A, (0,1)=B, (1,1)=A, (0,2)=B, (2,2)=A completes the main
    // diagonal with no earlier completed line.
    let g = play(&[(0, 0), (0, 1), (1, 1), (0, 2), (2, 2)]);
    assert_eq!(g.check_win(), Some((Cell::PlayerA, [(0, 0), (1, 1), (2, 2)])));
    assert!(g.is_winner());
}

#[test]
fn anti_diagonal_win_for_player_b_is_detected() {
    // A: (0,0), (0,1), (2,1); B: (0,2), (1,1), (2,0) — the last move
    // completes the top-right-to-bottom-left diagonal for the second player.
    let g = play(&[(0, 0), (0, 2), (0, 1), (1, 1), (2, 1), (2, 0)]);
    assert_eq!(g.check_win(), Some((Cell::PlayerB, [(0, 2), (1, 1), (2, 0)])));
    assert!(g.is_winner());
}

#[test]
fn full_board_without_line_is_a_draw() {
    // Final layout, row by row: A B A / B B A / A A B — full, no line.
    let g = play(&[
        (0, 0),
        (0, 1),
        (0, 2),
        (1, 0),
        (1, 2),
        (1, 1),
        (2, 0),
        (2, 2),
        (2, 1),
    ]);
    assert_eq!(g.check_win(), None);
    assert!(!g.is_winner());
    assert!(g.is_draw());
}

#[test]
fn draw_and_winner_are_never_both_reported() {
    let win = play(&[(0, 0), (1, 1), (0, 1), (1, 0), (0, 2)]);
    assert!(win.is_winner() && !win.is_draw());
    let draw = play(&[
        (0, 0),
        (0, 1),
        (0, 2),
        (1, 0),
        (1, 2),
        (1, 1),
        (2, 0),
        (2, 2),
        (2, 1),
    ]);
    assert!(draw.is_draw() && !draw.is_winner());
}

#[test]
fn first_line_in_row_column_diagonal_order_wins() {
    // Play on after a win so that both row 0 and column 0 are complete for
    // PlayerA; the fixed evaluation order must report row 0.
    let g = play(&[
        (0, 0),
        (1, 1),
        (0, 1),
        (1, 2),
        (0, 2), // row 0 complete
        (2, 1),
        (1, 0),
        (2, 2),
        (2, 0), // column 0 complete as well
    ]);
    assert_eq!(g.check_win(), Some((Cell::PlayerA, [(0, 0), (0, 1), (0, 2)])));
}

#[test]
fn winning_line_cells_are_distinct_and_hold_the_winner() {
    let g = play(&[(0, 0), (0, 1), (1, 1), (0, 2), (2, 2)]);
    let (sym, line) = g.check_win().unwrap();
    assert_ne!(sym, Cell::Empty);
    for i in 0..3 {
        let (r, c) = line[i];
        assert!(r < 3 && c < 3);
        assert_eq!(g.cell_at(r, c), sym);
        for j in 0..3 {
            if i != j {
                assert_ne!(line[i], line[j]);
            }
        }
    }
}

#[test]
fn board_snapshot_is_row_major() {
    let g = play(&[(0, 1), (2, 0)]);
    let b = g.board();
    assert_eq!(b.len(), 9);
    assert_eq!(b[0 * 3 + 1], Cell::PlayerA);
    assert_eq!(b[2 * 3 + 0], Cell::PlayerB);
    assert_eq!(b[0], Cell::Empty);
    for r in 0..3 {
        for c in 0..3 {
            assert_eq!(b[r * 3 + c], g.cell_at(r, c));
        }
    }
}
