use tic_tac_toe::GameState;
use tic_tac_toe::Outcome;
use tic_tac_toe::Player;

fn board_of(cells: [Option<Player>; 9], current: Player) -> GameState {
    GameState { board: cells, current_player: current }
}

fn marks() -> (Option<Player>, Option<Player>, Option<Player>) {
    (Some(Player::X), Some(Player::O), None)
}

#[test]
fn make_move_on_empty_cell_places_mark_and_toggles_turn() {
    let mut s = GameState::default();
    assert_eq!(s.current_player, Player::X);
    assert!(s.make_move(1, 2));
    assert_eq!(s.cell(1, 2), Some(Player::X));
    assert_eq!(s.current_player, Player::O);
    assert!(s.make_move(0, 0));
    assert_eq!(s.cell(0, 0), Some(Player::O));
    assert_eq!(s.current_player, Player::X);
}

#[test]
fn make_move_on_occupied_cell_is_rejected_and_changes_nothing() {
    let mut s = GameState::default();
    assert!(s.make_move(1, 1));
    let board_before = s.board;
    let player_before = s.current_player;
    assert!(!s.make_move(1, 1));
    assert_eq!(s.board, board_before);
    assert_eq!(s.current_player, player_before);
}

#[test]
fn fresh_board_is_in_progress_with_no_occupied_cell() {
    let s = GameState::default();
    assert_eq!(s.outcome(), Outcome::InProgress);
    for row in 0..3 {
        for col in 0..3 {
            assert_eq!(s.cell(row, col), None);
        }
    }
}

#[test]
fn clean_board_restores_the_empty_position_with_x_to_move() {
    let mut s = GameState::default();
    assert!(s.make_move(0, 0));
    assert!(s.make_move(1, 1));
    assert!(s.make_move(2, 2));
    s.clean_board();
    assert_eq!(s.current_player, Player::X);
    assert_eq!(s.outcome(), Outcome::InProgress);
    for row in 0..3 {
        for col in 0..3 {
            assert_eq!(s.cell(row, col), None);
        }
    }
}

#[test]
fn outcome_is_stable_across_repeated_calls() {
    let mut s = GameState::default();
    assert!(s.make_move(0, 0));
    assert!(s.make_move(1, 0));
    let first = s.outcome();
    assert_eq!(s.outcome(), first);
    assert_eq!(s.outcome(), first);
    assert_eq!(s.outcome(), Outcome::InProgress);
}

#[test]
fn check_win_reports_each_row_column_and_diagonal() {
    let (x, o, e) = marks();
    let lines: [[usize; 3]; 8] = [
        [0, 1, 2],
        [3, 4, 5],
        [6, 7, 8],
        [0, 3, 6],
        [1, 4, 7],
        [2, 5, 8],
        [0, 4, 8],
        [2, 4, 6],
    ];
    for line in lines {
        let mut cells = [e; 9];
        for i in line {
            cells[i] = x;
        }
        let s = board_of(cells, Player::O);
        assert_eq!(s.check_win(), Some(Player::X));
        assert_eq!(s.outcome(), Outcome::Win(Player::X));
        let mut cells = [e; 9];
        for i in line {
            cells[i] = o;
        }
        let s = board_of(cells, Player::X);
        assert_eq!(s.check_win(), Some(Player::O));
        assert_eq!(s.outcome(), Outcome::Win(Player::O));
    }
}

#[test]
fn check_win_reports_nothing_without_a_completed_line() {
    let (x, o, e) = marks();
    let s = board_of([x, o, e, e, x, e, o, e, e], Player::X);
    assert_eq!(s.check_win(), None);
    assert_eq!(s.outcome(), Outcome::InProgress);
}

#[test]
fn full_board_without_a_line_is_a_draw_and_offers_no_move() {
    let (x, o, e) = marks();
    let s = board_of([x, o, x, x, o, o, o, x, x], Player::O);
    assert!(s.is_draw());
    assert_eq!(s.check_win(), None);
    assert_eq!(s.outcome(), Outcome::Draw);
    assert_eq!(s.best_move(), None);
}

#[test]
fn is_draw_needs_every_cell_occupied() {
    let (x, o, e) = marks();
    let mut s = board_of([x, o, x, x, o, o, o, x, e], Player::X);
    assert!(!s.is_draw());
    assert!(s.make_move(2, 2));
    assert!(s.is_draw());
}

#[test]
fn minimax_scores_terminal_positions_by_depth() {
    let (x, o, e) = marks();
    let x_won = board_of([x, x, x, o, o, e, e, e, e], Player::O);
    assert_eq!(x_won.minimax(0, true), -10);
    assert_eq!(x_won.minimax(3, true), -7);
    assert_eq!(x_won.minimax(3, false), -7);
    let o_won = board_of([o, o, o, x, x, e, x, e, e], Player::X);
    assert_eq!(o_won.minimax(0, false), 10);
    assert_eq!(o_won.minimax(2, true), 8);
    let drawn = board_of([x, o, x, x, o, o, o, x, x], Player::O);
    assert_eq!(drawn.minimax(5, true), 0);
}

#[test]
fn best_move_blocks_an_imminent_row_win() {
    // x at (0,0) and (0,1), o at (1,0): o must answer (0,2) or lose.
    let mut s = GameState::default();
    assert!(s.make_move(0, 0));
    assert!(s.make_move(1, 0));
    assert!(s.make_move(0, 1));
    assert_eq!(s.best_move(), Some((0, 2)));
    // The engine also scores the block exactly: x still forces a win later.
    let mut blocked = s.clone();
    assert!(blocked.make_move(0, 2));
    assert_eq!(blocked.minimax(0, false), -7);
}

#[test]
fn best_move_takes_the_earliest_of_equally_winning_cells() {
    let (x, o, e) = marks();
    // o on (0,0) and (1,1), x on (0,1) and (2,2). Both (1,0) and (2,0) lead
    // to a forced win for o at the same depth; the earlier cell in row-major
    // order is (1,0).
    let s = board_of([o, x, e, e, o, e, e, e, x], Player::X);
    assert_eq!(s.best_move(), Some((1, 0)));
}

#[test]
fn best_move_completes_its_own_line_for_an_immediate_win() {
    let (x, o, e) = marks();
    // O can win at once at (0,2); blocking X at (1,2) scores worse.
    let s = board_of([o, o, e, x, x, e, e, e, e], Player::O);
    assert_eq!(s.best_move(), Some((0, 2)));
    let mut taken = s.clone();
    assert!(taken.make_move(0, 2));
    assert_eq!(taken.check_win(), Some(Player::O));
}

#[test]
fn best_move_never_answers_with_an_occupied_cell() {
    let (x, o, e) = marks();
    let boards = [
        [x, o, e, e, x, e, o, e, e],
        [e, e, e, e, x, e, e, e, e],
        [x, o, x, x, o, o, o, x, e],
    ];
    for cells in boards {
        let s = board_of(cells, Player::X);
        let (row, col) = s.best_move().expect("an empty cell is available");
        assert!(row < 3 && col < 3);
        assert_eq!(s.cell(row, col), None);
    }
}

fn automated_player_never_loses_from(mut after_human: GameState) {
    // The human just moved; mirror the single-player loop of the session.
    if after_human.check_win() == Some(Player::X) {
        panic!("the human forced a win against the engine");
    }
    if after_human.is_draw() {
        return;
    }
    let (row, col) = after_human.best_move().expect("open position");
    assert!(after_human.make_move(row, col));
    match after_human.check_win() {
        Some(p) => assert_eq!(p, Player::O),
        None => {
            if after_human.is_draw() {
                return;
            }
            for cell in 0..9usize {
                let mut next = after_human.clone();
                if next.make_move(cell / 3, cell % 3) {
                    automated_player_never_loses_from(next);
                }
            }
        }
    }
}

#[test]
fn automated_player_never_loses_from_the_empty_board() {
    for cell in 0..9usize {
        let mut s = GameState::default();
        assert!(s.make_move(cell / 3, cell % 3));
        automated_player_never_loses_from(s);
    }
}
