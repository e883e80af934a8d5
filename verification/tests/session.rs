use shake_chess::game::{
    act, check_end, make_move, reset_session, setup_game, try_select, GameBoard, PointedSquare,
    SelectedPiece,
};
use shake_chess::ai::NetworkGetMove;
use shake_chess::rules::Status;
use shake_chess::{GameResult, GameState, Last50, Side, SideToMove};

const INITIAL_FEN: &str = "rnbqkbnr/pppppppp/8/8/8/8/PPPPPPPP/RNBQKBNR w KQkq - 0 1";

fn sq(file: u8, rank: u8) -> u8 {
    (rank - b'1') * 8 + (file - b'a')
}

fn commit(board: &mut GameBoard, from: u8, to: u8) {
    let mut selected = SelectedPiece::NoneSelected;
    let mut side = SideToMove(board.side_to_move());
    let mut guard = Last50::default();
    assert!(make_move(from, to, None, board, &mut selected, &mut side, &mut guard));
}

/// 1. f3 e5 2. g4 Qh4 mate.
fn fools_mate(board: &mut GameBoard) {
    commit(board, sq(b'f', b'2'), sq(b'f', b'3'));
    commit(board, sq(b'e', b'7'), sq(b'e', b'5'));
    commit(board, sq(b'g', b'2'), sq(b'g', b'4'));
    commit(board, sq(b'd', b'8'), sq(b'h', b'4'));
}

#[test]
fn initial_board_state() {
    let board = GameBoard::default();
    assert_eq!(board.side_to_move(), Side::White);
    assert_eq!(board.fen(), INITIAL_FEN);
    assert_eq!(board.status(), Status::Ongoing);
    // d2 holds a white pawn, d4 nothing, a1 a white rook
    assert_eq!(board.piece_at(sq(b'd', b'2')), Some(0));
    assert_eq!(board.color_at(sq(b'd', b'2')), Some(Side::White));
    assert_eq!(board.piece_at(sq(b'd', b'4')), None);
    assert_eq!(board.piece_at(sq(b'a', b'1')), Some(3));
    assert_eq!(board.color_at(sq(b'e', b'7')), Some(Side::Black));
}

#[test]
fn legal_move_commits_and_flips_side() {
    let mut board = GameBoard::default();
    let mut selected = SelectedPiece::NoneSelected;
    let mut side = SideToMove(Side::White);
    let mut guard = Last50::default();
    let committed = make_move(
        sq(b'e', b'2'),
        sq(b'e', b'4'),
        None,
        &mut board,
        &mut selected,
        &mut side,
        &mut guard,
    );
    assert!(committed);
    assert_eq!(side.0, Side::Black);
    assert_eq!(board.side_to_move(), Side::Black);
    assert_eq!(selected, SelectedPiece::NoneSelected);
}

#[test]
fn illegal_move_is_rejected_and_clears_selection() {
    let mut board = GameBoard::default();
    let mut selected = SelectedPiece::PieceSelected { piece: 0, square: sq(b'e', b'2') };
    let mut side = SideToMove(Side::White);
    let mut guard = Last50::default();
    let fen_before = board.fen();
    let committed = make_move(
        sq(b'e', b'2'),
        sq(b'e', b'5'),
        None,
        &mut board,
        &mut selected,
        &mut side,
        &mut guard,
    );
    assert!(!committed);
    assert_eq!(selected, SelectedPiece::NoneSelected);
    assert_eq!(side.0, Side::White);
    assert_eq!(board.fen(), fen_before);
}

#[test]
fn try_select_takes_own_piece_only() {
    let board = GameBoard::default();
    let mut selected = SelectedPiece::NoneSelected;
    assert!(try_select(Side::White, sq(b'd', b'2'), &board, &mut selected));
    assert_eq!(selected, SelectedPiece::PieceSelected { piece: 0, square: sq(b'd', b'2') });
    let mut other = SelectedPiece::NoneSelected;
    assert!(!try_select(Side::Black, sq(b'e', b'7'), &board, &mut other));
    assert_eq!(other, SelectedPiece::NoneSelected);
}

#[test]
fn two_clicks_commit_a_move() {
    // click own piece at d2, then the empty square d4: Commit(d2, d4, None)
    let mut board = GameBoard::default();
    let mut pointed = PointedSquare::default();
    let mut selected = SelectedPiece::NoneSelected;
    let mut side = SideToMove(Side::White);
    let mut guard = Last50::default();

    pointed.set(sq(b'd', b'2'));
    let first = act(&pointed, true, &mut side, &mut board, &mut selected, &mut guard);
    // a selection click completes no turn
    assert!(!first);
    assert_eq!(selected, SelectedPiece::PieceSelected { piece: 0, square: sq(b'd', b'2') });
    assert_eq!(side.0, Side::White);

    pointed.set(sq(b'd', b'4'));
    let second = act(&pointed, true, &mut side, &mut board, &mut selected, &mut guard);
    assert!(second);
    assert_eq!(selected, SelectedPiece::NoneSelected);
    assert_eq!(side.0, Side::Black);
    assert_eq!(board.side_to_move(), Side::Black);
}

#[test]
fn illegal_second_click_returns_to_none_selected_without_commit() {
    let mut board = GameBoard::default();
    let mut pointed = PointedSquare::default();
    let mut selected = SelectedPiece::NoneSelected;
    let mut side = SideToMove(Side::White);
    let mut guard = Last50::default();
    let fen_before = board.fen();

    pointed.set(sq(b'd', b'2'));
    act(&pointed, true, &mut side, &mut board, &mut selected, &mut guard);
    pointed.set(sq(b'd', b'5'));
    let turn_end = act(&pointed, true, &mut side, &mut board, &mut selected, &mut guard);
    // a rejected commit completes no turn
    assert!(!turn_end);
    assert_eq!(selected, SelectedPiece::NoneSelected);
    assert_eq!(side.0, Side::White);
    assert_eq!(board.fen(), fen_before);
}

#[test]
fn click_on_empty_square_with_nothing_selected_is_a_no_op() {
    let mut board = GameBoard::default();
    let mut pointed = PointedSquare::default();
    let mut selected = SelectedPiece::NoneSelected;
    let mut side = SideToMove(Side::White);
    let mut guard = Last50::default();
    pointed.set(sq(b'd', b'4'));
    let turn_end = act(&pointed, true, &mut side, &mut board, &mut selected, &mut guard);
    assert!(!turn_end);
    assert_eq!(selected, SelectedPiece::NoneSelected);
}

#[test]
fn click_on_enemy_piece_with_nothing_selected_selects_nothing() {
    let mut board = GameBoard::default();
    let mut pointed = PointedSquare::default();
    let mut selected = SelectedPiece::NoneSelected;
    let mut side = SideToMove(Side::White);
    let mut guard = Last50::default();
    pointed.set(sq(b'e', b'7'));
    let turn_end = act(&pointed, true, &mut side, &mut board, &mut selected, &mut guard);
    // an enemy-piece click selects nothing and completes no turn
    assert!(!turn_end);
    assert_eq!(selected, SelectedPiece::NoneSelected);
}

#[test]
fn second_click_on_another_own_piece_reselects() {
    let mut board = GameBoard::default();
    let mut pointed = PointedSquare::default();
    let mut selected = SelectedPiece::NoneSelected;
    let mut side = SideToMove(Side::White);
    let mut guard = Last50::default();
    pointed.set(sq(b'd', b'2'));
    act(&pointed, true, &mut side, &mut board, &mut selected, &mut guard);
    pointed.set(sq(b'e', b'2'));
    act(&pointed, true, &mut side, &mut board, &mut selected, &mut guard);
    assert_eq!(selected, SelectedPiece::PieceSelected { piece: 0, square: sq(b'e', b'2') });
    assert_eq!(side.0, Side::White);
}

#[test]
fn no_click_does_nothing() {
    let mut board = GameBoard::default();
    let mut pointed = PointedSquare::default();
    let mut selected = SelectedPiece::NoneSelected;
    let mut side = SideToMove(Side::White);
    let mut guard = Last50::default();
    pointed.set(sq(b'd', b'2'));
    let turn_end = act(&pointed, false, &mut side, &mut board, &mut selected, &mut guard);
    assert!(!turn_end);
    assert_eq!(selected, SelectedPiece::NoneSelected);
}

#[test]
fn ongoing_game_stays_playing() {
    let board = GameBoard::default();
    let guard = Last50::default();
    let mut state = GameState::Playing;
    let mut result = GameResult::Ongoing;
    check_end(true, &board, &guard, &mut state, &mut result);
    assert_eq!(state, GameState::Playing);
    assert_eq!(result, GameResult::Ongoing);
}

#[test]
fn without_a_completed_turn_nothing_is_evaluated() {
    let mut board = GameBoard::default();
    fools_mate(&mut board);
    let guard = Last50::default();
    let mut state = GameState::Playing;
    let mut result = GameResult::Ongoing;
    check_end(false, &board, &guard, &mut state, &mut result);
    assert_eq!(state, GameState::Playing);
    assert_eq!(result, GameResult::Ongoing);
}

#[test]
fn checkmate_ends_the_game_for_the_mover() {
    let mut board = GameBoard::default();
    fools_mate(&mut board);
    assert_eq!(board.status(), Status::Checkmate);
    let guard = Last50::default();
    let mut state = GameState::Playing;
    let mut result = GameResult::Ongoing;
    check_end(true, &board, &guard, &mut state, &mut result);
    assert_eq!(state, GameState::End);
    assert_eq!(result, GameResult::Checkmate { winner: Side::Black });
}

#[test]
fn exhausted_window_draws_the_game() {
    let board = GameBoard::default();
    let mut guard = Last50::default();
    for _ in 0..50 {
        guard.push(false);
    }
    let mut state = GameState::Playing;
    let mut result = GameResult::Ongoing;
    check_end(true, &board, &guard, &mut state, &mut result);
    assert_eq!(state, GameState::End);
    assert_eq!(result, GameResult::Stalemate);
}

#[test]
fn setup_game_restores_the_initial_position() {
    let mut board = GameBoard::default();
    fools_mate(&mut board);
    setup_game(&mut board);
    assert_eq!(board.fen(), INITIAL_FEN);
}

#[test]
fn reset_session_clears_everything() {
    let mut board = GameBoard::default();
    fools_mate(&mut board);
    let mut guard = Last50::default();
    for _ in 0..50 {
        guard.push(false);
    }
    let mut selected = SelectedPiece::PieceSelected { piece: 0, square: 11 };
    let mut net = NetworkGetMove::Pending;
    reset_session(&mut board, &mut guard, &mut selected, &mut net);
    assert_eq!(board.fen(), INITIAL_FEN);
    assert!(!guard.should_draw());
    assert_eq!(selected, SelectedPiece::NoneSelected);
    assert_eq!(net, NetworkGetMove::Idle);
}

#[test]
fn default_resources() {
    assert_eq!(GameState::default(), GameState::MainMenu);
    assert_eq!(shake_chess::GameMode::default(), shake_chess::GameMode::Hotseat);
    assert_eq!(GameResult::default(), GameResult::Ongoing);
    assert_eq!(shake_chess::GameRule::default().ai_color(), Side::Black);
    assert!(PointedSquare::default().get().is_none());
}
