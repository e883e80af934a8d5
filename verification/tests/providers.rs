use shake_chess::ai::{
    complete_network_request, request_network_move, sim_ai_move, single_ai_move, stockfish_move,
    NetworkGetMove, NetworkMove,
};
use shake_chess::game::GameBoard;
use shake_chess::rules::Status;
use shake_chess::{GameRule, Last50, Side, SideToMove};

const INITIAL_FEN: &str = "rnbqkbnr/pppppppp/8/8/8/8/PPPPPPPP/RNBQKBNR w KQkq - 0 1";

#[test]
fn random_provider_commits_on_its_turn() {
    let mut board = GameBoard::default();
    let mut side = SideToMove(Side::White);
    let mut guard = Last50::default();
    let rule = GameRule::new(Side::White);
    let turn_end = single_ai_move(&mut side, &rule, &mut board, &mut guard);
    assert!(turn_end);
    assert_eq!(side.0, Side::Black);
    assert_eq!(board.side_to_move(), Side::Black);
    assert_eq!(board.status(), Status::Ongoing);
}

#[test]
fn random_provider_waits_off_its_turn() {
    let mut board = GameBoard::default();
    let mut side = SideToMove(Side::White);
    let mut guard = Last50::default();
    let rule = GameRule::default();  // the machine plays black
    let turn_end = single_ai_move(&mut side, &rule, &mut board, &mut guard);
    assert!(!turn_end);
    assert_eq!(side.0, Side::White);
    assert_eq!(board.fen(), INITIAL_FEN);
}

#[test]
fn simulation_commits_for_whichever_side_moves() {
    let mut board = GameBoard::default();
    let mut side = SideToMove(Side::White);
    let mut guard = Last50::default();
    assert!(sim_ai_move(&mut side, &mut board, &mut guard));
    assert_eq!(side.0, Side::Black);
    assert!(sim_ai_move(&mut side, &mut board, &mut guard));
    assert_eq!(side.0, Side::White);
}

#[test]
fn idle_bridge_launches_exactly_one_request() {
    let mut board = GameBoard::default();
    let mut side = SideToMove(Side::White);
    let mut guard = Last50::default();
    let rule = GameRule::new(Side::White);
    let mut net = NetworkGetMove::Idle;

    let (launch, turn_end) = stockfish_move(&mut side, &rule, &mut board, &mut guard, &mut net);
    assert_eq!(launch.as_deref(), Some(INITIAL_FEN));
    assert!(!turn_end);
    assert_eq!(net, NetworkGetMove::Pending);

    // repeated polls while pending launch nothing and change nothing
    for _ in 0..3 {
        let (launch, turn_end) = stockfish_move(&mut side, &rule, &mut board, &mut guard, &mut net);
        assert_eq!(launch, None);
        assert!(!turn_end);
        assert_eq!(net, NetworkGetMove::Pending);
        assert_eq!(side.0, Side::White);
        assert_eq!(board.fen(), INITIAL_FEN);
    }
}

#[test]
fn bridge_does_nothing_off_its_turn() {
    let mut board = GameBoard::default();
    let mut side = SideToMove(Side::White);
    let mut guard = Last50::default();
    let rule = GameRule::default();  // the machine plays black, white to move
    let mut net = NetworkGetMove::Idle;
    let (launch, turn_end) = stockfish_move(&mut side, &rule, &mut board, &mut guard, &mut net);
    assert_eq!(launch, None);
    assert!(!turn_end);
    assert_eq!(net, NetworkGetMove::Idle);
}

#[test]
fn completed_request_is_consumed_exactly_once() {
    let mut board = GameBoard::default();
    let mut side = SideToMove(Side::White);
    let mut guard = Last50::default();
    let rule = GameRule::new(Side::White);
    let mut net = NetworkGetMove::Idle;

    stockfish_move(&mut side, &rule, &mut board, &mut guard, &mut net);
    complete_network_request(
        &mut net,
        b"{\"success\":true,\"bestmove\":\"bestmove e2e4 ponder e7e5\"}",
    );
    assert_eq!(net, NetworkGetMove::Ready(NetworkMove { from: 12, to: 28 }));

    let (launch, turn_end) = stockfish_move(&mut side, &rule, &mut board, &mut guard, &mut net);
    assert_eq!(launch, None);
    assert!(turn_end);
    assert_eq!(net, NetworkGetMove::Idle);
    assert_eq!(side.0, Side::Black);
    assert_eq!(board.side_to_move(), Side::Black);

    // black's turn now: the white machine neither re-delivers nor launches
    let (launch, turn_end) = stockfish_move(&mut side, &rule, &mut board, &mut guard, &mut net);
    assert_eq!(launch, None);
    assert!(!turn_end);
    assert_eq!(net, NetworkGetMove::Idle);
}

#[test]
fn illegal_remote_move_is_dropped_and_bridge_retries() {
    let mut board = GameBoard::default();
    let mut side = SideToMove(Side::White);
    let mut guard = Last50::default();
    let rule = GameRule::new(Side::White);
    let mut net = NetworkGetMove::Idle;

    stockfish_move(&mut side, &rule, &mut board, &mut guard, &mut net);
    // e5 holds no white piece: the move cannot be legal
    complete_network_request(&mut net, b"{\"bestmove\":\"bestmove e5e6 ponder\"}");
    assert!(matches!(net, NetworkGetMove::Ready(_)));

    let (launch, turn_end) = stockfish_move(&mut side, &rule, &mut board, &mut guard, &mut net);
    assert_eq!(launch, None);
    assert!(!turn_end);
    assert_eq!(net, NetworkGetMove::Idle);
    assert_eq!(side.0, Side::White);
    assert_eq!(board.fen(), INITIAL_FEN);

    // the next tick launches a fresh request
    let (launch, _) = stockfish_move(&mut side, &rule, &mut board, &mut guard, &mut net);
    assert_eq!(launch.as_deref(), Some(INITIAL_FEN));
    assert_eq!(net, NetworkGetMove::Pending);
}

#[test]
fn request_network_move_gates_to_pending() {
    let mut net = NetworkGetMove::Idle;
    request_network_move(&mut net);
    assert_eq!(net, NetworkGetMove::Pending);
}
