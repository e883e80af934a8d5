//! The per-tick game protocol: the two-click human selection state machine,
//! the move-commit path, and end-of-game detection.

use vstd::prelude::*;
use crate::rules;
use crate::{guard_step, GameResult, GameState, Last50, Side, SideToMove};

verus! {

/// The canonical position, owned by the session and replaced (never mutated
/// in place) on every committed move.
pub struct GameBoard(pub chess::Board);

/// The side to move implied by a position.
pub open spec fn side_of(b: chess::Board) -> Side {
    Side::spec_of_white(rules::white_to_move(b))
}

/// Whether a square of a position holds a piece.
pub open spec fn square_occupied(b: chess::Board, sq: int) -> bool {
    rules::occupant(b).dom().contains(sq)
}

/// The side owning the piece on an occupied square.
pub open spec fn occupant_side(b: chess::Board, sq: int) -> Side {
    Side::spec_of_white(rules::occupant(b)[sq].1)
}

/// Whether the candidate `(source, destination)` with no promotion is legal.
pub open spec fn candidate_legal(b: chess::Board, src: int, dst: int) -> bool {
    rules::legal_moves(b).contains((src, dst, 0int))
}

/// Whether committing `(source, destination)` counts as activity for the
/// inactivity window: a pawn moved or a piece was captured.
pub open spec fn was_activity(b: chess::Board, src: int, dst: int) -> bool {
    rules::occupant(b)[src].0 == rules::PAWN as int || square_occupied(b, dst)
}

impl GameBoard {
    /// The underlying engine position.
    pub open spec fn inner(self) -> chess::Board {
        self.0
    }

    /// Which side is to move.
    pub fn side_to_move(&self) -> (r: Side)
        ensures
            r == side_of(self.inner()),
    {
        Side::of_white(rules::side_white(&self.0))
    }

    /// The FEN text of the position.
    pub fn fen(&self) -> (r: String)
        ensures
            r@ == rules::fen(self.inner()),
    {
        rules::fen_string(&self.0)
    }

    /// The piece kind on a square, `None` when empty.
    pub fn piece_at(&self, sq: u8) -> (r: Option<u8>)
        requires
            sq < 64,
        ensures
            r is Some <==> square_occupied(self.inner(), sq as int),
            r matches Some(k) ==> k as int == rules::occupant(self.inner())[sq as int].0,
    {
        rules::piece_kind_on(&self.0, sq)
    }

    /// The side owning the piece on a square, `None` when empty.
    pub fn color_at(&self, sq: u8) -> (r: Option<Side>)
        requires
            sq < 64,
        ensures
            r is Some <==> square_occupied(self.inner(), sq as int),
            r matches Some(s) ==> s == occupant_side(self.inner(), sq as int),
    {
        match rules::color_white_on(&self.0, sq) {
            Some(w) => Some(Side::of_white(w)),
            None => None,
        }
    }

    /// The terminal state the rules engine reports for the position.
    pub fn status(&self) -> (r: rules::Status)
        ensures
            (r == rules::Status::Ongoing) == !rules::legal_moves(self.inner()).is_empty(),
            (r == rules::Status::Checkmate) == (rules::legal_moves(self.inner()).is_empty()
                && rules::in_check(self.inner())),
            (r == rules::Status::Stalemate) == (rules::legal_moves(self.inner()).is_empty()
                && !rules::in_check(self.inner())),
    {
        rules::position_status(&self.0)
    }

    /// Whether the candidate `(source, destination, promotion)` is legal.
    pub fn legal(&self, src: u8, dst: u8, promo: u8) -> (r: bool)
        requires
            src < 64,
            dst < 64,
            promo <= 4,
        ensures
            r == rules::legal_moves(self.inner()).contains((src as int, dst as int, promo as int)),
    {
        rules::move_legal(&self.0, src, dst, promo)
    }
}

impl Default for GameBoard {
    /// The standard initial position.
    fn default() -> (r: GameBoard)
        ensures
            rules::white_to_move(r.inner()),
            rules::fen(r.inner()) == rules::initial_fen(),
    {
        GameBoard(rules::initial_board())
    }
}

/// Start (or restart) a game on the standard initial position.
pub fn setup_game(board: &mut GameBoard)
    ensures
        rules::white_to_move(final(board).inner()),
        rules::fen(final(board).inner()) == rules::initial_fen(),
{
    board.0 = rules::initial_board();
}

/// The board square under the pointer, if any.
#[derive(Clone, Copy, Debug)]
pub struct PointedSquare(Option<u8>);

impl PointedSquare {
    /// The pointed square index, if any.
    pub closed spec fn pointed(self) -> Option<u8> {
        self.0
    }

    /// Structural invariant: any pointed square index is on the board.
    pub open spec fn well_formed(self) -> bool {
        self.pointed() matches Some(sq) ==> sq < 64
    }

    /// Point at a square.
    pub fn set(&mut self, square: u8)
        requires
            square < 64,
        ensures
            final(self).pointed() == Some(square),
            final(self).well_formed(),
    {
        self.0 = Some(square);
    }

    /// Point at nothing.
    pub fn clear(&mut self)
        ensures
            final(self).pointed() is None,
            final(self).well_formed(),
    {
        self.0 = None;
    }

    /// The pointed square index, if any.
    pub fn get(&self) -> (r: Option<u8>)
        ensures
            r == self.pointed(),
    {
        self.0
    }
}

impl Default for PointedSquare {
    /// Pointing at nothing.
    fn default() -> (r: PointedSquare)
        ensures
            r.pointed() is None,
            r.well_formed(),
    {
        PointedSquare(None)
    }
}

/// The human selection state: either nothing is selected, or one own piece
/// is, awaiting a destination click.
#[derive(Clone, Copy, Debug, PartialEq, Eq, Structural)]
pub enum SelectedPiece {
    NoneSelected,
    PieceSelected { piece: u8, square: u8 },
}

impl SelectedPiece {
    /// Structural invariant: a selected square is on the board.
    pub open spec fn well_formed(self) -> bool {
        self matches SelectedPiece::PieceSelected { piece, square } ==> square < 64
    }
}

/// Select the clicked piece if it belongs to the side to move; otherwise
/// leave the selection alone. Returns whether a selection was made.
pub fn try_select(
    target_color: Side,
    square: u8,
    board: &GameBoard,
    selected_piece: &mut SelectedPiece,
) -> (r: bool)
    requires
        square < 64,
        target_color == side_of(board.inner()) ==> square_occupied(board.inner(), square as int),
    ensures
        r == (target_color == side_of(board.inner())),
        r ==> *final(selected_piece) == (SelectedPiece::PieceSelected {
            piece: rules::occupant(board.inner())[square as int].0 as u8,
            square,
        }),
        !r ==> *final(selected_piece) == *old(selected_piece),
        final(selected_piece).well_formed() || *final(selected_piece) == *old(selected_piece),
    {
    let side = Side::of_white(rules::side_white(&board.0));
    if target_color == side {
        match rules::piece_kind_on(&board.0, square) {
            Some(piece) => {
                *selected_piece = SelectedPiece::PieceSelected { piece, square };
                true
            },
            None => {
                // the requires rules this arm out: an own-colored click is occupied
                assert(false);
                false
            },
        }
    } else {
        false
    }
}

/// Validate and apply the candidate `(source, destination)`; promotion is
/// never resolved, so the candidate is always submitted without one (a known
/// incompleteness of the protocol). On a legal candidate the position is
/// replaced, the side to move flips, and the activity flag is pushed into the
/// inactivity window; on an illegal one nothing changes. Either way the
/// selection is cleared. Returns whether the move was committed.
pub fn make_move(
    source: u8,
    dest: u8,
    _promotion: Option<u8>,
    board: &mut GameBoard,
    selected_piece: &mut SelectedPiece,
    side_to_move: &mut SideToMove,
    last_50: &mut Last50,
) -> (committed: bool)
    requires
        source < 64,
        dest < 64,
        old(last_50).well_formed(),
    ensures
        committed == candidate_legal(old(board).inner(), source as int, dest as int),
        *final(selected_piece) == SelectedPiece::NoneSelected,
        final(last_50).well_formed(),
        committed ==> {
            &&& final(board).inner() == rules::applied(
                old(board).inner(),
                source as int,
                dest as int,
                0,
            )
            &&& rules::white_to_move(final(board).inner()) == !rules::white_to_move(
                old(board).inner(),
            )
            &&& final(side_to_move).0 == side_of(final(board).inner())
            &&& (final(last_50).slots(), final(last_50).cursor()) == guard_step(
                old(last_50).slots(),
                old(last_50).cursor(),
                was_activity(old(board).inner(), source as int, dest as int),
            )
        },
        !committed ==> *final(board) == *old(board) && *final(side_to_move) == *old(side_to_move)
            && *final(last_50) == *old(last_50),
{
    if rules::move_legal(&board.0, source, dest, 0) {
        let p = rules::piece_kind_on(&board.0, source);
        let t = rules::piece_kind_on(&board.0, dest);
        let activity = match p {
            Some(k) => k == rules::PAWN || t.is_some(),
            None => {
                // move_legal guarantees the source square is occupied
                assert(false);
                false
            },
        };
        let next = rules::apply_move(&board.0, source, dest, 0);
        board.0 = next;
        *selected_piece = SelectedPiece::NoneSelected;
        side_to_move.0 = Side::of_white(rules::side_white(&board.0));
        last_50.push(activity);
        true
    } else {
        *selected_piece = SelectedPiece::NoneSelected;
        false
    }
}

/// One tick of the human provider: resolve a click on the pointed square
/// through the two-click state machine. A first click selects an own piece;
/// a second click re-selects (on another own piece) or attempts to commit
/// the candidate to the clicked square. Returns whether a turn was
/// completed: only a successful commit emits the turn-completed signal; a
/// click that merely selects, re-selects, misses, or is rejected completes
/// no turn.
pub fn act(
    pointed_square: &PointedSquare,
    clicked: bool,
    side_to_move: &mut SideToMove,
    board: &mut GameBoard,
    selected_piece: &mut SelectedPiece,
    last_50: &mut Last50,
) -> (turn_end: bool)
    requires
        pointed_square.well_formed(),
        old(selected_piece).well_formed(),
        old(last_50).well_formed(),
    ensures
        final(selected_piece).well_formed(),
        final(last_50).well_formed(),
        (!clicked || pointed_square.pointed() is None) ==> turn_end == false && *final(board)
            == *old(board) && *final(selected_piece) == *old(selected_piece) && *final(side_to_move)
            == *old(side_to_move) && *final(last_50) == *old(last_50),
        clicked ==> (pointed_square.pointed() matches Some(sq) ==> {
            let b = old(board).inner();
            let occupied = square_occupied(b, sq as int);
            let own = occupied && occupant_side(b, sq as int) == side_of(b);
            match *old(selected_piece) {
                SelectedPiece::NoneSelected => {
                    &&& turn_end == false
                    &&& *final(board) == *old(board)
                    &&& *final(side_to_move) == *old(side_to_move)
                    &&& *final(last_50) == *old(last_50)
                    &&& own ==> *final(selected_piece) == (SelectedPiece::PieceSelected {
                        piece: rules::occupant(b)[sq as int].0 as u8,
                        square: sq,
                    })
                    &&& !own ==> *final(selected_piece) == *old(selected_piece)
                },
                SelectedPiece::PieceSelected { piece: _, square: source } => {
                    &&& own ==> turn_end == false && *final(selected_piece) == (
                    SelectedPiece::PieceSelected {
                        piece: rules::occupant(b)[sq as int].0 as u8,
                        square: sq,
                    }) && *final(board) == *old(board) && *final(side_to_move) == *old(side_to_move)
                        && *final(last_50) == *old(last_50)
                    &&& !own ==> {
                        &&& turn_end == candidate_legal(b, source as int, sq as int)
                        &&& *final(selected_piece) == SelectedPiece::NoneSelected
                        &&& candidate_legal(b, source as int, sq as int) ==> {
                            &&& final(board).inner() == rules::applied(
                                b,
                                source as int,
                                sq as int,
                                0,
                            )
                            &&& rules::white_to_move(final(board).inner()) == !rules::white_to_move(
                                b,
                            )
                            &&& final(side_to_move).0 == side_of(final(board).inner())
                            &&& (final(last_50).slots(), final(last_50).cursor()) == guard_step(
                                old(last_50).slots(),
                                old(last_50).cursor(),
                                was_activity(b, source as int, sq as int),
                            )
                        }
                        &&& !candidate_legal(b, source as int, sq as int) ==> *final(board) == *old(
                            board,
                        ) && *final(side_to_move) == *old(side_to_move) && *final(last_50) == *old(
                            last_50,
                        )
                    }
                },
            }
        }),
{
    if !clicked {
        return false;
    }
    let pointed = pointed_square.get();
    match pointed {
        None => false,
        Some(square) => {
            let target_col = board.color_at(square);
            match (*selected_piece, target_col) {
                (SelectedPiece::NoneSelected, None) => false,
                (SelectedPiece::NoneSelected, Some(col)) => {
                    try_select(col, square, board, selected_piece);
                    false
                },
                (SelectedPiece::PieceSelected { piece: _, square: source }, None) => {
                    make_move(
                        source,
                        square,
                        None,
                        board,
                        selected_piece,
                        side_to_move,
                        last_50,
                    )
                },
                (SelectedPiece::PieceSelected { piece: _, square: source }, Some(col)) => {
                    if try_select(col, square, board, selected_piece) {
                        false
                    } else {
                        make_move(
                            source,
                            square,
                            None,
                            board,
                            selected_piece,
                            side_to_move,
                            last_50,
                        )
                    }
                },
            }
        },
    }
}

/// An explicit reset (new game or return to the menu): put the standard
/// initial position back, reinitialize the inactivity window, clear any
/// selection, and force the request bridge back to idle whatever was in
/// flight.
pub fn reset_session(
    board: &mut GameBoard,
    last_50: &mut Last50,
    selected_piece: &mut SelectedPiece,
    network_get_move: &mut crate::ai::NetworkGetMove,
)
    ensures
        rules::white_to_move(final(board).inner()),
        rules::fen(final(board).inner()) == rules::initial_fen(),
        final(last_50).well_formed(),
        final(last_50).cursor() == 0,
        final(last_50).slots() == Seq::new(crate::WINDOW as nat, |i: int| true),
        *final(selected_piece) == SelectedPiece::NoneSelected,
        *final(network_get_move) == crate::ai::NetworkGetMove::Idle,
{
    board.0 = rules::initial_board();
    *last_50 = Last50::default();
    *selected_piece = SelectedPiece::NoneSelected;
    *network_get_move = crate::ai::NetworkGetMove::Idle;
}

/// Evaluate end-of-game after a completed turn: an exhausted inactivity
/// window draws the game; otherwise the rules engine's terminal status ends
/// it (stalemate as a draw, checkmate as a win for the side that just
/// moved); otherwise play continues.
pub fn check_end(
    turn_ended: bool,
    board: &GameBoard,
    last_50: &Last50,
    state: &mut GameState,
    result: &mut GameResult,
)
    requires
        last_50.well_formed(),
    ensures
        !turn_ended ==> *final(state) == *old(state) && *final(result) == *old(result),
        turn_ended ==> {
            let draw = !last_50.slots().contains(true);
            let over = rules::legal_moves(board.inner()).is_empty();
            &&& draw ==> *final(state) == GameState::End && *final(result) == GameResult::Stalemate
            &&& (!draw && over && !rules::in_check(board.inner())) ==> *final(state)
                == GameState::End && *final(result) == GameResult::Stalemate
            &&& (!draw && over && rules::in_check(board.inner())) ==> *final(state) == GameState::End
                && *final(result) == (GameResult::Checkmate {
                winner: side_of(board.inner()).spec_flip(),
            })
            &&& (!draw && !over) ==> *final(state) == *old(state) && *final(result) == *old(result)
        },
{
    if !turn_ended {
        return ;
    }
    if last_50.should_draw() {
        *state = GameState::End;
        *result = GameResult::Stalemate;
        return ;
    }
    match board.status() {
        rules::Status::Ongoing => {},
        rules::Status::Stalemate => {
            *state = GameState::End;
            *result = GameResult::Stalemate;
        },
        rules::Status::Checkmate => {
            let color = board.side_to_move().flip();
            *state = GameState::End;
            *result = GameResult::Checkmate { winner: color };
        },
    }
}

} // verus!
