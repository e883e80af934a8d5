//! Trusted interface to the external rules engine (the `chess` crate). The
//! engine's board value is opaque here: uninterpreted spec functions name
//! what it holds (side to move, occupancy, the legal-move set, check and FEN
//! text), and each wrapper states over those names what the engine's source
//! shows of the one call it makes. Everything outside this module is
//! verified against these contracts.
//!
//! Encodings used throughout: a square is its index `rank * 8 + file`
//! (`0..64`); a piece kind is the engine's piece index (pawn 0, knight 1,
//! bishop 2, rook 3, queen 4, king 5); a candidate move is a triple
//! `(source, destination, promotion)` where promotion 0 means none and
//! otherwise is the piece index of the promotion target (1..=4).

use vstd::prelude::*;

verus! {

#[verifier::external_type_specification]
#[verifier::external_body]
pub struct ExChessBoard(chess::Board);

#[verifier::external_type_specification]
#[verifier::external_body]
pub struct ExChessMove(chess::ChessMove);

/// Piece index of a pawn.
pub const PAWN: u8 = 0;

/// Whether white is the side to move on `b`.
pub uninterp spec fn white_to_move(b: chess::Board) -> bool;

/// The occupancy of `b`: square index to (piece kind, piece is white), with
/// exactly the occupied squares in the domain.
pub uninterp spec fn occupant(b: chess::Board) -> Map<int, (int, bool)>;

/// The legal moves of `b`: every `(source, destination, promotion)` triple
/// that the engine's move generator yields for the side to move.
pub uninterp spec fn legal_moves(b: chess::Board) -> Set<(int, int, int)>;

/// Whether the side to move on `b` is in check.
pub uninterp spec fn in_check(b: chess::Board) -> bool;

/// The FEN text of `b`, as the engine formats it.
pub uninterp spec fn fen(b: chess::Board) -> Seq<char>;

/// The position the engine's move application yields on `b` for a
/// `(source, destination, promotion)` triple — a function of the position
/// and the move alone; `apply_move` returns exactly this board.
pub uninterp spec fn applied(b: chess::Board, src: int, dst: int, promo: int) -> chess::Board;

/// The FEN text of the standard initial position, as the engine formats it.
pub open spec fn initial_fen() -> Seq<char> {
    "rnbqkbnr/pppppppp/8/8/8/8/PPPPPPPP/RNBQKBNR w KQkq - 0 1"@
}

/// Relies on chess::Board::default: the standard initial position, where
/// white is to move; formatting it back yields the same FEN text it is built
/// from.
#[verifier::external_body]
pub(crate) fn initial_board() -> (b: chess::Board)
    ensures
        white_to_move(b),
        fen(b) == initial_fen(),
{
    chess::Board::default()
}

/// Relies on chess::Board::side_to_move.
#[verifier::external_body]
pub(crate) fn side_white(b: &chess::Board) -> (r: bool)
    ensures
        r == white_to_move(*b),
{
    b.side_to_move() == chess::Color::White
}

/// Relies on chess::Board::piece_on: the piece kind on a square, `None` when
/// the square is empty.
#[verifier::external_body]
pub(crate) fn piece_kind_on(b: &chess::Board, sq: u8) -> (r: Option<u8>)
    requires
        sq < 64,
    ensures
        r is Some <==> occupant(*b).dom().contains(sq as int),
        r matches Some(k) ==> k as int == occupant(*b)[sq as int].0 && k < 6,
{
    let s = chess::Square::make_square(
        chess::Rank::from_index((sq >> 3) as usize),
        chess::File::from_index((sq & 7) as usize),
    );
    b.piece_on(s).map(|p| p.to_index() as u8)
}

/// Relies on chess::Board::color_on: whether the piece on a square is white,
/// `None` when the square is empty.
#[verifier::external_body]
pub(crate) fn color_white_on(b: &chess::Board, sq: u8) -> (r: Option<bool>)
    requires
        sq < 64,
    ensures
        r is Some <==> occupant(*b).dom().contains(sq as int),
        r matches Some(w) ==> w == occupant(*b)[sq as int].1,
{
    let s = chess::Square::make_square(
        chess::Rank::from_index((sq >> 3) as usize),
        chess::File::from_index((sq & 7) as usize),
    );
    b.color_on(s).map(|c| c == chess::Color::White)
}

/// Relies on chess::Board::legal, which holds exactly of the moves that the
/// engine's move generator yields; a generated move always starts from a
/// square occupied by the side to move.
#[verifier::external_body]
pub(crate) fn move_legal(b: &chess::Board, src: u8, dst: u8, promo: u8) -> (r: bool)
    requires
        src < 64,
        dst < 64,
        promo <= 4,
    ensures
        r == legal_moves(*b).contains((src as int, dst as int, promo as int)),
        r ==> occupant(*b).dom().contains(src as int) && occupant(*b)[src as int].1
            == white_to_move(*b),
{
    b.legal(chess_move(src, dst, promo))
}

/// Relies on chess::Board::make_move_new: applying a legal move yields the
/// engine's application of exactly that move (a pure function of position
/// and move, named `applied`), a position with the other side to move; it
/// panics only when the moved-to position would be insane, which a legal
/// move never produces.
#[verifier::external_body]
pub(crate) fn apply_move(b: &chess::Board, src: u8, dst: u8, promo: u8) -> (b2: chess::Board)
    requires
        src < 64,
        dst < 64,
        promo <= 4,
        legal_moves(*b).contains((src as int, dst as int, promo as int)),
    ensures
        b2 == applied(*b, src as int, dst as int, promo as int),
        white_to_move(b2) == !white_to_move(*b),
{
    b.make_move_new(chess_move(src, dst, promo))
}

/// Relies on chess::MoveGen::new_legal: the returned list holds exactly the
/// legal-move triples of `b` (as a set; the generator's order is not
/// stated).
#[verifier::external_body]
pub(crate) fn legal_list(b: &chess::Board) -> (r: Vec<(u8, u8, u8)>)
    ensures
        forall|i: int|
            0 <= i < r@.len() ==> r@[i].0 < 64 && r@[i].1 < 64 && r@[i].2 <= 4 && legal_moves(
                *b,
            ).contains((r@[i].0 as int, r@[i].1 as int, r@[i].2 as int)),
        forall|m: (int, int, int)| #[trigger]
            legal_moves(*b).contains(m) ==> exists|i: int|
                0 <= i < r@.len() && m == (r@[i].0 as int, r@[i].1 as int, r@[i].2 as int),
{
    chess::MoveGen::new_legal(b)
        .map(|m| (
            m.get_source().to_index() as u8,
            m.get_dest().to_index() as u8,
            m.get_promotion().map_or(0, |p| p.to_index() as u8),
        ))
        .collect()
}

/// The terminal state of a position, as the external engine reports it.
#[derive(Clone, Copy, Debug, PartialEq, Eq, Structural)]
pub enum Status {
    Ongoing,
    Stalemate,
    Checkmate,
}

/// Relies on chess::Board::status: ongoing exactly when a legal move exists,
/// and an ended position is checkmate or stalemate by whether the side to
/// move is in check.
#[verifier::external_body]
pub(crate) fn position_status(b: &chess::Board) -> (r: Status)
    ensures
        (r == Status::Ongoing) == !legal_moves(*b).is_empty(),
        (r == Status::Checkmate) == (legal_moves(*b).is_empty() && in_check(*b)),
        (r == Status::Stalemate) == (legal_moves(*b).is_empty() && !in_check(*b)),
{
    match b.status() {
        chess::BoardStatus::Ongoing => Status::Ongoing,
        chess::BoardStatus::Stalemate => Status::Stalemate,
        chess::BoardStatus::Checkmate => Status::Checkmate,
    }
}

/// Relies on chess::Board's Display impl, which formats the position as FEN.
#[verifier::external_body]
pub(crate) fn fen_string(b: &chess::Board) -> (r: String)
    ensures
        r@ == fen(*b),
{
    format!("{}", b)
}

/// Relies on chess::ChessMove::new, chess::Square::make_square and the rank
/// and file index conversions: builds the engine's move value for a
/// (source, destination, promotion) triple.
#[verifier::external_body]
fn chess_move(src: u8, dst: u8, promo: u8) -> (m: chess::ChessMove)
    requires
        src < 64,
        dst < 64,
        promo <= 4,
{
    let p = match promo {
        1 => Some(chess::Piece::Knight),
        2 => Some(chess::Piece::Bishop),
        3 => Some(chess::Piece::Rook),
        4 => Some(chess::Piece::Queen),
        _ => None,
    };
    let s = chess::Square::make_square(chess::Rank::from_index((src >> 3) as usize), chess::File::from_index((src & 7) as usize));
    let d = chess::Square::make_square(chess::Rank::from_index((dst >> 3) as usize), chess::File::from_index((dst & 7) as usize));
    chess::ChessMove::new(s, d, p)
}

} // verus!
