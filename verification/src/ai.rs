//! Machine move providers: the local random chooser and the remote engine
//! with its one-shot asynchronous request bridge. The bridge holds a
//! tri-state request lifecycle (`Idle`, `Pending`, `Ready`); a tick may move
//! `Idle` to `Pending` (launching exactly one request), leave `Pending`
//! alone, or consume `Ready` exactly once. The caller performs the actual
//! network exchange and hands the raw reply back through
//! `complete_network_request`.

use vstd::prelude::*;
use crate::game::{candidate_legal, was_activity, GameBoard};
use crate::notation;
use crate::rules;
use crate::{guard_step, GameRule, Last50, SideToMove};

verus! {

/// A move received from the remote service, as square indexes.
#[derive(Clone, Copy, Debug, PartialEq, Eq, Structural)]
pub struct NetworkMove {
    pub from: u8,
    pub to: u8,
}

impl NetworkMove {
    /// Structural invariant: both squares are on the board.
    pub open spec fn well_formed(self) -> bool {
        self.from < 64 && self.to < 64
    }
}

/// The request lifecycle of the remote provider: no request outstanding, one
/// in flight, or a reply waiting to be consumed.
#[derive(Clone, Copy, Debug, PartialEq, Eq, Structural)]
pub enum NetworkGetMove {
    Idle,
    Pending,
    Ready(NetworkMove),
}

impl NetworkGetMove {
    /// Structural invariant: a waiting reply is a well-formed move.
    pub open spec fn well_formed(self) -> bool {
        self matches NetworkGetMove::Ready(m) ==> m.well_formed()
    }
}

/// The bridge state after one tick of the remote provider: on the provider's
/// turn, `Idle` launches (becoming `Pending`), `Pending` waits, and `Ready`
/// is consumed back to `Idle`; off turn nothing moves.
pub open spec fn bridge_next(s: NetworkGetMove, my_turn: bool) -> NetworkGetMove {
    if !my_turn {
        s
    } else {
        match s {
            NetworkGetMove::Idle => NetworkGetMove::Pending,
            NetworkGetMove::Pending => NetworkGetMove::Pending,
            NetworkGetMove::Ready(_) => NetworkGetMove::Idle,
        }
    }
}

/// Whether a tick launches a request: only on the provider's turn, and only
/// from `Idle`.
pub open spec fn bridge_launches(s: NetworkGetMove, my_turn: bool) -> bool {
    my_turn && s is Idle
}

/// The completed move a tick hands over for commit, if any.
pub open spec fn bridge_delivers(s: NetworkGetMove, my_turn: bool) -> Option<NetworkMove> {
    match s {
        NetworkGetMove::Ready(m) => if my_turn {
            Some(m)
        } else {
            None
        },
        _ => None,
    }
}

/// The bridge state after a run of ticks (each entry saying whether it was
/// the provider's turn) during which no reply arrives.
pub open spec fn bridge_run(s: NetworkGetMove, ticks: Seq<bool>) -> NetworkGetMove
    decreases ticks.len(),
{
    if ticks.len() == 0 {
        s
    } else {
        bridge_next(bridge_run(s, ticks.drop_last()), ticks.last())
    }
}

/// How many ticks of such a run launch a request.
pub open spec fn launch_count(s: NetworkGetMove, ticks: Seq<bool>) -> nat
    decreases ticks.len(),
{
    if ticks.len() == 0 {
        0nat
    } else {
        launch_count(s, ticks.drop_last()) + (if bridge_launches(
            bridge_run(s, ticks.drop_last()),
            ticks.last(),
        ) {
            1nat
        } else {
            0nat
        })
    }
}

/// How many ticks of such a run deliver a completed move.
pub open spec fn deliver_count(s: NetworkGetMove, ticks: Seq<bool>) -> nat
    decreases ticks.len(),
{
    if ticks.len() == 0 {
        0nat
    } else {
        deliver_count(s, ticks.drop_last()) + (if bridge_delivers(
            bridge_run(s, ticks.drop_last()),
            ticks.last(),
        ) is Some {
            1nat
        } else {
            0nat
        })
    }
}

/// A run of ticks includes the provider's turn exactly when its prefix does
/// or its last tick is one.
proof fn lemma_contains_true_step(ticks: Seq<bool>)
    requires
        ticks.len() > 0,
    ensures
        ticks.contains(true) == (ticks.drop_last().contains(true) || ticks.last()),
{
    let prefix = ticks.drop_last();
    if prefix.contains(true) {
        let i = choose|i: int| 0 <= i < prefix.len() && prefix[i] == true;
        assert(ticks[i] == true);
    }
    if ticks.last() {
        assert(ticks[ticks.len() - 1] == true);
    }
    if ticks.contains(true) {
        let i = choose|i: int| 0 <= i < ticks.len() && ticks[i] == true;
        if i < ticks.len() - 1 {
            assert(prefix[i] == true);
        }
    }
}

/// While a request is in flight and no reply arrives, any number of polls
/// leaves the bridge `Pending` and neither launches another request nor
/// delivers a move.
pub proof fn lemma_pending_stable(ticks: Seq<bool>)
    ensures
        bridge_run(NetworkGetMove::Pending, ticks) == NetworkGetMove::Pending,
        launch_count(NetworkGetMove::Pending, ticks) == 0,
        deliver_count(NetworkGetMove::Pending, ticks) == 0,
    decreases ticks.len(),
{
    if ticks.len() > 0 {
        lemma_pending_stable(ticks.drop_last());
    }
}

/// From an idle bridge with no reply arriving, exactly one request is
/// launched over any run of ticks that includes the provider's turn, and
/// none over a run that does not; no move is ever delivered without a reply.
pub proof fn lemma_idle_launches_once(ticks: Seq<bool>)
    ensures
        bridge_run(NetworkGetMove::Idle, ticks) == if ticks.contains(true) {
            NetworkGetMove::Pending
        } else {
            NetworkGetMove::Idle
        },
        launch_count(NetworkGetMove::Idle, ticks) == if ticks.contains(true) {
            1nat
        } else {
            0nat
        },
        deliver_count(NetworkGetMove::Idle, ticks) == 0,
    decreases ticks.len(),
{
    if ticks.len() > 0 {
        lemma_idle_launches_once(ticks.drop_last());
        lemma_contains_true_step(ticks);
    }
}

/// A waiting reply is consumed exactly once: the first tick on the
/// provider's turn delivers it, after which the bridge is idle or has a new
/// request in flight but never re-delivers; without such a tick the reply
/// just waits.
pub proof fn lemma_ready_consumed_once(m: NetworkMove, ticks: Seq<bool>)
    ensures
        !ticks.contains(true) ==> bridge_run(NetworkGetMove::Ready(m), ticks)
            == NetworkGetMove::Ready(m) && deliver_count(NetworkGetMove::Ready(m), ticks) == 0,
        ticks.contains(true) ==> !(bridge_run(NetworkGetMove::Ready(m), ticks) is Ready)
            && deliver_count(NetworkGetMove::Ready(m), ticks) == 1,
    decreases ticks.len(),
{
    if ticks.len() > 0 {
        lemma_ready_consumed_once(m, ticks.drop_last());
        lemma_contains_true_step(ticks);
    }
}

/// One tick of the remote-engine provider. Off the machine's turn it does
/// nothing. On it, an `Idle` bridge launches: the state gates to `Pending`
/// and the FEN payload for the request is returned for the caller to send.
/// A `Pending` bridge waits. A `Ready` bridge is consumed exactly once: a
/// legal delivered move is committed (position replaced, side flipped,
/// activity pushed into the inactivity window) and an illegal one is
/// dropped, the bridge falling back to `Idle` either way so the next tick
/// may retry.
pub fn stockfish_move(
    side_to_move: &mut SideToMove,
    game_rule: &GameRule,
    board: &mut GameBoard,
    last_50: &mut Last50,
    network_get_move: &mut NetworkGetMove,
) -> (r: (Option<String>, bool))
    requires
        old(last_50).well_formed(),
        old(network_get_move).well_formed(),
    ensures
        final(network_get_move).well_formed(),
        final(last_50).well_formed(),
        ({
            let my_turn = old(side_to_move).0 == game_rule.spec_ai_color();
            &&& *final(network_get_move) == bridge_next(*old(network_get_move), my_turn)
            &&& (r.0 is Some) == bridge_launches(*old(network_get_move), my_turn)
            &&& (r.0 matches Some(f) ==> f@ == rules::fen(old(board).inner()))
            &&& (bridge_delivers(*old(network_get_move), my_turn) is None) ==> r.1 == false
                && *final(board) == *old(board) && *final(side_to_move) == *old(side_to_move)
                && *final(last_50) == *old(last_50)
            &&& (bridge_delivers(*old(network_get_move), my_turn) matches Some(m) ==> {
                let legal = candidate_legal(old(board).inner(), m.from as int, m.to as int);
                &&& r.1 == legal
                &&& legal ==> final(board).inner() == rules::applied(
                    old(board).inner(),
                    m.from as int,
                    m.to as int,
                    0,
                ) && rules::white_to_move(final(board).inner()) == !rules::white_to_move(
                    old(board).inner(),
                ) && final(side_to_move).0 == old(side_to_move).0.spec_flip() && (
                final(last_50).slots(),
                final(last_50).cursor(),
                ) == guard_step(
                    old(last_50).slots(),
                    old(last_50).cursor(),
                    was_activity(old(board).inner(), m.from as int, m.to as int),
                )
                &&& !legal ==> *final(board) == *old(board) && *final(side_to_move) == *old(
                    side_to_move,
                ) && *final(last_50) == *old(last_50)
            })
        }),
{
    let my_turn = side_to_move.0 == game_rule.ai_color();
    if !my_turn {
        return (None, false);
    }
    match *network_get_move {
        NetworkGetMove::Idle => {
            let fen = rules::fen_string(&board.0);
            request_network_move(network_get_move);
            (Some(fen), false)
        },
        NetworkGetMove::Pending => (None, false),
        NetworkGetMove::Ready(m) => {
            *network_get_move = NetworkGetMove::Idle;
            if rules::move_legal(&board.0, m.from, m.to, 0) {
                let p = rules::piece_kind_on(&board.0, m.from);
                let t = rules::piece_kind_on(&board.0, m.to);
                let activity = match p {
                    Some(k) => k == rules::PAWN || t.is_some(),
                    None => {
                        // a legal move starts from an occupied square
                        assert(false);
                        false
                    },
                };
                let next = rules::apply_move(&board.0, m.from, m.to, 0);
                board.0 = next;
                side_to_move.0 = side_to_move.0.flip();
                last_50.push(activity);
                (None, true)
            } else {
                (None, false)
            }
        },
    }
}

/// Gate the bridge to `Pending`, marking the one-shot request as launched.
/// The caller then performs the network exchange off the tick path and hands
/// the reply to `complete_network_request`.
pub fn request_network_move(network_get_move: &mut NetworkGetMove)
    ensures
        *final(network_get_move) == NetworkGetMove::Pending,
{
    *network_get_move = NetworkGetMove::Pending;
}

/// Deliver the remote service's raw reply into the bridge, overwriting
/// whatever state was there: a well-shaped reply becomes `Ready` with its
/// move, and a malformed one falls back to `Idle` so the provider retries on
/// a later tick instead of aborting the session.
pub fn complete_network_request(network_get_move: &mut NetworkGetMove, body: &[u8])
    ensures
        final(network_get_move).well_formed(),
        notation::spec_parse_response(body@) matches Some(m) ==> *final(network_get_move)
            == NetworkGetMove::Ready(NetworkMove { from: m.0 as u8, to: m.1 as u8 }),
        notation::spec_parse_response(body@) is None ==> *final(network_get_move)
            == NetworkGetMove::Idle,
{
    match notation::parse_engine_response(body) {
        Some(m) => {
            *network_get_move = NetworkGetMove::Ready(NetworkMove { from: m.0, to: m.1 });
        },
        None => {
            *network_get_move = NetworkGetMove::Idle;
        },
    }
}

/// Relies on rand::thread_rng and rand::Rng::gen_range: a uniformly chosen
/// index below `n`. Only the range is stated; the choice is random.
#[verifier::external_body]
fn random_index(n: usize) -> (r: usize)
    requires
        n > 0,
    ensures
        r < n,
{
    rand::Rng::gen_range(&mut rand::thread_rng(), 0..n)
}

/// One tick of the local random provider when the machine plays one side:
/// on the machine's turn, commit a uniformly chosen legal move. Returns
/// whether a turn was completed; a position without legal moves completes
/// none (the session is already over then).
pub fn single_ai_move(
    side_to_move: &mut SideToMove,
    game_rule: &GameRule,
    board: &mut GameBoard,
    last_50: &mut Last50,
) -> (turn_end: bool)
    requires
        old(last_50).well_formed(),
    ensures
        final(last_50).well_formed(),
        turn_end == (old(side_to_move).0 == game_rule.spec_ai_color() && !rules::legal_moves(
            old(board).inner(),
        ).is_empty()),
        turn_end ==> committed_random_move(
            *old(board),
            *old(side_to_move),
            *old(last_50),
            *final(board),
            *final(side_to_move),
            *final(last_50),
        ),
        !turn_end ==> *final(board) == *old(board) && *final(side_to_move) == *old(side_to_move)
            && *final(last_50) == *old(last_50),
{
    if !(side_to_move.0 == game_rule.ai_color()) {
        return false;
    }
    random_move(side_to_move, board, last_50)
}

/// One tick of the simulation provider: whichever side is to move, commit a
/// uniformly chosen legal move, exactly as `single_ai_move` does on the
/// machine's turn.
pub fn sim_ai_move(
    side_to_move: &mut SideToMove,
    board: &mut GameBoard,
    last_50: &mut Last50,
) -> (turn_end: bool)
    requires
        old(last_50).well_formed(),
    ensures
        final(last_50).well_formed(),
        turn_end == !rules::legal_moves(old(board).inner()).is_empty(),
        turn_end ==> committed_random_move(
            *old(board),
            *old(side_to_move),
            *old(last_50),
            *final(board),
            *final(side_to_move),
            *final(last_50),
        ),
        !turn_end ==> *final(board) == *old(board) && *final(side_to_move) == *old(side_to_move)
            && *final(last_50) == *old(last_50),
{
    random_move(side_to_move, board, last_50)
}

/// What committing some legal move of the old position looks like: the new
/// position is the engine's application of that move, the side flips (on the
/// board and in the turn holder) and the same move's activity flag is pushed
/// into the inactivity window.
pub open spec fn committed_random_move(
    old_board: GameBoard,
    old_side: SideToMove,
    old_guard: Last50,
    new_board: GameBoard,
    new_side: SideToMove,
    new_guard: Last50,
) -> bool {
    &&& rules::white_to_move(new_board.inner()) == !rules::white_to_move(old_board.inner())
    &&& new_side.0 == old_side.0.spec_flip()
    &&& exists|m: (int, int, int)|
        #[trigger] rules::legal_moves(old_board.inner()).contains(m) && new_board.inner()
            == rules::applied(old_board.inner(), m.0, m.1, m.2) && (
        new_guard.slots(),
        new_guard.cursor(),
        ) == guard_step(old_guard.slots(), old_guard.cursor(), was_activity(old_board.inner(), m.0, m.1))
}

/// Commit a uniformly chosen legal move of the current position, if one
/// exists.
fn random_move(side_to_move: &mut SideToMove, board: &mut GameBoard, last_50: &mut Last50) -> (r:
    bool)
    requires
        old(last_50).well_formed(),
    ensures
        final(last_50).well_formed(),
        r == !rules::legal_moves(old(board).inner()).is_empty(),
        r ==> committed_random_move(
            *old(board),
            *old(side_to_move),
            *old(last_50),
            *final(board),
            *final(side_to_move),
            *final(last_50),
        ),
        !r ==> *final(board) == *old(board) && *final(side_to_move) == *old(side_to_move)
            && *final(last_50) == *old(last_50),
{
    let list = rules::legal_list(&board.0);
    if list.len() == 0 {
        proof {
            assert forall|m: (int, int, int)| !rules::legal_moves(board.0).contains(m) by {
                if rules::legal_moves(board.0).contains(m) {
                    let i = choose|i: int|
                        0 <= i < list@.len() && m == (
                            list@[i].0 as int,
                            list@[i].1 as int,
                            list@[i].2 as int,
                        );
                }
            }
            assert(rules::legal_moves(board.0) =~= Set::empty());
        }
        return false;
    }
    let i = random_index(list.len());
    let mv = list[i];
    assert(rules::legal_moves(board.0).contains((mv.0 as int, mv.1 as int, mv.2 as int)));
    assert(!rules::legal_moves(board.0).is_empty());
    let ok = rules::move_legal(&board.0, mv.0, mv.1, mv.2);
    if ok {
        let p = rules::piece_kind_on(&board.0, mv.0);
        let t = rules::piece_kind_on(&board.0, mv.1);
        let activity = match p {
            Some(k) => k == rules::PAWN || t.is_some(),
            None => {
                // a legal move starts from an occupied square
                assert(false);
                false
            },
        };
        let next = rules::apply_move(&board.0, mv.0, mv.1, mv.2);
        board.0 = next;
        side_to_move.0 = side_to_move.0.flip();
        last_50.push(activity);
        proof {
            let m = (mv.0 as int, mv.1 as int, mv.2 as int);
            assert(rules::legal_moves(old(board).inner()).contains(m));
            assert(board.inner() == rules::applied(old(board).inner(), m.0, m.1, m.2));
            assert(activity == was_activity(old(board).inner(), m.0, m.1));
            assert((last_50.slots(), last_50.cursor()) == guard_step(
                old(last_50).slots(),
                old(last_50).cursor(),
                was_activity(old(board).inner(), m.0, m.1),
            ));
        }
        true
    } else {
        // the chosen list entry is a legal move
        assert(false);
        false
    }
}

} // verus!
