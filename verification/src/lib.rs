//! Core of a turn-based chess session: the repetition/inactivity guard, the
//! click-selection and move-commit protocol, per-tick move providers (human,
//! local random, remote engine) and end-of-game detection. Move legality and
//! board bookkeeping are delegated to the `chess` crate through a small
//! trusted interface in `rules`; everything above that interface is verified.

use vstd::prelude::*;

pub mod ai;
pub mod game;
pub mod notation;
pub mod rules;

verus! {

/// Width of the inactivity window: a draw is forced once this many
/// consecutive plies pass without a capture or a pawn move.
pub const WINDOW: usize = 50;

/// The side to move: white or black.
#[derive(Clone, Copy, Debug, PartialEq, Eq, Structural)]
pub enum Side {
    White,
    Black,
}

impl Side {
    /// The other side.
    pub open spec fn spec_flip(self) -> Side {
        match self {
            Side::White => Side::Black,
            Side::Black => Side::White,
        }
    }

    /// The other side.
    pub fn flip(self) -> (r: Side)
        ensures
            r == self.spec_flip(),
    {
        match self {
            Side::White => Side::Black,
            Side::Black => Side::White,
        }
    }

    /// The side that moves when `white` says whether it is white's turn.
    pub open spec fn spec_of_white(white: bool) -> Side {
        if white {
            Side::White
        } else {
            Side::Black
        }
    }

    /// Exec counterpart of `spec_of_white`.
    pub fn of_white(white: bool) -> (r: Side)
        ensures
            r == Side::spec_of_white(white),
    {
        if white {
            Side::White
        } else {
            Side::Black
        }
    }
}

/// Marker for a turn having been completed this tick.
pub struct TurnEndEvent;

/// Marker attached to drawn piece entities by the renderer.
pub struct Piece;

/// Marker attached to drawn board-square entities by the renderer.
pub struct Square;

/// Marker attached to the selection highlight entities by the renderer.
pub struct Selector;

/// Which screen the session is on.
#[derive(Clone, Copy, Debug, PartialEq, Eq, Structural)]
pub enum GameState {
    MainMenu,
    Playing,
    End,
}

impl Default for GameState {
    fn default() -> (r: GameState)
        ensures
            r == GameState::MainMenu,
    {
        GameState::MainMenu
    }
}

/// The outcome of a finished game; `Ongoing` until one is set.
#[derive(Clone, Copy, Debug, PartialEq, Eq, Structural)]
pub enum GameResult {
    Ongoing,
    Checkmate { winner: Side },
    Stalemate,
}

impl Default for GameResult {
    fn default() -> (r: GameResult)
        ensures
            r == GameResult::Ongoing,
    {
        GameResult::Ongoing
    }
}

/// The side whose turn it currently is.
#[derive(Clone, Copy, Debug, PartialEq, Eq, Structural)]
pub struct SideToMove(pub Side);

/// Whether the rendered board is flipped to face the side to move.
#[derive(Clone, Copy, Debug, PartialEq, Eq, Structural)]
pub struct SwitchSides(pub bool);

/// Which side the machine plays.
#[derive(Clone, Copy, Debug, PartialEq, Eq, Structural)]
pub struct GameRule {
    ai_color: Side,
}

impl GameRule {
    /// The side the machine plays.
    pub closed spec fn spec_ai_color(self) -> Side {
        self.ai_color
    }

    /// The side the machine plays.
    pub fn ai_color(&self) -> (r: Side)
        ensures
            r == self.spec_ai_color(),
    {
        self.ai_color
    }

    /// A rule where the machine plays the given side.
    pub fn new(ai_color: Side) -> (r: GameRule)
        ensures
            r.spec_ai_color() == ai_color,
    {
        GameRule { ai_color }
    }
}

impl Default for GameRule {
    fn default() -> (r: GameRule)
        ensures
            r.spec_ai_color() == Side::Black,
    {
        GameRule { ai_color: Side::Black }
    }
}

/// How moves are sourced for each side.
#[derive(Clone, Copy, Debug, PartialEq, Eq, Structural)]
pub enum GameMode {
    Hotseat,
    VsAi,
    Sim,
}

impl Default for GameMode {
    fn default() -> (r: GameMode)
        ensures
            r == GameMode::Hotseat,
    {
        GameMode::Hotseat
    }
}

/// Fixed-window activity ledger: one boolean per recent ply saying whether it
/// was a capture or a pawn move. When the whole window is inactive the game
/// is drawn. The window starts all `true` so a draw cannot trigger before
/// `WINDOW` plies of genuine history exist.
#[derive(Debug)]
pub struct Last50 {
    counter: usize,
    data: Vec<bool>,
}

/// One step of the guard: overwrite the slot under the cursor and advance the
/// cursor circularly.
pub open spec fn guard_step(slots: Seq<bool>, cursor: int, activity: bool) -> (Seq<bool>, int) {
    (slots.update(cursor, activity), if cursor + 1 >= WINDOW { 0int } else { cursor + 1 })
}

impl Last50 {
    /// The window contents, oldest-to-newest order determined by `cursor`.
    pub closed spec fn slots(&self) -> Seq<bool> {
        self.data@
    }

    /// The slot the next push will overwrite.
    pub closed spec fn cursor(&self) -> int {
        self.counter as int
    }

    /// Structural invariant: a full window and an in-range cursor.
    pub open spec fn well_formed(&self) -> bool {
        &&& self.slots().len() == WINDOW
        &&& 0 <= self.cursor() < WINDOW
    }

    /// Record one ply's activity flag and advance the cursor.
    pub fn push(&mut self, data: bool)
        requires
            old(self).well_formed(),
        ensures
            final(self).well_formed(),
            (final(self).slots(), final(self).cursor()) == guard_step(
                old(self).slots(),
                old(self).cursor(),
                data,
            ),
    {
        let i = self.counter;
        self.data[i] = data;
        self.counter += 1;
        if self.counter >= WINDOW {
            self.counter = 0;
        }
    }

    /// Returns true if the game should end in a draw: no activity anywhere in
    /// the window.
    pub fn should_draw(&self) -> (r: bool)
        requires
            self.well_formed(),
        ensures
            r == !self.slots().contains(true),
    {
        let mut any: bool = false;
        let mut i: usize = 0;
        while i < WINDOW
            invariant
                self.well_formed(),
                i <= WINDOW,
                any == exists|j: int| 0 <= j < i && self.slots()[j],
            decreases WINDOW - i,
        {
            if self.data[i] {
                any = true;
                assert(self.slots()[i as int]);
            }
            i += 1;
        }
        assert(any == self.slots().contains(true)) by {
            if self.slots().contains(true) {
                let j = choose|j: int| 0 <= j < self.slots().len() && self.slots()[j] == true;
                assert(0 <= j < WINDOW && self.slots()[j]);
            }
        }
        !any
    }
}

/// The guard state (window contents and cursor) after a sequence of pushes
/// into a fresh guard.
pub open spec fn guard_run(pushes: Seq<bool>) -> (Seq<bool>, int)
    decreases pushes.len(),
{
    if pushes.len() == 0 {
        (Seq::new(WINDOW as nat, |i: int| true), 0int)
    } else {
        let prev = guard_run(pushes.drop_last());
        guard_step(prev.0, prev.1, pushes.last())
    }
}

/// The push index whose value the slot `i` holds after `n` pushes: the last
/// index below `n` that is congruent to `i` modulo the window width.
spec fn last_write(n: int, i: int) -> int {
    n - 1 - ((n - 1 - i) % (WINDOW as int))
}

/// What slot `i` holds after the given pushes: the latest push that landed on
/// it, or the initial `true` if none has.
spec fn slot_model(pushes: Seq<bool>, i: int) -> bool {
    if i < pushes.len() {
        pushes[last_write(pushes.len() as int, i)]
    } else {
        true
    }
}

/// Each slot of the window holds the most recent push that landed on it, and
/// the cursor is the push count modulo the window width.
proof fn lemma_guard_run_model(pushes: Seq<bool>)
    ensures
        guard_run(pushes).0.len() == WINDOW,
        guard_run(pushes).1 == pushes.len() as int % (WINDOW as int),
        forall|i: int| 0 <= i < WINDOW ==> guard_run(pushes).0[i] == slot_model(pushes, i),
    decreases pushes.len(),
{
    let w = WINDOW as int;
    let n = pushes.len() as int;
    if n == 0 {
    } else {
        let prev = pushes.drop_last();
        lemma_guard_run_model(prev);
        let cur = (n - 1) % w;
        assert(n % w == if cur + 1 >= w {
            0int
        } else {
            cur + 1
        }) by (nonlinear_arith)
            requires
                n >= 1,
                w == 50,
                cur == (n - 1) % w,
        ;
        assert forall|i: int| 0 <= i < WINDOW implies guard_run(pushes).0[i] == slot_model(
            pushes,
            i,
        ) by {
            if i == cur {
                assert((n - 1 - i) % w == 0) by (nonlinear_arith)
                    requires
                        i == (n - 1) % w,
                        n >= 1,
                        w == 50,
                ;
                assert(last_write(n, i) == n - 1);
            } else {
                assert(guard_run(pushes).0[i] == slot_model(prev, i));
                if i < n - 1 {
                    assert((n - 1 - i) % w != 0 && (n - 1 - i) % w == (n - 2 - i) % w + 1 && 0 <= (
                    n - 1 - i) % w <= n - 1 - i) by (nonlinear_arith)
                        requires
                            i != (n - 1) % w,
                            0 <= i < w,
                            i < n - 1,
                            w == 50,
                    ;
                    assert(last_write(n - 1, i) == last_write(n, i));
                    assert(slot_model(prev, i) == slot_model(pushes, i));
                } else {
                    assert(i != n - 1) by {
                        if i == n - 1 {
                            assert((n - 1) % w == n - 1) by (nonlinear_arith)
                                requires
                                    0 <= n - 1 < w,
                            ;
                        }
                    }
                    assert(slot_model(prev, i) == true);
                    assert(slot_model(pushes, i) == true);
                }
            }
        }
    }
}

/// Inactivity law: a fresh guard fed any sequence of pushes calls for a draw
/// exactly when at least a full window of pushes has happened and the most
/// recent window of them were all inactive; the initial `true` fill keeps a
/// short history from drawing.
pub proof fn lemma_guard_history(pushes: Seq<bool>)
    ensures
        !guard_run(pushes).0.contains(true) <==> (pushes.len() >= WINDOW && (forall|j: int|
            pushes.len() - WINDOW <= j < pushes.len() ==> !pushes[j])),
{
    let w = WINDOW as int;
    let n = pushes.len() as int;
    let slots = guard_run(pushes).0;
    lemma_guard_run_model(pushes);
    if n >= w && (forall|j: int| n - w <= j < n ==> !pushes[j]) {
        assert forall|i: int| 0 <= i < slots.len() implies slots[i] != true by {
            assert(0 <= (n - 1 - i) % w < w && (n - 1 - i) % w <= n - 1 - i) by (nonlinear_arith)
                requires
                    0 <= i < w,
                    n >= w,
                    w == 50,
            ;
            assert(n - w <= last_write(n, i) < n);
            assert(slots[i] == slot_model(pushes, i));
            assert(slot_model(pushes, i) == pushes[last_write(n, i)]);
            assert(!pushes[last_write(n, i)]);
        }
        assert(!slots.contains(true));
    }
    if !slots.contains(true) {
        assert(n >= w) by {
            if n < w {
                assert(slot_model(pushes, n) == true);
                assert(slots[n] == true);
                assert(slots.contains(true));
            }
        }
        assert forall|j: int| n - w <= j < n implies !pushes[j] by {
            let i = j % w;
            assert(0 <= i < w && (n - 1 - i) % w == n - 1 - j) by (nonlinear_arith)
                requires
                    n - w <= j < n,
                    n >= w,
                    i == j % w,
                    w == 50,
            ;
            assert(last_write(n, i) == j);
            assert(slots[i] == slot_model(pushes, i));
            assert(slot_model(pushes, i) == pushes[j]);
            assert(!slots[i]);
        }
    }
}

impl Default for Last50 {
    /// A fresh guard: cursor at the start, every slot `true`.
    fn default() -> (r: Last50)
        ensures
            r.well_formed(),
            r.cursor() == 0,
            r.slots() == Seq::new(WINDOW as nat, |i: int| true),
    {
        let mut data: Vec<bool> = Vec::new();
        let mut i: usize = 0;
        while i < WINDOW
            invariant
                i <= WINDOW,
                data@.len() == i,
                forall|j: int| 0 <= j < i ==> data@[j] == true,
            decreases WINDOW - i,
        {
            data.push(true);
            i += 1;
        }
        assert(data@ =~= Seq::new(WINDOW as nat, |i: int| true));
        Last50 { counter: 0, data }
    }
}

} // verus!
