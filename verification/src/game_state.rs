//! The board: a 3x3 grid of cell marks, stored row-major, plus the player
//! whose turn is next. Every mutation goes through `make_move`; `check_win`,
//! `is_draw` and `outcome` are pure readers.

use vstd::prelude::*;

verus! {

/// One player's mark. `X` moves first; `O` is the automated player.
#[derive(Clone, Copy, Debug, PartialEq, Eq, Structural)]
pub enum Player {
    X,
    O,
}

/// The player who moves after `p`.
pub open spec fn other(p: Player) -> Player {
    match p {
        Player::X => Player::O,
        Player::O => Player::X,
    }
}

/// What a board amounts to once the game is read off it: still open, won by
/// one player, or drawn with every cell occupied.
#[derive(Clone, Copy, Debug, PartialEq, Eq, Structural)]
pub enum Outcome {
    InProgress,
    Win(Player),
    Draw,
}

/// The owner of the line through cells `i`, `j`, `k`: the mark standing on
/// all three, if the three cells agree and are occupied.
pub open spec fn line_owner(b: Seq<Option<Player>>, i: int, j: int, k: int) -> Option<Player> {
    if b[i] is Some && b[i] == b[j] && b[j] == b[k] {
        b[i]
    } else {
        None
    }
}

/// `p` has three marks in a row: some row, column or diagonal is fully his.
pub open spec fn wins(b: Seq<Option<Player>>, p: Player) -> bool {
    ||| line_owner(b, 0, 1, 2) == Some(p)
    ||| line_owner(b, 3, 4, 5) == Some(p)
    ||| line_owner(b, 6, 7, 8) == Some(p)
    ||| line_owner(b, 0, 3, 6) == Some(p)
    ||| line_owner(b, 1, 4, 7) == Some(p)
    ||| line_owner(b, 2, 5, 8) == Some(p)
    ||| line_owner(b, 0, 4, 8) == Some(p)
    ||| line_owner(b, 2, 4, 6) == Some(p)
}

/// The winner `check_win` reports: the owner of the first completed line, the
/// eight lines taken in the order rows top to bottom, columns left to right,
/// then the main and the anti diagonal.
pub open spec fn winner(b: Seq<Option<Player>>) -> Option<Player> {
    if line_owner(b, 0, 1, 2) is Some {
        line_owner(b, 0, 1, 2)
    } else if line_owner(b, 3, 4, 5) is Some {
        line_owner(b, 3, 4, 5)
    } else if line_owner(b, 6, 7, 8) is Some {
        line_owner(b, 6, 7, 8)
    } else if line_owner(b, 0, 3, 6) is Some {
        line_owner(b, 0, 3, 6)
    } else if line_owner(b, 1, 4, 7) is Some {
        line_owner(b, 1, 4, 7)
    } else if line_owner(b, 2, 5, 8) is Some {
        line_owner(b, 2, 5, 8)
    } else if line_owner(b, 0, 4, 8) is Some {
        line_owner(b, 0, 4, 8)
    } else if line_owner(b, 2, 4, 6) is Some {
        line_owner(b, 2, 4, 6)
    } else {
        None
    }
}

/// Every cell is occupied.
pub open spec fn full(b: Seq<Option<Player>>) -> bool {
    forall|i: int| 0 <= i < 9 ==> b[i] is Some
}

/// How many of the cells from index `i` on are still empty.
pub open spec fn empty_count_from(b: Seq<Option<Player>>, i: int) -> nat
    decreases 9 - i,
{
    if i >= 9 {
        0
    } else {
        (if b[i] is None {
            1nat
        } else {
            0nat
        }) + empty_count_from(b, i + 1)
    }
}

/// How many cells of the board are still empty.
pub open spec fn empty_count(b: Seq<Option<Player>>) -> nat {
    empty_count_from(b, 0)
}

/// The board every game starts from: nine empty cells.
pub open spec fn empty_board() -> Seq<Option<Player>> {
    Seq::new(9, |i: int| None)
}

/// The outcome `outcome` reports: the first completed line's owner wins;
/// otherwise a full board is a draw and anything else is still in progress.
pub open spec fn outcome_of(b: Seq<Option<Player>>) -> Outcome {
    match winner(b) {
        Some(p) => Outcome::Win(p),
        None => if full(b) {
            Outcome::Draw
        } else {
            Outcome::InProgress
        },
    }
}

/// `empty_count_from` counts at most the cells it looks at.
proof fn lemma_empty_count_from_le(b: Seq<Option<Player>>, i: int)
    requires
        0 <= i <= 9,
    ensures
        empty_count_from(b, i) <= 9 - i,
    decreases 9 - i,
{
    if i < 9 {
        lemma_empty_count_from_le(b, i + 1);
    }
}

/// No empty cell is counted from `i` on exactly when every later cell is
/// occupied.
proof fn lemma_empty_count_from_zero(b: Seq<Option<Player>>, i: int)
    requires
        0 <= i <= 9,
    ensures
        (empty_count_from(b, i) == 0) <==> (forall|j: int| i <= j < 9 ==> b[j] is Some),
    decreases 9 - i,
{
    if i < 9 {
        lemma_empty_count_from_zero(b, i + 1);
    }
}

/// A board is full exactly when it has no empty cell left to count.
pub proof fn lemma_full_iff_no_empty(b: Seq<Option<Player>>)
    ensures
        full(b) <==> empty_count(b) == 0,
{
    lemma_empty_count_from_zero(b, 0);
}

/// Occupying the empty cell `j` removes it, and only it, from the count of
/// empties taken from `i` on.
proof fn lemma_empty_count_from_update(b: Seq<Option<Player>>, j: int, p: Player, i: int)
    requires
        b.len() == 9,
        0 <= j < 9,
        b[j] is None,
        0 <= i <= 9,
    ensures
        empty_count_from(b, i) == empty_count_from(b.update(j, Some(p)), i) + (if i <= j {
            1nat
        } else {
            0nat
        }),
    decreases 9 - i,
{
    if i < 9 {
        lemma_empty_count_from_update(b, j, p, i + 1);
    }
}

/// Occupying an empty cell lowers the number of empty cells by exactly one.
pub proof fn lemma_empty_count_update(b: Seq<Option<Player>>, j: int, p: Player)
    requires
        b.len() == 9,
        0 <= j < 9,
        b[j] is None,
    ensures
        empty_count(b.update(j, Some(p))) + 1 == empty_count(b),
{
    lemma_empty_count_from_update(b, j, p, 0);
}

/// The turn tag agrees with the move count: `X` is to move exactly when an
/// even number of cells is occupied, that is when an odd number of the nine
/// cells is still empty.
pub open spec fn turn_consistent(s: GameState) -> bool {
    (s.current_player == Player::X) <==> (empty_count(s.board@) % 2 == 1)
}

/// The mark a search node places: `O` while maximizing, `X` while minimizing.
pub open spec fn search_mark(maximizing: bool) -> Player {
    if maximizing {
        Player::O
    } else {
        Player::X
    }
}

/// The minimax value of the board, `depth` plies below the search's root. A
/// position won for `X` counts `-10 + depth` and one won for `O` counts
/// `10 - depth`, so quicker wins and slower losses score better; a full board
/// without a winner counts zero. Anywhere else the value is the best over the
/// empty cells — the greatest continuation when `maximizing` places `O`, the
/// least when its opponent places `X`.
pub open spec fn minimax_spec(b: Seq<Option<Player>>, depth: int, maximizing: bool) -> int
    decreases empty_count(b), 10int,
{
    match winner(b) {
        Some(Player::X) => -10 + depth,
        Some(Player::O) => 10 - depth,
        None => if full(b) {
            0
        } else {
            search_from(b, depth, maximizing, 0)
        },
    }
}

/// The best value over the empty cells at index `i` or later, each tried with
/// the searching side's mark; over no cell at all it degenerates to the
/// identity of the fold, `i32::MIN` for a maximizer and `i32::MAX` for a
/// minimizer.
pub open spec fn search_from(b: Seq<Option<Player>>, depth: int, maximizing: bool, i: int) -> int
    decreases empty_count(b), 9 - i,
    via search_from_decreases
{
    if b.len() != 9 || !(0 <= i < 9) {
        if maximizing {
            i32::MIN as int
        } else {
            i32::MAX as int
        }
    } else if b[i] is None {
        let child = minimax_spec(b.update(i, Some(search_mark(maximizing))), depth + 1, !maximizing);
        let rest = search_from(b, depth, maximizing, i + 1);
        if maximizing {
            if child > rest {
                child
            } else {
                rest
            }
        } else {
            if child < rest {
                child
            } else {
                rest
            }
        }
    } else {
        search_from(b, depth, maximizing, i + 1)
    }
}

#[via_fn]
proof fn search_from_decreases(b: Seq<Option<Player>>, depth: int, maximizing: bool, i: int) {
    if b.len() == 9 && 0 <= i < 9 && b[i] is None {
        lemma_empty_count_update(b, i, search_mark(maximizing));
    }
}

/// One step of the fold both searches run: keep the greater of the best value
/// so far and the candidate while maximizing, the lesser while minimizing.
pub open spec fn fold_step(maximizing: bool, acc: int, v: int) -> int {
    if maximizing {
        if v > acc {
            v
        } else {
            acc
        }
    } else {
        if v < acc {
            v
        } else {
            acc
        }
    }
}

/// The search over the cells from `i` on stays within `i32`; it only touches
/// its minimizing sentinel `i32::MAX` when no empty cell is left to it, and
/// its maximizing sentinel `i32::MIN` likewise.
proof fn lemma_search_in_range(b: Seq<Option<Player>>, depth: int, maximizing: bool, i: int)
    requires
        b.len() == 9,
        0 <= depth,
        depth + empty_count(b) <= i32::MAX,
        0 <= i <= 9,
    ensures
        i32::MIN <= search_from(b, depth, maximizing, i) <= i32::MAX,
        !maximizing ==> i32::MIN < search_from(b, depth, maximizing, i),
        (maximizing && (exists|j: int| i <= j < 9 && b[j] is None)) ==> i32::MIN < search_from(
            b,
            depth,
            maximizing,
            i,
        ),
    decreases empty_count(b), 9 - i,
{
    if i < 9 {
        if b[i] is None {
            lemma_empty_count_update(b, i, search_mark(maximizing));
            lemma_minimax_in_range(b.update(i, Some(search_mark(maximizing))), depth + 1, !maximizing);
        }
        lemma_search_in_range(b, depth, maximizing, i + 1);
    }
}

/// The minimax value of any board fits strictly between `i32::MIN` and
/// `i32::MAX`, so the running best of the searches never mistakes a real
/// value for a sentinel.
pub proof fn lemma_minimax_in_range(b: Seq<Option<Player>>, depth: int, maximizing: bool)
    requires
        b.len() == 9,
        0 <= depth,
        depth + empty_count(b) <= i32::MAX,
    ensures
        i32::MIN < minimax_spec(b, depth, maximizing) <= i32::MAX,
    decreases empty_count(b), 10int,
{
    if winner(b) is None && !full(b) {
        lemma_full_iff_no_empty(b);
        lemma_search_in_range(b, depth, maximizing, 0);
    }
}

/// What each outcome means on the board, cell by cell: the game is in
/// progress exactly when some cell is empty and no line of three equal marks
/// exists; a player has won exactly when some row, column or diagonal is
/// fully his; the game is drawn exactly when all nine cells are occupied and
/// no line is won. A board on which both players have completed a line — a
/// position only reached by playing on past a finished game — reports the
/// winner owning the earliest line and is left out here.
pub proof fn lemma_outcome_characterization(b: Seq<Option<Player>>)
    requires
        !(wins(b, Player::X) && wins(b, Player::O)),
    ensures
        (outcome_of(b) == Outcome::InProgress) <==> (empty_count(b) > 0 && !wins(b, Player::X)
            && !wins(b, Player::O)),
        (outcome_of(b) == Outcome::Win(Player::X)) <==> wins(b, Player::X),
        (outcome_of(b) == Outcome::Win(Player::O)) <==> wins(b, Player::O),
        (outcome_of(b) == Outcome::Draw) <==> (empty_count(b) == 0 && !wins(b, Player::X) && !wins(
            b,
            Player::O,
        )),
{
    lemma_full_iff_no_empty(b);
}

/// A freshly cleared board is in progress with all nine cells empty.
pub proof fn lemma_empty_board_in_progress()
    ensures
        outcome_of(empty_board()) == Outcome::InProgress,
        empty_count(empty_board()) == 9,
{
    assert(empty_count_from(empty_board(), 0) == 9) by {
        reveal_with_fuel(empty_count_from, 10);
    };
}

/// Classifying a board reads nothing but the board: two reads of the same
/// position agree, so repeated calls of `outcome` with no move between them
/// return the same value.
pub proof fn lemma_outcome_stable(b1: Seq<Option<Player>>, b2: Seq<Option<Player>>)
    requires
        b1 == b2,
    ensures
        outcome_of(b1) == outcome_of(b2),
{
}

/// The value the engine gives to answering with the empty cell `k`: the
/// minimax value of the board after `O` takes that cell, with the opponent to
/// reply first at depth zero.
pub open spec fn move_score(b: Seq<Option<Player>>, k: int) -> int {
    minimax_spec(b.update(k, Some(Player::O)), 0, false)
}

/// Cell `k` is the answer `best_move` owes: an empty cell whose score no
/// empty cell beats and which strictly beats every earlier empty cell, so a
/// tie falls to the earliest cell in row-major order.
pub open spec fn is_best_choice(b: Seq<Option<Player>>, k: int) -> bool {
    &&& 0 <= k < 9
    &&& b[k] is None
    &&& forall|j: int| 0 <= j < 9 && b[j] is None ==> move_score(b, j) <= move_score(b, k)
    &&& forall|j: int| 0 <= j < k && b[j] is None ==> move_score(b, j) < move_score(b, k)
}

/// Only one cell of a board can be the best choice: the engine's answer is
/// deterministic.
pub proof fn lemma_best_choice_unique(b: Seq<Option<Player>>, k1: int, k2: int)
    requires
        is_best_choice(b, k1),
        is_best_choice(b, k2),
    ensures
        k1 == k2,
{
    if k1 < k2 {
        assert(move_score(b, k1) < move_score(b, k2));
        assert(move_score(b, k2) <= move_score(b, k1));
    }
    if k2 < k1 {
        assert(move_score(b, k2) < move_score(b, k1));
        assert(move_score(b, k1) <= move_score(b, k2));
    }
}

/// The 3x3 grid, row-major: the cell at `row`, `col` is `board[3 * row + col]`.
/// `current_player` is the mark the next successful move places.
#[derive(Clone, Copy)]
pub struct GameState {
    pub board: [Option<Player>; 9],
    pub current_player: Player,
}

impl GameState {
    /// Occupies the addressed cell with the current player's mark and flips
    /// the turn, or rejects the move when the cell is already occupied.
    pub fn make_move(&mut self, row: usize, col: usize) -> (moved: bool)
        requires
            row < 3,
            col < 3,
        ensures
            moved == (old(self).board@[3 * row + col] is None),
            moved ==> final(self).board@ == old(self).board@.update(
                3 * row + col,
                Some(old(self).current_player),
            ),
            moved ==> final(self).current_player == other(old(self).current_player),
            !moved ==> *final(self) == *old(self),
            turn_consistent(*old(self)) ==> turn_consistent(*final(self)),
    {
        let idx: usize = 3 * row + col;
        if self.board[idx].is_none() {
            proof {
                lemma_empty_count_update(self.board@, idx as int, self.current_player);
            }
            self.board[idx] = Some(self.current_player);
            self.current_player = match self.current_player {
                Player::X => Player::O,
                Player::O => Player::X,
            };
            true
        } else {
            false
        }
    }

    /// The move that is optimal for the automated player `O`: each empty cell
    /// is tried in row-major order and scored by `minimax` with the opponent
    /// to reply, and the first cell with the strictly greatest score is
    /// returned as its row and column. A board with no empty cell has no move
    /// to offer.
    #[verifier::loop_isolation(false)]
    pub fn best_move(&self) -> (mv: Option<(usize, usize)>)
        ensures
            mv is None <==> full(self.board@),
            mv matches Some(rc) ==> rc.0 < 3 && rc.1 < 3 && is_best_choice(
                self.board@,
                3 * rc.0 + rc.1,
            ),
    {
        let mut best_score: i32 = i32::MIN;
        let mut best: Option<(usize, usize)> = None;
        let mut i: usize = 0;
        while i < 9
            invariant
                i <= 9,
                best is None ==> best_score == i32::MIN && (forall|j: int|
                    0 <= j < i ==> self.board@[j] is Some),
                best matches Some(rc) ==> rc.0 < 3 && rc.1 < 3 && ({
                    let k = 3 * rc.0 + rc.1;
                    &&& k < i
                    &&& self.board@[k] is None
                    &&& best_score == move_score(self.board@, k)
                    &&& forall|j: int|
                        0 <= j < i && self.board@[j] is None ==> move_score(self.board@, j)
                            <= best_score
                    &&& forall|j: int|
                        0 <= j < k && self.board@[j] is None ==> move_score(self.board@, j)
                            < best_score
                }),
            decreases 9 - i,
        {
            if self.board[i].is_none() {
                proof {
                    lemma_empty_count_from_le(self.board@, 0);
                    lemma_empty_count_update(self.board@, i as int, Player::O);
                    lemma_minimax_in_range(self.board@.update(i as int, Some(Player::O)), 0, false);
                }
                let mut board_copy = self.clone();
                board_copy.board[i] = Some(Player::O);
                let score = board_copy.minimax(0, false);
                if score > best_score {
                    best_score = score;
                    best = Some((i / 3, i % 3));
                }
            }
            i += 1;
        }
        best
    }

    /// The exhaustive game-tree search: returns the minimax value of this
    /// board, `depth` plies below the root of the search, maximizing for `O`
    /// or minimizing for `X` as asked. Every continuation is explored on a
    /// private copy; the board itself is left untouched.
    #[verifier::loop_isolation(false)]
    pub fn minimax(&self, depth: i32, is_maximizing: bool) -> (score: i32)
        requires
            0 <= depth,
            depth + empty_count(self.board@) <= i32::MAX,
        ensures
            score == minimax_spec(self.board@, depth as int, is_maximizing),
        decreases empty_count(self.board@),
    {
        match self.check_win() {
            Some(Player::X) => {
                return -10 + depth;
            },
            Some(Player::O) => {
                return 10 - depth;
            },
            None => {},
        }
        if self.is_draw() {
            return 0;
        }
        proof {
            lemma_search_in_range(self.board@, depth as int, is_maximizing, 0);
        }
        let mut best: i32 = if is_maximizing {
            i32::MIN
        } else {
            i32::MAX
        };
        let mut i: usize = 0;
        while i < 9
            invariant
                i <= 9,
                fold_step(
                    is_maximizing,
                    best as int,
                    search_from(self.board@, depth as int, is_maximizing, i as int),
                ) == search_from(self.board@, depth as int, is_maximizing, 0),
            decreases 9 - i,
        {
            if self.board[i].is_none() {
                proof {
                    lemma_empty_count_update(self.board@, i as int, search_mark(is_maximizing));
                }
                let mut board_copy = self.clone();
                board_copy.board[i] = if is_maximizing {
                    Some(Player::O)
                } else {
                    Some(Player::X)
                };
                let score = board_copy.minimax(depth + 1, !is_maximizing);
                if is_maximizing {
                    if score > best {
                        best = score;
                    }
                } else {
                    if score < best {
                        best = score;
                    }
                }
            }
            i += 1;
        }
        best
    }

    /// The mark on the cell at `row`, `col`, for a presentation layer that
    /// draws the grid.
    pub fn cell(&self, row: usize, col: usize) -> (c: Option<Player>)
        requires
            row < 3,
            col < 3,
        ensures
            c == self.board@[3 * row + col],
    {
        self.board[3 * row + col]
    }

    /// The mark on the line through cells `i`, `j`, `k`, if all three agree.
    fn line_winner(&self, i: usize, j: usize, k: usize) -> (w: Option<Player>)
        requires
            i < 9,
            j < 9,
            k < 9,
        ensures
            w == line_owner(self.board@, i as int, j as int, k as int),
    {
        if let (Some(a), Some(b), Some(c)) = (self.board[i], self.board[j], self.board[k]) {
            if a == b && b == c {
                return Some(a);
            }
        }
        None
    }

    /// Reports the player owning the first completed line, the three rows
    /// first, then the three columns, then the two diagonals.
    pub fn check_win(&self) -> (w: Option<Player>)
        ensures
            w == winner(self.board@),
    {
        if let Some(p) = self.line_winner(0, 1, 2) {
            return Some(p);
        }
        if let Some(p) = self.line_winner(3, 4, 5) {
            return Some(p);
        }
        if let Some(p) = self.line_winner(6, 7, 8) {
            return Some(p);
        }
        if let Some(p) = self.line_winner(0, 3, 6) {
            return Some(p);
        }
        if let Some(p) = self.line_winner(1, 4, 7) {
            return Some(p);
        }
        if let Some(p) = self.line_winner(2, 5, 8) {
            return Some(p);
        }
        if let Some(p) = self.line_winner(0, 4, 8) {
            return Some(p);
        }
        if let Some(p) = self.line_winner(2, 4, 6) {
            return Some(p);
        }
        None
    }

    /// True exactly when every cell is occupied; a full board with no winner
    /// is a draw.
    pub fn is_draw(&self) -> (d: bool)
        ensures
            d == full(self.board@),
    {
        let mut i: usize = 0;
        while i < 9
            invariant
                i <= 9,
                forall|j: int| 0 <= j < i ==> self.board@[j] is Some,
            decreases 9 - i,
        {
            if self.board[i].is_none() {
                return false;
            }
            i += 1;
        }
        true
    }

    /// Classifies the board: a win for the first completed line's owner, a
    /// draw when the board is full without one, and in progress otherwise.
    pub fn outcome(&self) -> (o: Outcome)
        ensures
            o == outcome_of(self.board@),
    {
        match self.check_win() {
            Some(p) => Outcome::Win(p),
            None => if self.is_draw() {
                Outcome::Draw
            } else {
                Outcome::InProgress
            },
        }
    }

    /// Clears every cell and hands the first move back to `X`.
    pub fn clean_board(&mut self)
        ensures
            final(self).board@ == empty_board(),
            final(self).current_player == Player::X,
            turn_consistent(*final(self)),
    {
        self.board = [None; 9];
        self.current_player = Player::X;
        proof {
            assert(self.board@ =~= empty_board());
            lemma_empty_board_in_progress();
        }
    }
}

impl Default for GameState {
    /// The starting position: an empty board with `X` to move.
    fn default() -> (s: Self)
        ensures
            s.board@ == empty_board(),
            s.current_player == Player::X,
            turn_consistent(s),
    {
        let s = GameState { board: [None; 9], current_player: Player::X };
        proof {
            assert(s.board@ =~= empty_board());
            lemma_empty_board_in_progress();
        }
        s
    }
}

} // verus!
