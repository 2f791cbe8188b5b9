//! The game-state engine: board representation, turn alternation, and
//! win/draw detection for three-in-a-row on a 3x3 grid.

use vstd::prelude::*;

verus! {

/// The content of one board cell: empty, or one of the two players' marks.
/// `PlayerA` moves first.
#[derive(Clone, Copy, PartialEq, Eq, Structural, Debug)]
pub enum Cell {
    Empty,
    PlayerA,
    PlayerB,
}

/// The player whose turn follows `c`'s.
pub open spec fn other_player(c: Cell) -> Cell {
    if c == Cell::PlayerA {
        Cell::PlayerB
    } else {
        Cell::PlayerA
    }
}

/// The player to move after `n` accepted moves, starting from `PlayerA`.
pub open spec fn turn_after(n: nat) -> Cell
    decreases n,
{
    if n == 0 {
        Cell::PlayerA
    } else {
        other_player(turn_after((n - 1) as nat))
    }
}

/// `(r, c)` is a valid board coordinate.
pub open spec fn in_range(r: int, c: int) -> bool {
    0 <= r < 3 && 0 <= c < 3
}

/// The row of the `i`-th cell of candidate line `k`.
///
/// The eight candidate lines are numbered in the fixed evaluation order:
/// rows 0, 1, 2, then columns 0, 1, 2, then the two diagonals — first
/// top-left to bottom-right, then top-right to bottom-left.
pub open spec fn line_row(k: int, i: int) -> int {
    if k < 3 {
        k
    } else if k < 6 {
        i
    } else {
        i
    }
}

/// The column of the `i`-th cell of candidate line `k`.
pub open spec fn line_col(k: int, i: int) -> int {
    if k < 3 {
        i
    } else if k < 6 {
        k - 3
    } else if k == 6 {
        i
    } else {
        2 - i
    }
}

/// The coordinates of candidate line `k`, as (row, column) pairs in order.
pub open spec fn line_coords(k: int) -> Seq<(usize, usize)> {
    Seq::new(3, |i: int| (line_row(k, i) as usize, line_col(k, i) as usize))
}

/// The state of one game: a 3x3 board and the player to move next.
pub struct Game {
    /// Row-major cells: the cell at `(r, c)` sits at index `r * 3 + c`.
    board: Vec<Cell>,
    /// The player whose move is next.
    turn: Cell,
    /// How many moves have been accepted so far.
    moves: Ghost<nat>,
}

impl Game {
    /// The cell at row `r`, column `c`.
    pub closed spec fn cell(self, r: int, c: int) -> Cell {
        self.board@[r * 3 + c]
    }

    /// The player to move next.
    pub closed spec fn spec_turn(self) -> Cell {
        self.turn
    }

    /// How many moves have been accepted since the game started.
    pub closed spec fn moves_made(self) -> nat {
        self.moves@
    }

    /// Well-formedness: the board holds exactly nine cells, and the turn
    /// indicator agrees with the number of accepted moves.
    pub closed spec fn wf(self) -> bool {
        &&& self.board@.len() == 9
        &&& self.turn == turn_after(self.moves@)
    }

    /// Constructs a fresh game: an all-empty board, `PlayerA` to move.
    pub fn new() -> (g: Game)
        ensures
            g.wf(),
            g.moves_made() == 0,
            g.spec_turn() == Cell::PlayerA,
            forall|r: int, c: int| in_range(r, c) ==> #[trigger] g.cell(r, c) == Cell::Empty,
    {
        let mut board: Vec<Cell> = Vec::new();
        let mut i: usize = 0;
        while i < 9
            invariant
                i <= 9,
                board@.len() == i,
                forall|j: int| 0 <= j < i ==> board@[j] == Cell::Empty,
            decreases 9 - i,
        {
            board.push(Cell::Empty);
            i = i + 1;
        }
        Game { board, turn: Cell::PlayerA, moves: Ghost(0) }
    }

    /// The player to move next.
    pub fn turn(&self) -> (t: Cell)
        ensures
            t == self.spec_turn(),
    {
        self.turn
    }

    /// The cell at `(row, col)`, for rendering.
    pub fn cell_at(&self, row: usize, col: usize) -> (c: Cell)
        requires
            self.wf(),
            row < 3,
            col < 3,
        ensures
            c == self.cell(row as int, col as int),
    {
        self.board[row * 3 + col]
    }

    /// A read-only snapshot of the board, row-major: the cell at `(r, c)`
    /// sits at index `r * 3 + c`.
    pub fn board(&self) -> (b: Vec<Cell>)
        requires
            self.wf(),
        ensures
            b@.len() == 9,
            forall|r: int, c: int| in_range(r, c) ==> b@[r * 3 + c] == #[trigger] self.cell(r, c),
    {
        let mut b: Vec<Cell> = Vec::new();
        let mut i: usize = 0;
        while i < 9
            invariant
                self.wf(),
                i <= 9,
                b@.len() == i,
                forall|j: int| 0 <= j < i ==> b@[j] == self.board@[j],
            decreases 9 - i,
        {
            b.push(self.board[i]);
            i = i + 1;
        }
        b
    }

    /// The mark in the first cell of candidate line `k`.
    pub open spec fn line_symbol(self, k: int) -> Cell {
        self.cell(line_row(k, 0), line_col(k, 0))
    }

    /// Candidate line `k` is complete: all three of its cells hold the same
    /// non-empty mark.
    pub open spec fn line_is_win(self, k: int) -> bool {
        &&& self.line_symbol(k) != Cell::Empty
        &&& self.cell(line_row(k, 1), line_col(k, 1)) == self.line_symbol(k)
        &&& self.cell(line_row(k, 2), line_col(k, 2)) == self.line_symbol(k)
    }

    /// Some candidate line is complete.
    pub open spec fn spec_is_winner(self) -> bool {
        exists|k: int| 0 <= k < 8 && self.line_is_win(k)
    }

    /// Every cell of the board is occupied.
    pub open spec fn spec_full(self) -> bool {
        forall|r: int, c: int| in_range(r, c) ==> #[trigger] self.cell(r, c) != Cell::Empty
    }

    /// The game is drawn: the board is full and no line is complete.
    pub open spec fn spec_is_draw(self) -> bool {
        self.spec_full() && !self.spec_is_winner()
    }

    /// Attempts a move at `(row, col)` for the player whose turn it is.
    ///
    /// The move is accepted exactly when the coordinate is on the board and
    /// the target cell is empty: the cell then takes the mover's mark and the
    /// turn passes to the other player. Any other call — an occupied cell, or
    /// an out-of-range coordinate — leaves the state exactly as it was.
    pub fn make_move(&mut self, row: usize, col: usize)
        requires
            old(self).wf(),
        ensures
            final(self).wf(),
            if row < 3 && col < 3 && old(self).cell(row as int, col as int) == Cell::Empty {
                &&& final(self).cell(row as int, col as int) == old(self).spec_turn()
                &&& forall|r: int, c: int|
                    in_range(r, c) && !(r == row && c == col) ==> #[trigger] final(self).cell(r, c)
                        == old(self).cell(r, c)
                &&& final(self).spec_turn() == other_player(old(self).spec_turn())
                &&& final(self).moves_made() == old(self).moves_made() + 1
            } else {
                *final(self) == *old(self)
            },
    {
        if row < 3 && col < 3 {
            let idx: usize = row * 3 + col;
            if self.board[idx] == Cell::Empty {
                self.board[idx] = self.turn;
                self.turn = if self.turn == Cell::PlayerA {
                    Cell::PlayerB
                } else {
                    Cell::PlayerA
                };
                self.moves = Ghost(self.moves@ + 1);
            }
        }
    }

    /// The `i`-th coordinate of candidate line `k`.
    fn coord_of(k: usize, i: usize) -> (rc: (usize, usize))
        requires
            k < 8,
            i < 3,
        ensures
            rc.0 == line_row(k as int, i as int),
            rc.1 == line_col(k as int, i as int),
    {
        if k < 3 {
            (k, i)
        } else if k < 6 {
            (i, k - 3)
        } else if k == 6 {
            (i, i)
        } else {
            (i, 2 - i)
        }
    }

    /// The coordinates of candidate line `k`, in order.
    fn line_array(k: usize) -> (a: [(usize, usize); 3])
        requires
            k < 8,
        ensures
            a@ == line_coords(k as int),
    {
        let a = [Self::coord_of(k, 0), Self::coord_of(k, 1), Self::coord_of(k, 2)];
        proof {
            assert(a@ =~= line_coords(k as int));
        }
        a
    }

    /// Whether candidate line `k` is complete, and for which mark.
    fn line_win_symbol(&self, k: usize) -> (r: Option<Cell>)
        requires
            self.wf(),
            k < 8,
        ensures
            match r {
                Some(sym) => self.line_is_win(k as int) && sym == self.line_symbol(k as int),
                None => !self.line_is_win(k as int),
            },
    {
        let (r0, c0) = Self::coord_of(k, 0);
        let (r1, c1) = Self::coord_of(k, 1);
        let (r2, c2) = Self::coord_of(k, 2);
        let s0 = self.cell_at(r0, c0);
        let s1 = self.cell_at(r1, c1);
        let s2 = self.cell_at(r2, c2);
        if s0 != Cell::Empty && s1 == s0 && s2 == s0 {
            Some(s0)
        } else {
            None
        }
    }

    /// Scans the eight candidate lines in the fixed order — rows by
    /// increasing index, then columns by increasing index, then the two
    /// diagonals — and returns the first complete one, paired with the mark
    /// that occupies it; `None` when no line is complete.
    pub fn check_win(&self) -> (r: Option<(Cell, [(usize, usize); 3])>)
        requires
            self.wf(),
        ensures
            r is None ==> !self.spec_is_winner(),
            r matches Some((sym, line)) ==> exists|k: int|
                {
                    &&& 0 <= k < 8
                    &&& #[trigger] self.line_is_win(k)
                    &&& forall|j: int| 0 <= j < k ==> !self.line_is_win(j)
                    &&& sym == self.line_symbol(k)
                    &&& line@ == line_coords(k)
                },
    {
        let mut k: usize = 0;
        while k < 8
            invariant
                self.wf(),
                k <= 8,
                forall|j: int| 0 <= j < k ==> !self.line_is_win(j),
            decreases 8 - k,
        {
            match self.line_win_symbol(k) {
                Some(sym) => {
                    let line = Self::line_array(k);
                    return Some((sym, line));
                },
                None => {},
            }
            k = k + 1;
        }
        None
    }

    /// Whether some line is complete.
    pub fn is_winner(&self) -> (b: bool)
        requires
            self.wf(),
        ensures
            b == self.spec_is_winner(),
    {
        self.check_win().is_some()
    }

    /// Whether the game is drawn: every cell occupied and no line complete.
    pub fn is_draw(&self) -> (b: bool)
        requires
            self.wf(),
        ensures
            b == self.spec_is_draw(),
    {
        if self.is_winner() {
            return false;
        }
        let mut row: usize = 0;
        while row < 3
            invariant
                self.wf(),
                row <= 3,
                !self.spec_is_winner(),
                forall|r: int, c: int|
                    0 <= r < row && 0 <= c < 3 ==> self.cell(r, c) != Cell::Empty,
            decreases 3 - row,
        {
            let mut col: usize = 0;
            while col < 3
                invariant
                    self.wf(),
                    row < 3,
                    col <= 3,
                    !self.spec_is_winner(),
                    forall|r: int, c: int|
                        0 <= r < row && 0 <= c < 3 ==> self.cell(r, c) != Cell::Empty,
                    forall|c: int| 0 <= c < col ==> self.cell(row as int, c) != Cell::Empty,
                decreases 3 - col,
            {
                if self.cell_at(row, col) == Cell::Empty {
                    assert(!self.spec_full()) by {
                        assert(in_range(row as int, col as int)
                            && self.cell(row as int, col as int) == Cell::Empty);
                    }
                    return false;
                }
                col = col + 1;
            }
            row = row + 1;
        }
        true
    }
}

proof fn lemma_turn_after_parity(n: nat)
    ensures
        turn_after(n) == if n % 2 == 0 {
            Cell::PlayerA
        } else {
            Cell::PlayerB
        },
    decreases n,
{
    if n > 0 {
        lemma_turn_after_parity((n - 1) as nat);
    }
}

/// Law: after `n` accepted moves, the player to move is `PlayerA` exactly
/// when `n` is even, and `PlayerB` exactly when `n` is odd.
pub proof fn lemma_turn_parity(g: Game)
    requires
        g.wf(),
    ensures
        g.spec_turn() == if g.moves_made() % 2 == 0 {
            Cell::PlayerA
        } else {
            Cell::PlayerB
        },
{
    lemma_turn_after_parity(g.moves_made());
}

/// Law: no board is both drawn and won — a draw requires that no line is
/// complete.
pub proof fn lemma_draw_and_win_exclusive(g: Game)
    ensures
        !(g.spec_is_draw() && g.spec_is_winner()),
{
}

/// Law: a complete candidate line consists of exactly three pairwise
/// distinct on-board coordinates, all holding the same non-empty mark —
/// the one `check_win` reports for it.
pub proof fn lemma_winning_line_valid(g: Game, k: int)
    requires
        g.wf(),
        0 <= k < 8,
        g.line_is_win(k),
    ensures
        line_coords(k).len() == 3,
        g.line_symbol(k) != Cell::Empty,
        forall|i: int| 0 <= i < 3 ==> in_range(line_coords(k)[i].0 as int, line_coords(k)[i].1 as int),
        forall|i: int|
            0 <= i < 3 ==> g.cell(line_coords(k)[i].0 as int, line_coords(k)[i].1 as int)
                == g.line_symbol(k),
        forall|i: int, j: int|
            0 <= i < 3 && 0 <= j < 3 && i != j ==> line_coords(k)[i] != line_coords(k)[j],
{
}

} // verus!
