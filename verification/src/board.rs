use vstd::prelude::*;

verus! {

/// One of the two players of a game.
#[derive(Clone, Copy, PartialEq, Eq, Structural, Debug)]
pub enum PlayerId {
    Player1,
    Player2,
}

impl PlayerId {
    /// The position of this player in the game's player table.
    pub open spec fn spec_index(self) -> int {
        match self {
            PlayerId::Player1 => 0,
            PlayerId::Player2 => 1,
        }
    }

    /// The position of this player in the game's player table
    /// (also the position of its symbol among the symbol images).
    pub fn index(&self) -> (i: usize)
        ensures
            i == self.spec_index(),
    {
        match self {
            PlayerId::Player1 => 0,
            PlayerId::Player2 => 1,
        }
    }

    /// The number shown to the players: 1 or 2.
    pub fn number(&self) -> (n: u32)
        ensures
            n == self.spec_index() + 1,
    {
        match self {
            PlayerId::Player1 => 1,
            PlayerId::Player2 => 2,
        }
    }
}

/// The player whose position in the player table is `i` (0 or 1).
pub open spec fn player_at(i: int) -> PlayerId {
    if i == 0 {
        PlayerId::Player1
    } else {
        PlayerId::Player2
    }
}

/// The three cells of the `k`-th winning line (rows, then columns, then
/// the two diagonals), cells being numbered row by row from 0 to 8.
pub open spec fn win_line(k: int) -> (int, int, int) {
    if k == 0 {
        (0, 1, 2)
    } else if k == 1 {
        (3, 4, 5)
    } else if k == 2 {
        (6, 7, 8)
    } else if k == 3 {
        (0, 3, 6)
    } else if k == 4 {
        (1, 4, 7)
    } else if k == 5 {
        (2, 5, 8)
    } else if k == 6 {
        (0, 4, 8)
    } else {
        (2, 4, 6)
    }
}

/// `p` holds all three cells of the `k`-th winning line of `g`.
pub open spec fn owns_line(g: Seq<Option<PlayerId>>, p: PlayerId, k: int) -> bool {
    let (a, b, c) = win_line(k);
    g[a] == Some(p) && g[b] == Some(p) && g[c] == Some(p)
}

/// `p` holds a full row, column or diagonal of `g`.
pub open spec fn has_won(g: Seq<Option<PlayerId>>, p: PlayerId) -> bool {
    exists|k: int| 0 <= k < 8 && #[trigger] owns_line(g, p, k)
}

/// Every cell of `g` holds a mark.
pub open spec fn is_full(g: Seq<Option<PlayerId>>) -> bool {
    forall|i: int| 0 <= i < 9 ==> (#[trigger] g[i]) is Some
}

/// Every cell of `g` is free.
pub open spec fn is_empty(g: Seq<Option<PlayerId>>) -> bool {
    g.len() == 9 && forall|i: int| 0 <= i < 9 ==> (#[trigger] g[i]) is None
}

/// The number of cells among the first `n` cells of `g` that hold `p`'s mark.
pub open spec fn marks(g: Seq<Option<PlayerId>>, p: PlayerId, n: int) -> int
    decreases n,
{
    if n <= 0 {
        0
    } else {
        marks(g, p, n - 1) + if g[n - 1] == Some(p) {
            1int
        } else {
            0int
        }
    }
}

/// The 3x3 board: cell `3 * row + column` holds the mark of the player who
/// took it, or nothing.
#[derive(Clone, Copy)]
pub struct Grid {
    pub grid: [Option<PlayerId>; 9],
}

impl View for Grid {
    type V = Seq<Option<PlayerId>>;

    open spec fn view(&self) -> Seq<Option<PlayerId>> {
        self.grid@
    }
}

/// The cell holds `p`'s mark.
pub fn holds(cell: Option<PlayerId>, p: PlayerId) -> (r: bool)
    ensures
        r == (cell == Some(p)),
{
    match cell {
        Some(q) => q == p,
        None => false,
    }
}

impl Grid {
    /// An empty board: no cell is taken, the board is not full and nobody
    /// has won on it.
    pub fn new() -> (g: Grid)
        ensures
            is_empty(g@),
            !is_full(g@),
            !has_won(g@, PlayerId::Player1),
            !has_won(g@, PlayerId::Player2),
    {
        let g = Grid { grid: [None; 9] };
        assert(g@[0] is None);
        g
    }

    /// Whether every cell holds a mark.
    pub fn is_full(&self) -> (r: bool)
        ensures
            r == is_full(self@),
    {
        let mut i: usize = 0;
        while i < 9
            invariant
                i <= 9,
                forall|j: int| 0 <= j < i ==> (#[trigger] self@[j]) is Some,
            decreases 9 - i,
        {
            if self.grid[i].is_none() {
                return false;
            }
            i = i + 1;
        }
        true
    }
}

/// A player and whether it has placed its mark since its turn began.
#[derive(Clone, Copy)]
pub struct Player {
    pub id: PlayerId,
    pub played: bool,
}

impl Player {
    /// A player that has not played yet.
    pub fn new(id: PlayerId) -> (p: Player)
        ensures
            p.id == id,
            !p.played,
    {
        Player { id: id, played: false }
    }

    /// Whether this player holds a full row, column or diagonal of `grid`.
    pub fn has_won(&self, grid: &Grid) -> (r: bool)
        ensures
            r == has_won(grid@, self.id),
    {
        let g = &grid.grid;
        let p = self.id;
        let r = (holds(g[0], p) && holds(g[1], p) && holds(g[2], p))
            || (holds(g[3], p) && holds(g[4], p) && holds(g[5], p))
            || (holds(g[6], p) && holds(g[7], p) && holds(g[8], p))
            || (holds(g[0], p) && holds(g[3], p) && holds(g[6], p))
            || (holds(g[1], p) && holds(g[4], p) && holds(g[7], p))
            || (holds(g[2], p) && holds(g[5], p) && holds(g[8], p))
            || (holds(g[0], p) && holds(g[4], p) && holds(g[8], p))
            || (holds(g[2], p) && holds(g[4], p) && holds(g[6], p));
        proof {
            let s = grid@;
            assert(owns_line(s, p, 0) == (s[0] == Some(p) && s[1] == Some(p) && s[2] == Some(p)));
            assert(owns_line(s, p, 1) == (s[3] == Some(p) && s[4] == Some(p) && s[5] == Some(p)));
            assert(owns_line(s, p, 2) == (s[6] == Some(p) && s[7] == Some(p) && s[8] == Some(p)));
            assert(owns_line(s, p, 3) == (s[0] == Some(p) && s[3] == Some(p) && s[6] == Some(p)));
            assert(owns_line(s, p, 4) == (s[1] == Some(p) && s[4] == Some(p) && s[7] == Some(p)));
            assert(owns_line(s, p, 5) == (s[2] == Some(p) && s[5] == Some(p) && s[8] == Some(p)));
            assert(owns_line(s, p, 6) == (s[0] == Some(p) && s[4] == Some(p) && s[8] == Some(p)));
            assert(owns_line(s, p, 7) == (s[2] == Some(p) && s[4] == Some(p) && s[6] == Some(p)));
        }
        r
    }
}


/// Among the first `n` cells, each of the cells `a < b < c` that lies below
/// `n` and holds `p`'s mark is counted by `marks`.
proof fn lemma_marks_cover(g: Seq<Option<PlayerId>>, p: PlayerId, n: int, a: int, b: int, c: int)
    requires
        0 <= a < b < c,
        g[a] == Some(p),
        g[b] == Some(p),
        g[c] == Some(p),
    ensures
        marks(g, p, n) >= (if a < n { 1int } else { 0int }) + (if b < n { 1int } else { 0int }) + (
        if c < n {
            1int
        } else {
            0int
        }),
    decreases n,
{
    if n > 0 {
        lemma_marks_cover(g, p, n - 1, a, b, c);
    }
}

/// A player can only have won on a board where it holds at least three
/// cells.
pub proof fn lemma_win_needs_three_marks(g: Seq<Option<PlayerId>>, p: PlayerId)
    requires
        g.len() == 9,
        has_won(g, p),
    ensures
        marks(g, p, 9) >= 3,
{
    let k = choose|k: int| 0 <= k < 8 && #[trigger] owns_line(g, p, k);
    let (a, b, c) = win_line(k);
    lemma_marks_cover(g, p, 9, a, b, c);
}

} // verus!
