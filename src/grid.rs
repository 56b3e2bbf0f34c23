//! The board: a square grid of live and dead cells, its generation rule,
//! and the one-way switch from editing to running.
use vstd::prelude::*;

verus! {

/// A board as rows of cells; `true` is a live cell.
pub type Board = Seq<Seq<bool>>;

/// Every row of `b` is as long as `b` has rows.
pub open spec fn is_square(b: Board) -> bool {
    forall|i: int| 0 <= i < b.len() ==> #[trigger] b[i].len() == b.len()
}

/// The cell at (`r`, `c`) lies on the board and is alive; positions off the
/// board count as dead.
pub open spec fn alive(b: Board, r: int, c: int) -> bool {
    0 <= r < b.len() && 0 <= c < b[r].len() && b[r][c]
}

/// 1 for a live cell, 0 otherwise.
pub open spec fn count(b: Board, r: int, c: int) -> int {
    if alive(b, r, c) { 1 } else { 0 }
}

/// The number of live cells among the eight that surround (`r`, `c`).
pub open spec fn live_neighbors(b: Board, r: int, c: int) -> int {
    count(b, r - 1, c - 1) + count(b, r - 1, c) + count(b, r - 1, c + 1)
        + count(b, r, c - 1) + count(b, r, c + 1)
        + count(b, r + 1, c - 1) + count(b, r + 1, c) + count(b, r + 1, c + 1)
}

/// The state of (`r`, `c`) in the generation after `b`: a dead cell with
/// exactly three live neighbours is born, a live cell with two or three
/// survives, every other cell is dead.
pub open spec fn next_state(b: Board, r: int, c: int) -> bool {
    let n = live_neighbors(b, r, c);
    if b[r][c] {
        n == 2 || n == 3
    } else {
        n == 3
    }
}

/// The generation after `b`, every cell computed from `b` alone.
pub open spec fn next_gen(b: Board) -> Board {
    Seq::new(b.len(), |r: int| Seq::new(b.len(), |c: int| next_state(b, r, c)))
}

/// `b` with the cell at (`r`, `c`) made alive.
pub open spec fn set_alive(b: Board, r: int, c: int) -> Board {
    b.update(r, b[r].update(c, true))
}

/// The all-dead board of side `n`.
pub open spec fn empty_board(n: nat) -> Board {
    Seq::new(n, |r: int| Seq::new(n, |c: int| false))
}

/// The board of the simulation, with its mode: while editing, cells may be
/// brought to life; once running, only whole generations replace it.
pub struct Grid {
    cells: Vec<Vec<bool>>,
    running: bool,
}

impl View for Grid {
    type V = Board;

    closed spec fn view(&self) -> Board {
        self.cells@.map_values(|row: Vec<bool>| row@)
    }
}

impl Grid {
    /// The board is the rows of `cells`, each seen as a sequence.
    proof fn lemma_view(&self)
        ensures
            self@.len() == self.cells@.len(),
            forall|i: int| 0 <= i < self@.len() ==> #[trigger] self@[i] == self.cells@[i]@,
    {
    }

    /// Whether the grid has left the editing mode.
    pub closed spec fn is_running(&self) -> bool {
        self.running
    }

    /// The grid's board is square.
    pub open spec fn wf(&self) -> bool {
        is_square(self@)
    }

    /// An all-dead board of side `n`, in editing mode.
    pub fn new(n: usize) -> (g: Grid)
        ensures
            g.wf(),
            g@ == empty_board(n as nat),
            !g.is_running(),
    {
        let mut cells: Vec<Vec<bool>> = Vec::new();
        let mut r: usize = 0;
        while r < n
            invariant
                r <= n,
                cells@.len() == r,
                forall|i: int| 0 <= i < r ==> #[trigger] cells@[i]@ == Seq::new(n as nat, |c: int| false),
            decreases n - r,
        {
            let mut row: Vec<bool> = Vec::new();
            let mut c: usize = 0;
            while c < n
                invariant
                    c <= n,
                    row@.len() == c,
                    forall|j: int| 0 <= j < c ==> row@[j] == false,
                decreases n - c,
            {
                row.push(false);
                c += 1;
            }
            assert(row@ =~= Seq::new(n as nat, |c: int| false));
            cells.push(row);
            r += 1;
        }
        let g = Grid { cells, running: false };
        assert(g@ =~= empty_board(n as nat));
        g
    }

    /// The side of the board.
    pub fn size(&self) -> (n: usize)
        ensures
            n == self@.len(),
    {
        proof {
            self.lemma_view();
        }
        self.cells.len()
    }

    /// Whether the grid has left the editing mode.
    pub fn running(&self) -> (r: bool)
        ensures
            r == self.is_running(),
    {
        self.running
    }

    /// Whether the cell at (`row`, `col`) is alive.
    pub fn read_cell(&self, row: usize, col: usize) -> (r: bool)
        requires
            self.wf(),
            row < self@.len(),
            col < self@.len(),
        ensures
            r == self@[row as int][col as int],
    {
        proof {
            self.lemma_view();
            assert(self@[row as int].len() == self@.len());
        }
        self.cells[row][col]
    }

    /// Brings the cell at (`row`, `col`) to life while editing; once the
    /// grid runs, the call changes nothing.
    pub fn toggle_cell(&mut self, row: usize, col: usize)
        requires
            old(self).wf(),
            row < old(self)@.len(),
            col < old(self)@.len(),
        ensures
            final(self).wf(),
            final(self).is_running() == old(self).is_running(),
            final(self)@ == if old(self).is_running() {
                old(self)@
            } else {
                set_alive(old(self)@, row as int, col as int)
            },
    {
        proof {
            self.lemma_view();
            assert(self@[row as int].len() == self@.len());
        }
        if !self.running {
            let mut line = self.cells[row].clone();
            line.set(col, true);
            self.cells.set(row, line);
            assert(self@ =~= set_alive(old(self)@, row as int, col as int));
        }
    }

    /// 1 if the cell at (`row`, `col`) is alive, 0 if it is dead.
    fn alive_count(&self, row: usize, col: usize) -> (k: u8)
        requires
            self.wf(),
            row < self@.len(),
            col < self@.len(),
        ensures
            k as int == count(self@, row as int, col as int),
    {
        if self.read_cell(row, col) {
            1
        } else {
            0
        }
    }

    /// The number of live cells among the eight around (`row`, `col`);
    /// positions off the board count as dead.
    pub fn live_neighbors_at(&self, row: usize, col: usize) -> (k: u8)
        requires
            self.wf(),
            row < self@.len(),
            col < self@.len(),
        ensures
            k as int == live_neighbors(self@, row as int, col as int),
    {
        let n = self.size();
        let mut k: u8 = 0;
        if row > 0 {
            if col > 0 {
                k = k + self.alive_count(row - 1, col - 1);
            }
            k = k + self.alive_count(row - 1, col);
            if col + 1 < n {
                k = k + self.alive_count(row - 1, col + 1);
            }
        }
        if col > 0 {
            k = k + self.alive_count(row, col - 1);
        }
        if col + 1 < n {
            k = k + self.alive_count(row, col + 1);
        }
        if row + 1 < n {
            if col > 0 {
                k = k + self.alive_count(row + 1, col - 1);
            }
            k = k + self.alive_count(row + 1, col);
            if col + 1 < n {
                k = k + self.alive_count(row + 1, col + 1);
            }
        }
        k
    }

    /// Replaces the board with the next generation, each cell computed from
    /// the board as it stood before the call.
    pub fn step(&mut self)
        requires
            old(self).wf(),
            old(self).is_running(),
        ensures
            final(self).wf(),
            final(self).is_running(),
            final(self)@ == next_gen(old(self)@),
    {
        let n = self.size();
        let mut next: Vec<Vec<bool>> = Vec::new();
        let mut r: usize = 0;
        while r < n
            invariant
                self.wf(),
                n == self@.len(),
                r <= n,
                next@.len() == r,
                forall|i: int| 0 <= i < r ==> #[trigger] next@[i]@ == next_gen(self@)[i],
            decreases n - r,
        {
            let mut row: Vec<bool> = Vec::new();
            let mut c: usize = 0;
            while c < n
                invariant
                    self.wf(),
                    n == self@.len(),
                    r < n,
                    c <= n,
                    row@.len() == c,
                    forall|j: int| 0 <= j < c ==> row@[j] == next_state(self@, r as int, j),
                decreases n - c,
            {
                let k = self.live_neighbors_at(r, c);
                let v = if self.read_cell(r, c) {
                    k == 2 || k == 3
                } else {
                    k == 3
                };
                row.push(v);
                c += 1;
            }
            assert(row@ =~= next_gen(self@)[r as int]);
            next.push(row);
            r += 1;
        }
        let ghost before = self@;
        self.cells = next;
        proof {
            self.lemma_view();
            assert(self@ =~= next_gen(before));
        }
    }

    /// Leaves the editing mode for good; the board is kept.
    pub fn start(&mut self)
        requires
            old(self).wf(),
        ensures
            final(self).wf(),
            final(self).is_running(),
            final(self)@ == old(self)@,
    {
        self.running = true;
    }
}

} // verus!
