//! Laws of the generation rule and of editing, proved over the board model.
use vstd::prelude::*;
use crate::grid::{Board, is_square, alive, count, live_neighbors, next_gen, set_alive, empty_board};

verus! {

/// The board of side `n` whose live cells are those that `live` picks.
pub open spec fn pattern(n: nat, live: spec_fn(int, int) -> bool) -> Board {
    Seq::new(n, |i: int| Seq::new(n, |j: int| live(i, j)))
}

/// A 2x2 block with its top-left cell at (`r`, `c`).
pub open spec fn block(n: nat, r: int, c: int) -> Board {
    pattern(n, |i: int, j: int| (i == r || i == r + 1) && (j == c || j == c + 1))
}

/// The 2x2 block at (`r`, `c`) without its top-right cell: an L of three
/// cells.
pub open spec fn tromino(n: nat, r: int, c: int) -> Board {
    pattern(n, |i: int, j: int| (i == r && j == c) || (i == r + 1 && (j == c || j == c + 1)))
}

/// Three live cells in row `r`, centred on column `c`.
pub open spec fn blinker_horizontal(n: nat, r: int, c: int) -> Board {
    pattern(n, |i: int, j: int| i == r && c - 1 <= j <= c + 1)
}

/// Three live cells in column `c`, centred on row `r`.
pub open spec fn blinker_vertical(n: nat, r: int, c: int) -> Board {
    pattern(n, |i: int, j: int| j == c && r - 1 <= i <= r + 1)
}

/// The all-dead board stays all-dead.
pub proof fn lemma_empty_board_is_still(n: nat)
    ensures
        next_gen(empty_board(n)) == empty_board(n),
{
    let b = empty_board(n);
    assert forall|i: int, j: int| 0 <= i < n && 0 <= j < n implies
        #[trigger] next_gen(b)[i][j] == b[i][j] by {
        assert(live_neighbors(b, i, j) == 0);
    }
    assert(next_gen(b) =~~= b);
}

/// A live cell with no live neighbour is dead in the next generation.
pub proof fn lemma_isolated_cell_dies(b: Board, r: int, c: int)
    requires
        is_square(b),
        0 <= r < b.len(),
        0 <= c < b.len(),
        live_neighbors(b, r, c) == 0,
    ensures
        !next_gen(b)[r][c],
{
}

/// The corner cell (0, 0) counts only its three neighbours on the board;
/// alone there, or on a board of side one, it dies.
pub proof fn lemma_corner_cell(b: Board)
    requires
        is_square(b),
        b.len() >= 1,
    ensures
        live_neighbors(b, 0, 0) == count(b, 0, 1) + count(b, 1, 0) + count(b, 1, 1),
        b.len() == 1 ==> live_neighbors(b, 0, 0) == 0,
        !alive(b, 0, 1) && !alive(b, 1, 0) && !alive(b, 1, 1) ==> !next_gen(b)[0][0],
{
}

/// A 2x2 block away from nothing but dead cells is a still life.
pub proof fn lemma_block_is_still(n: nat, r: int, c: int)
    requires
        0 <= r,
        r + 1 < n,
        0 <= c,
        c + 1 < n,
    ensures
        next_gen(block(n, r, c)) == block(n, r, c),
{
    let b = block(n, r, c);
    assert forall|i: int, j: int| 0 <= i < n && 0 <= j < n implies
        #[trigger] next_gen(b)[i][j] == b[i][j] by {
    }
    assert(next_gen(b) =~~= b);
}

/// An L of three cells becomes the 2x2 block that contains it, and stays
/// that block in every later generation.
pub proof fn lemma_tromino_becomes_block(n: nat, r: int, c: int)
    requires
        0 <= r,
        r + 1 < n,
        0 <= c,
        c + 1 < n,
    ensures
        next_gen(tromino(n, r, c)) == block(n, r, c),
        next_gen(next_gen(tromino(n, r, c))) == block(n, r, c),
{
    let b = tromino(n, r, c);
    assert forall|i: int, j: int| 0 <= i < n && 0 <= j < n implies
        #[trigger] next_gen(b)[i][j] == block(n, r, c)[i][j] by {
    }
    assert(next_gen(b) =~~= block(n, r, c));
    lemma_block_is_still(n, r, c);
}

/// A horizontal line of three cells turns into a vertical one, which turns
/// back: the blinker returns after exactly two generations.
pub proof fn lemma_blinker_has_period_two(n: nat, r: int, c: int)
    requires
        1 <= r,
        r + 1 < n,
        1 <= c,
        c + 1 < n,
    ensures
        next_gen(blinker_horizontal(n, r, c)) == blinker_vertical(n, r, c),
        next_gen(blinker_vertical(n, r, c)) == blinker_horizontal(n, r, c),
        next_gen(next_gen(blinker_horizontal(n, r, c))) == blinker_horizontal(n, r, c),
        blinker_vertical(n, r, c) != blinker_horizontal(n, r, c),
{
    let h = blinker_horizontal(n, r, c);
    let v = blinker_vertical(n, r, c);
    assert forall|i: int, j: int| 0 <= i < n && 0 <= j < n implies
        #[trigger] next_gen(h)[i][j] == v[i][j] by {
    }
    assert(next_gen(h) =~~= v);
    assert forall|i: int, j: int| 0 <= i < n && 0 <= j < n implies
        #[trigger] next_gen(v)[i][j] == h[i][j] by {
    }
    assert(next_gen(v) =~~= h);
    assert(h[r][c - 1] != v[r][c - 1]);
}

/// After a cell is brought to life, reading it gives a live cell, and every
/// other cell reads as before.
pub proof fn lemma_set_alive_reads_back(b: Board, r: int, c: int)
    requires
        is_square(b),
        0 <= r < b.len(),
        0 <= c < b.len(),
    ensures
        is_square(set_alive(b, r, c)),
        set_alive(b, r, c)[r][c],
        forall|i: int, j: int|
            0 <= i < b.len() && 0 <= j < b.len() && (i != r || j != c)
                ==> #[trigger] set_alive(b, r, c)[i][j] == b[i][j],
{
    assert(b[r].len() == b.len());
    assert forall|i: int| 0 <= i < b.len() implies #[trigger] set_alive(b, r, c)[i].len() == b.len() by {
        assert(b[i].len() == b.len());
    }
}

} // verus!
