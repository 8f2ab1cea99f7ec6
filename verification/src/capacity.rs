//! How many cells a snake can cover: counting arguments about the board.

use vstd::prelude::*;
use vstd::set_lib::{lemma_int_range, lemma_len_subset, set_int_range};
use crate::grid::Position;
use crate::state::{distinct_on_board, State};

verus! {

/// The place of a cell when the board is read row by row.
pub open spec fn row_major(p: Position, width: int) -> int {
    p.y * width + p.x
}

proof fn lemma_row_major_in_range(p: Position, width: int, height: int)
    requires
        p.within(width, height),
    ensures
        0 <= row_major(p, width) < width * height,
{
    assert(p.y * width + p.x < width * height) by (nonlinear_arith)
        requires
            0 <= p.x < width,
            0 <= p.y < height,
    ;
    assert(0 <= p.y * width) by (nonlinear_arith)
        requires
            0 <= p.y,
            0 <= width,
    ;
}

proof fn lemma_row_major_injective(p: Position, q: Position, width: int, height: int)
    requires
        p.within(width, height),
        q.within(width, height),
        row_major(p, width) == row_major(q, width),
    ensures
        p == q,
{
    assert(p.y == q.y) by (nonlinear_arith)
        requires
            0 <= p.x < width,
            0 <= q.x < width,
            p.y * width + p.x == q.y * width + q.x,
    ;
}

/// The cell at place `k` of the row-by-row reading.
spec fn cell_at(k: int, width: int) -> Position {
    Position { x: (k % width) as i32, y: (k / width) as i32 }
}

proof fn lemma_cell_at(k: int, width: int, height: int)
    requires
        1 <= width <= i32::MAX,
        1 <= height <= i32::MAX,
        0 <= k < width * height,
    ensures
        cell_at(k, width).within(width, height),
        row_major(cell_at(k, width), width) == k,
{
    let q = k / width;
    let r = k % width;
    assert(0 <= r < width && k == q * width + r) by (nonlinear_arith)
        requires
            q == k / width,
            r == k % width,
            width >= 1,
    ;
    assert(0 <= q < height) by (nonlinear_arith)
        requires
            0 <= r < width,
            k == q * width + r,
            0 <= k < width * height,
    ;
}

/// The places of `cells`, in the same order.
spec fn places(cells: Seq<Position>, width: int) -> Seq<int> {
    cells.map_values(|p: Position| row_major(p, width))
}

/// Cells of the board that differ pairwise are no more than the board has.
pub proof fn lemma_distinct_cells_fit(cells: Seq<Position>, width: int, height: int)
    requires
        1 <= width,
        1 <= height,
        distinct_on_board(cells, width, height),
    ensures
        cells.len() <= width * height,
{
    let n = width * height;
    let idx = places(cells, width);
    assert forall|i: int, j: int| 0 <= i < idx.len() && 0 <= j < idx.len() && i != j implies idx[i]
        != idx[j] by {
        if idx[i] == idx[j] {
            lemma_row_major_injective(cells[i], cells[j], width, height);
        }
    }
    idx.unique_seq_to_set();
    assert(0 <= n) by (nonlinear_arith)
        requires
            1 <= width,
            1 <= height,
            n == width * height,
    ;
    lemma_int_range(0, n);
    assert forall|k: int| idx.to_set().contains(k) implies set_int_range(0, n).contains(k) by {
        let i = choose|i: int| 0 <= i < idx.len() && idx[i] == k;
        lemma_row_major_in_range(cells[i], width, height);
    }
    lemma_len_subset(idx.to_set(), set_int_range(0, n));
}

/// Distinct cells of the board stay so when a cell of the board that is not
/// among them is put in front.
pub proof fn lemma_prepend_distinct(cells: Seq<Position>, p: Position, width: int, height: int)
    requires
        distinct_on_board(cells, width, height),
        p.within(width, height),
        !cells.contains(p),
    ensures
        distinct_on_board(seq![p] + cells, width, height),
{
    let more = seq![p] + cells;
    assert forall|i: int| 0 <= i < more.len() implies (#[trigger] more[i]).within(width, height) by {
        if i > 0 {
            assert(more[i] == cells[i - 1]);
        }
    }
    assert forall|i: int, j: int|
        0 <= i < more.len() && 0 <= j < more.len() && i != j implies more[i] != more[j] by {
        if i > 0 {
            assert(more[i] == cells[i - 1]);
        }
        if j > 0 {
            assert(more[j] == cells[j - 1]);
        }
    }
}

/// Distinct cells of the board stay so when the last of them is taken away.
pub proof fn lemma_drop_last_distinct(cells: Seq<Position>, width: int, height: int)
    requires
        distinct_on_board(cells, width, height),
        cells.len() >= 1,
    ensures
        distinct_on_board(cells.drop_last(), width, height),
        forall|p: Position| cells.drop_last().contains(p) ==> cells.contains(p),
{
    let fewer = cells.drop_last();
    assert forall|i: int| 0 <= i < fewer.len() implies (#[trigger] fewer[i]).within(
        width,
        height,
    ) by {
        assert(fewer[i] == cells[i]);
    }
    assert forall|p: Position| fewer.contains(p) implies cells.contains(p) by {
        let i = choose|i: int| 0 <= i < fewer.len() && fewer[i] == p;
        assert(cells[i] == p);
    }
}

/// Where the snake is shorter than the board has cells, a cell of the board is free.
proof fn lemma_room_gives_free_cell(s: State)
    requires
        1 <= s.width <= i32::MAX,
        1 <= s.height <= i32::MAX,
        s.snake.len() < s.cells(),
    ensures
        s.has_free_cell(),
{
    if !s.has_free_cell() {
        let n = s.cells();
        let idx = places(s.snake, s.width);
        lemma_int_range(0, n);
        assert forall|k: int| set_int_range(0, n).contains(k) implies idx.to_set().contains(k) by {
            lemma_cell_at(k, s.width, s.height);
            let p = cell_at(k, s.width);
            assert(!s.free(p));
            let i = choose|i: int| 0 <= i < s.snake.len() && s.snake[i] == p;
            assert(idx[i] == k);
        }
        idx.lemma_cardinality_of_set();
        vstd::seq_lib::seq_to_set_is_finite(idx);
        lemma_len_subset(set_int_range(0, n), idx.to_set());
    }
}

/// A snake that lies on the board and crosses no cell twice leaves a cell
/// free exactly when it is shorter than the board has cells.
pub proof fn lemma_free_cell_iff_room(s: State)
    requires
        1 <= s.width <= i32::MAX,
        1 <= s.height <= i32::MAX,
        distinct_on_board(s.snake, s.width, s.height),
    ensures
        s.snake.len() <= s.cells(),
        s.has_free_cell() <==> s.has_room(),
{
    lemma_distinct_cells_fit(s.snake, s.width, s.height);
    if s.has_free_cell() {
        let p = choose|p: Position| s.free(p);
        lemma_prepend_distinct(s.snake, p, s.width, s.height);
        lemma_distinct_cells_fit(seq![p] + s.snake, s.width, s.height);
    }
    if s.snake.len() < s.cells() {
        lemma_room_gives_free_cell(s);
    }
}

} // verus!
