//! The grid: a rectangular collection of cells and the generation-advance
//! algorithm.

use vstd::prelude::*;

use crate::cell::Cell;
use crate::coordinates::{Column, Row};

verus! {

/// The one way a grid operation can fail: the given coordinates lie outside
/// the grid's dimensions.
#[derive(Debug, Clone, Copy, PartialEq, Eq, Structural)]
pub enum GridError {
    OutOfBounds,
}

/// A rectangular collection of cells with dimensions fixed at construction.
///
/// The outer vector holds the columns; `cells[c][r]` is the cell in column
/// `c`, row `r`. Every column holds the same number of cells.
pub struct Grid {
    cells: Vec<Vec<Cell>>,
}

impl View for Grid {
    type V = Seq<Seq<Cell>>;

    /// The mathematical model of a grid: the sequence of its columns, each
    /// a sequence of cell states.
    closed spec fn view(&self) -> Seq<Seq<Cell>> {
        self.cells@.map_values(|column: Vec<Cell>| column@)
    }
}

/// True when position (column `c`, row `r`) lies inside the grid modelled
/// by `s`.
pub open spec fn in_bounds(s: Seq<Seq<Cell>>, c: int, r: int) -> bool {
    0 <= c < s.len() && 0 <= r < s[c].len()
}

/// The grid modelled by `s` with the cell at (column `c`, row `r`) set to
/// populated and every other cell unchanged.
pub open spec fn spec_populate(s: Seq<Seq<Cell>>, c: int, r: int) -> Seq<Seq<Cell>> {
    s.update(c, s[c].update(r, Cell::Populated))
}

/// 1 when position (column `c`, row `r`) lies inside the grid modelled by
/// `s`, else 0.
pub open spec fn present_at(s: Seq<Seq<Cell>>, c: int, r: int) -> int {
    if in_bounds(s, c, r) {
        1
    } else {
        0
    }
}

/// 1 when position (column `c`, row `r`) lies inside the grid modelled by
/// `s` and holds a populated cell, else 0.
pub open spec fn live_at(s: Seq<Seq<Cell>>, c: int, r: int) -> int {
    if in_bounds(s, c, r) && s[c][r] is Populated {
        1
    } else {
        0
    }
}

/// How many of the Moore neighbours of (column `c`, row `r`) lie inside the
/// grid modelled by `s`. Positions beyond any edge are absent, not empty.
pub open spec fn neighbours_in_grid(s: Seq<Seq<Cell>>, c: int, r: int) -> int {
    present_at(s, c - 1, r - 1) + present_at(s, c - 1, r) + present_at(s, c - 1, r + 1)
        + present_at(s, c, r + 1) + present_at(s, c + 1, r + 1) + present_at(s, c + 1, r)
        + present_at(s, c + 1, r - 1) + present_at(s, c, r - 1)
}

/// How many of the Moore neighbours of (column `c`, row `r`) inside the
/// grid modelled by `s` are populated.
pub open spec fn live_neighbour_count(s: Seq<Seq<Cell>>, c: int, r: int) -> int {
    live_at(s, c - 1, r - 1) + live_at(s, c - 1, r) + live_at(s, c - 1, r + 1)
        + live_at(s, c, r + 1) + live_at(s, c + 1, r + 1) + live_at(s, c + 1, r)
        + live_at(s, c + 1, r - 1) + live_at(s, c, r - 1)
}

/// How many cells of `cells` are populated.
pub open spec fn count_populated(cells: Seq<Cell>) -> int
    decreases cells.len(),
{
    if cells.len() == 0 {
        0
    } else {
        count_populated(cells.drop_last()) + (if cells.last() is Populated {
            1int
        } else {
            0int
        })
    }
}

/// The state the cell at (column `c`, row `r`) takes in the generation
/// after the one modelled by `s`: a cell with fewer than two populated
/// neighbours dies of solitude, one with four or more dies of
/// overpopulation, one with exactly two keeps its state, and a position
/// with exactly three populated neighbours is populated whether or not it
/// was before.
pub open spec fn next_cell(s: Seq<Seq<Cell>>, c: int, r: int) -> Cell {
    let n = live_neighbour_count(s, c, r);
    if n == 3 {
        Cell::Populated
    } else if n == 2 {
        s[c][r]
    } else {
        Cell::Empty
    }
}

impl Grid {
    /// The number of columns.
    pub open spec fn width(self) -> int {
        self@.len() as int
    }

    /// The number of rows: the length every column must share. A grid with
    /// no columns has height zero.
    pub open spec fn height(self) -> int {
        if self@.len() == 0 {
            0
        } else {
            self@[0].len() as int
        }
    }

    /// Well-formedness: the grid is rectangular — every column holds
    /// exactly `height` cells — and both dimensions fit the index type the
    /// constructor accepts.
    pub open spec fn wf(self) -> bool {
        &&& self@.len() <= u16::MAX as int
        &&& self.height() <= u16::MAX as int
        &&& forall|c: int| 0 <= c < self@.len() ==> (#[trigger] self@[c]).len() == self.height()
    }

    /// Allocates a grid of the given fixed dimensions with every cell in
    /// its default, empty state. Either dimension may be zero, yielding an
    /// empty grid.
    pub fn new(columns: Column, rows: Row) -> (grid: Grid)
        ensures
            grid.wf(),
            grid.width() == columns.0,
            grid@.len() > 0 ==> grid.height() == rows.0,
            forall|c: int, r: int| in_bounds(grid@, c, r) ==> grid@[c][r] is Empty,
    {
        let width = columns.usize();
        let height = rows.usize();
        let mut cells: Vec<Vec<Cell>> = Vec::new();
        while cells.len() < width
            invariant
                cells@.len() <= width,
                forall|c: int|
                    0 <= c < cells@.len() ==> (#[trigger] cells@[c])@.len() == height,
                forall|c: int, r: int|
                    0 <= c < cells@.len() && 0 <= r < height ==> cells@[c]@[r] is Empty,
            decreases width - cells@.len(),
        {
            let mut column: Vec<Cell> = Vec::new();
            while column.len() < height
                invariant
                    column@.len() <= height,
                    forall|r: int| 0 <= r < column@.len() ==> column@[r] is Empty,
                decreases height - column@.len(),
            {
                column.push(Cell::default());
            }
            cells.push(column);
        }
        Grid { cells }
    }

    /// Returns the cell at the given position, or `None` when either
    /// component lies outside the grid. Read-only; querying out-of-bounds
    /// coordinates is a normal case, not a failure.
    pub fn cell(&self, column_index: Column, row_index: Row) -> (cell: Option<Cell>)
        ensures
            in_bounds(self@, column_index.0 as int, row_index.0 as int)
                ==> cell == Some(self@[column_index.0 as int][row_index.0 as int]),
            !in_bounds(self@, column_index.0 as int, row_index.0 as int) ==> cell is None,
    {
        self.cell_by_index(column_index.usize(), row_index.usize())
    }

    /// The bounds-checked lookup behind `cell`, on plain indices.
    fn cell_by_index(&self, c: usize, r: usize) -> (cell: Option<Cell>)
        ensures
            in_bounds(self@, c as int, r as int) ==> cell == Some(self@[c as int][r as int]),
            !in_bounds(self@, c as int, r as int) ==> cell is None,
    {
        if c < self.cells.len() {
            let column = &self.cells[c];
            if r < column.len() {
                Some(column[r])
            } else {
                None
            }
        } else {
            None
        }
    }

    /// Sets the cell at the given position to populated. Fails with an
    /// out-of-bounds error — and leaves every cell unchanged — exactly when
    /// the position lies outside the grid.
    pub fn populate(&mut self, column_index: Column, row_index: Row) -> (result: Result<
        (),
        GridError,
    >)
        ensures
            result is Ok <==> in_bounds(old(self)@, column_index.0 as int, row_index.0 as int),
            result is Ok ==> final(self)@ == spec_populate(
                old(self)@,
                column_index.0 as int,
                row_index.0 as int,
            ),
            result is Err ==> final(self)@ == old(self)@ && result == Err::<
                (),
                GridError,
            >(GridError::OutOfBounds),
            old(self).wf() ==> final(self).wf(),
    {
        let c = column_index.usize();
        let r = row_index.usize();
        if c < self.cells.len() && r < self.cells[c].len() {
            self.cells[c][r].spawn();
            proof {
                assert(final(self)@ =~~= spec_populate(
                    old(self)@,
                    column_index.0 as int,
                    row_index.0 as int,
                ));
            }
            Ok(())
        } else {
            Err(GridError::OutOfBounds)
        }
    }

    /// Returns the states of all in-bounds Moore neighbours of the given
    /// position. Neighbours beyond any edge of the grid are silently
    /// omitted — absent from the list, not reported as empty — so an edge
    /// cell has fewer than eight neighbours considered, all of them real.
    /// The order of the returned states is unspecified; the contract pins
    /// down how many there are and how many of them are populated, which
    /// determines the list up to order.
    pub fn neighbour_cells(&self, column_index: Column, row_index: Row) -> (neighbours: Vec<
        Cell,
    >)
        ensures
            neighbours@.len() == neighbours_in_grid(
                self@,
                column_index.0 as int,
                row_index.0 as int,
            ),
            count_populated(neighbours@) == live_neighbour_count(
                self@,
                column_index.0 as int,
                row_index.0 as int,
            ),
    {
        let c = column_index.usize();
        let r = row_index.usize();
        let mut neighbours: Vec<Cell> = Vec::new();
        if c >= 1 && r >= 1 {
            self.push_neighbour(&mut neighbours, c - 1, r - 1);
        }
        if c >= 1 {
            self.push_neighbour(&mut neighbours, c - 1, r);
            self.push_neighbour(&mut neighbours, c - 1, r + 1);
        }
        self.push_neighbour(&mut neighbours, c, r + 1);
        self.push_neighbour(&mut neighbours, c + 1, r + 1);
        self.push_neighbour(&mut neighbours, c + 1, r);
        if r >= 1 {
            self.push_neighbour(&mut neighbours, c + 1, r - 1);
            self.push_neighbour(&mut neighbours, c, r - 1);
        }
        neighbours
    }

    /// Appends the cell at (column `c`, row `r`) to `neighbours` when that
    /// position lies inside the grid, and leaves `neighbours` unchanged
    /// otherwise.
    fn push_neighbour(&self, neighbours: &mut Vec<Cell>, c: usize, r: usize)
        ensures
            final(neighbours)@.len() == old(neighbours)@.len() + present_at(
                self@,
                c as int,
                r as int,
            ),
            count_populated(final(neighbours)@) == count_populated(old(neighbours)@) + live_at(
                self@,
                c as int,
                r as int,
            ),
    {
        match self.cell_by_index(c, r) {
            Some(cell) => {
                proof {
                    lemma_count_populated_push(neighbours@, cell);
                }
                neighbours.push(cell);
            },
            None => {},
        }
    }

    /// Advances the whole grid by exactly one generation. Every cell's new
    /// state is determined by the prior generation alone: all neighbour
    /// counts are taken from a fully materialized snapshot of the old grid
    /// before any cell changes, never from a partially updated grid.
    pub fn next(&mut self)
        requires
            old(self).wf(),
        ensures
            final(self).wf(),
            final(self)@.len() == old(self)@.len(),
            final(self).height() == old(self).height(),
            forall|c: int, r: int|
                in_bounds(old(self)@, c, r) ==> final(self)@[c][r] == next_cell(old(self)@, c, r),
    {
        let ghost s0 = self@;
        let mut new_cells: Vec<Vec<Cell>> = Vec::new();
        let mut i: usize = 0;
        while i < self.cells.len()
            invariant
                self@ == s0,
                self.wf(),
                (i as int) <= s0.len(),
                new_cells@.len() == i as int,
                forall|ci: int|
                    0 <= ci < i as int ==> (#[trigger] new_cells@[ci])@.len() == s0[ci].len(),
                forall|ci: int, rj: int|
                    0 <= ci < i as int && 0 <= rj < s0[ci].len() ==> new_cells@[ci]@[rj]
                        == next_cell(s0, ci, rj),
            decreases s0.len() - i as int,
        {
            let mut new_column: Vec<Cell> = Vec::new();
            let mut j: usize = 0;
            while j < self.cells[i].len()
                invariant
                    self@ == s0,
                    self.wf(),
                    (i as int) < s0.len(),
                    (j as int) <= s0[i as int].len(),
                    new_column@.len() == j as int,
                    forall|rj: int|
                        0 <= rj < j as int ==> new_column@[rj] == next_cell(s0, i as int, rj),
                decreases s0[i as int].len() - j as int,
            {
                let column = Column::new(i as u16);
                let row = Row::new(j as u16);
                let cells_nearby = self.neighbour_cells(column, row);
                let populated = count_populated_cells(&cells_nearby);
                let current = self.cells[i][j];
                let new_state = if populated == 3 {
                    Cell::populated()
                } else if populated == 2 {
                    current
                } else {
                    Cell::Empty
                };
                proof {
                    assert(new_state == next_cell(s0, i as int, j as int));
                }
                new_column.push(new_state);
                j = j + 1;
            }
            new_cells.push(new_column);
            i = i + 1;
        }
        self.cells = new_cells;
    }
}

/// Appending one cell to a sequence raises the populated count by one
/// exactly when that cell is populated.
proof fn lemma_count_populated_push(cells: Seq<Cell>, cell: Cell)
    ensures
        count_populated(cells.push(cell)) == count_populated(cells) + (if cell is Populated {
            1int
        } else {
            0int
        }),
{
    assert(cells.push(cell).drop_last() =~= cells);
}

/// Counts the populated cells in a list of cell states.
fn count_populated_cells(cells: &Vec<Cell>) -> (count: usize)
    ensures
        count == count_populated(cells@),
{
    let mut count: usize = 0;
    let mut i: usize = 0;
    while i < cells.len()
        invariant
            (i as int) <= cells@.len(),
            (count as int) <= i as int,
            count as int == count_populated(cells@.take(i as int)),
        decreases cells@.len() - i as int,
    {
        proof {
            assert(cells@.take(i as int + 1).drop_last() =~= cells@.take(i as int));
        }
        if cells[i].is_populated() {
            count = count + 1;
        }
        i = i + 1;
    }
    proof {
        assert(cells@.take(cells@.len() as int) =~= cells@);
    }
    count
}

/// Law: populating an in-bounds position makes exactly that cell populated;
/// every other cell and the grid's dimensions are unchanged.
pub proof fn lemma_populate_sets_cell(s: Seq<Seq<Cell>>, c: int, r: int)
    requires
        in_bounds(s, c, r),
    ensures
        spec_populate(s, c, r).len() == s.len(),
        forall|x: int|
            0 <= x < s.len() ==> (#[trigger] spec_populate(s, c, r)[x]).len() == s[x].len(),
        spec_populate(s, c, r)[c][r] is Populated,
        forall|x: int, y: int|
            in_bounds(s, x, y) && !(x == c && y == r) ==> spec_populate(s, c, r)[x][y] == s[x][y],
{
}

/// Law: populating a position is idempotent — populating it a second time
/// leaves the grid exactly as the first populate left it.
pub proof fn lemma_populate_idempotent(s: Seq<Seq<Cell>>, c: int, r: int)
    requires
        in_bounds(s, c, r),
    ensures
        spec_populate(spec_populate(s, c, r), c, r) == spec_populate(s, c, r),
{
    assert(spec_populate(spec_populate(s, c, r), c, r) =~~= spec_populate(s, c, r));
}

} // verus!
