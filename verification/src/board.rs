//! The board: a rectangular grid of symbols that a spin redraws.

use crate::sampler::Sampler;
use crate::symbol::{Symbol, SymbolType};
use vstd::prelude::*;

verus! {

/// A grid of `width` columns, each of `height` cells.
#[derive(Debug)]
pub struct SlotBoard {
    width: usize,
    height: usize,
    slots: Vec<Vec<Symbol>>,
    sampler: Sampler,
}

impl SlotBoard {
    /// The cells, column by column: `cells()[x][y]` is the cell in column `x`, row `y`.
    pub closed spec fn cells(&self) -> Seq<Seq<Symbol>> {
        Seq::new(self.slots@.len(), |x: int| self.slots@[x]@)
    }

    pub closed spec fn spec_width(&self) -> nat {
        self.width as nat
    }

    pub closed spec fn spec_height(&self) -> nat {
        self.height as nat
    }

    pub closed spec fn sampler_ready(&self) -> bool {
        self.sampler.wf()
    }

    /// The grid is rectangular with the stated dimensions, and the sampler can draw.
    pub open spec fn wf(&self) -> bool {
        &&& self.sampler_ready()
        &&& self.cells().len() == self.spec_width()
        &&& forall|x: int| 0 <= x < self.cells().len() ==> #[trigger] self.cells()[x].len() == self.spec_height()
    }

    /// Whether (`x`, `y`) names a cell of this board.
    pub open spec fn in_bounds(&self, x: int, y: int) -> bool {
        0 <= x < self.spec_width() && 0 <= y < self.spec_height()
    }

    /// The cell at (`x`, `y`).
    pub open spec fn at(&self, x: int, y: int) -> Symbol {
        self.cells()[x][y]
    }

    /// A board of the given dimensions, every cell drawn from the sampler and
    /// none held. The kinds are drawn column by column, and row by row
    /// within a column.
    pub fn new(width: usize, height: usize) -> (board: SlotBoard)
        ensures
            board.wf(),
            board.spec_width() == width,
            board.spec_height() == height,
            forall|x: int, y: int| board.in_bounds(x, y) ==> !(#[trigger] board.at(x, y)).locked,
    {
        let sampler = Sampler::new();
        let mut kinds: Vec<Vec<SymbolType>> = Vec::new();
        let mut x: usize = 0;
        while x < width
            invariant
                x <= width,
                sampler.wf(),
                kinds@.len() == x,
                forall|i: int| 0 <= i < x ==> (#[trigger] kinds@[i])@.len() == height,
            decreases width - x,
        {
            let mut column: Vec<SymbolType> = Vec::new();
            let mut y: usize = 0;
            while y < height
                invariant
                    y <= height,
                    sampler.wf(),
                    column@.len() == y,
                decreases height - y,
            {
                column.push(sampler.draw());
                y += 1;
            }
            kinds.push(column);
            x += 1;
        }
        SlotBoard::from_kinds(sampler, height, &kinds)
    }

    /// A board of columns of `height` cells that shows the given kinds, the
    /// cell in column `x` and row `y` showing `kinds[x][y]`, with none held.
    pub fn from_kinds(sampler: Sampler, height: usize, kinds: &Vec<Vec<SymbolType>>) -> (board: SlotBoard)
        requires
            sampler.wf(),
            forall|x: int| 0 <= x < kinds@.len() ==> (#[trigger] kinds@[x])@.len() == height,
        ensures
            board.wf(),
            board.spec_width() == kinds@.len(),
            board.spec_height() == height,
            board.cells() == released(kind_grid(*kinds)),
    {
        let width = kinds.len();
        let mut slots: Vec<Vec<Symbol>> = Vec::new();
        let mut x: usize = 0;
        while x < width
            invariant
                x <= width,
                width == kinds@.len(),
                forall|i: int| 0 <= i < kinds@.len() ==> (#[trigger] kinds@[i])@.len() == height,
                slots@.len() == x,
                forall|i: int| 0 <= i < x ==> (#[trigger] slots@[i])@ == released(kind_grid(*kinds))[i],
            decreases width - x,
        {
            let mut column: Vec<Symbol> = Vec::new();
            let mut y: usize = 0;
            while y < height
                invariant
                    x < width,
                    width == kinds@.len(),
                    kinds@[x as int]@.len() == height,
                    y <= height,
                    column@.len() == y,
                    forall|j: int|
                        0 <= j < y ==> column@[j] == (Symbol { kind: kinds@[x as int]@[j], locked: false }),
                decreases height - y,
            {
                column.push(Symbol { kind: kinds[x][y], locked: false });
                y += 1;
            }
            assert(column@ =~= released(kind_grid(*kinds))[x as int]);
            slots.push(column);
            x += 1;
        }
        let board = SlotBoard { width, height, slots, sampler };
        assert(board.cells() =~= released(kind_grid(*kinds)));
        board
    }

    /// A board that holds exactly the given cells, column by column. The columns
    /// must all have the length of the first; otherwise there is no such board.
    pub fn from_cells(cells: Vec<Vec<Symbol>>) -> (made: Option<SlotBoard>)
        ensures
            made is Some <==> rectangular(grid(cells)),
            made is Some ==> {
                let board = made->Some_0;
                &&& board.wf()
                &&& board.cells() == grid(cells)
                &&& board.spec_width() == cells@.len()
                &&& board.spec_height() == column_height(grid(cells))
            },
    {
        let width = cells.len();
        let height = if width == 0 { 0 } else { cells[0].len() };
        let mut x: usize = 0;
        while x < width
            invariant
                x <= width,
                width == cells@.len(),
                height == column_height(grid(cells)),
                forall|i: int| 0 <= i < x ==> (#[trigger] grid(cells)[i]).len() == height,
            decreases width - x,
        {
            if cells[x].len() != height {
                assert(grid(cells)[x as int].len() != height);
                return None;
            }
            x += 1;
        }
        let board = SlotBoard { width, height, slots: cells, sampler: Sampler::new() };
        assert(board.cells() =~= grid(cells));
        Some(board)
    }

    /// Draws one kind from the board's sampler. The board itself stays as it is.
    pub fn rand_symbol(&mut self) -> (kind: SymbolType)
        requires
            old(self).wf(),
        ensures
            *final(self) == *old(self),
    {
        self.sampler.draw()
    }

    /// This board is `before` after a redraw: the same dimensions, the same
    /// cells held, and every held cell as it was.
    pub open spec fn redrawn_from(&self, before: &SlotBoard) -> bool {
        &&& self.spec_width() == before.spec_width()
        &&& self.spec_height() == before.spec_height()
        &&& forall|x: int, y: int|
            before.in_bounds(x, y) ==> (#[trigger] self.at(x, y)).locked == before.at(x, y).locked
        &&& forall|x: int, y: int|
            before.in_bounds(x, y) && before.at(x, y).locked ==> #[trigger] self.at(x, y) == before.at(x, y)
    }

    /// Writes `kind` into the cell at (`x`, `y`) and releases it.
    fn put(&mut self, x: usize, y: usize, kind: SymbolType)
        requires
            old(self).wf(),
            x < old(self).spec_width(),
            y < old(self).spec_height(),
        ensures
            final(self).wf(),
            final(self).spec_width() == old(self).spec_width(),
            final(self).spec_height() == old(self).spec_height(),
            final(self).cells() == old(self).cells().update(
                x as int,
                old(self).cells()[x as int].update(y as int, Symbol { kind, locked: false }),
            ),
    {
        assert(self.cells()[x as int].len() == self.spec_height());
        self.slots[x][y] = Symbol { kind, locked: false };
        assert(self.cells() =~= old(self).cells().update(
            x as int,
            old(self).cells()[x as int].update(y as int, Symbol { kind, locked: false }),
        ));
    }

    /// Gives every cell that is not held its next kind of `kinds`, and leaves
    /// the held cells alone. `kinds[x]` holds the kinds for column `x`, one
    /// for each of its cells that is not held, in the order of the rows.
    pub fn refresh_with(&mut self, kinds: &Vec<Vec<SymbolType>>)
        requires
            old(self).wf(),
            draws_fit(old(self).cells(), kind_grid(*kinds)),
        ensures
            final(self).wf(),
            final(self).spec_width() == old(self).spec_width(),
            final(self).spec_height() == old(self).spec_height(),
            final(self).cells() == refreshed(old(self).cells(), kind_grid(*kinds)),
    {
        let ghost before = old(self).cells();
        let ghost draws = kind_grid(*kinds);
        let mut x: usize = 0;
        while x < self.width
            invariant
                x <= self.width,
                self.wf(),
                self.spec_width() == old(self).spec_width(),
                self.spec_height() == old(self).spec_height(),
                before == old(self).cells(),
                old(self).wf(),
                draws == kind_grid(*kinds),
                draws_fit(before, draws),
                forall|i: int| 0 <= i < x ==> #[trigger] self.cells()[i] == refreshed_column(before[i], draws[i]),
                forall|i: int| x <= i < before.len() ==> #[trigger] self.cells()[i] == before[i],
            decreases self.width - x,
        {
            let ghost column = before[x as int];
            let ghost picks = draws[x as int];
            assert(before.len() == self.spec_width());
            assert(column.len() == self.spec_height());
            assert(picks.len() == free_count(column));
            assert(picks == kinds@[x as int]@);
            let mut y: usize = 0;
            let mut used: usize = 0;
            while y < self.height
                invariant
                    x < self.width,
                    y <= self.height,
                    self.wf(),
                    self.spec_width() == old(self).spec_width(),
                    self.spec_height() == old(self).spec_height(),
                    before == old(self).cells(),
                    old(self).wf(),
                    x < kinds@.len(),
                    draws == kind_grid(*kinds),
                    draws_fit(before, draws),
                    column == before[x as int],
                    column.len() == self.spec_height(),
                    picks == kinds@[x as int]@,
                    picks == draws[x as int],
                    picks.len() == free_count(column),
                    used == free_count(column.take(y as int)),
                    used <= picks.len(),
                    used <= y,
                    forall|i: int| 0 <= i < x ==> #[trigger] self.cells()[i] == refreshed_column(before[i], draws[i]),
                    forall|i: int| x < i < before.len() ==> #[trigger] self.cells()[i] == before[i],
                    forall|j: int| 0 <= j < y ==> self.cells()[x as int][j] == refreshed_column(column, picks)[j],
                    forall|j: int| y <= j < column.len() ==> self.cells()[x as int][j] == column[j],
                decreases self.height - y,
            {
                proof {
                    free_count_step(column, y as int);
                }
                if !self.cell(x, y).locked {
                    let kind = kinds[x][used];
                    self.put(x, y, kind);
                    used += 1;
                }
                y += 1;
            }
            assert(self.cells()[x as int] =~= refreshed_column(column, picks));
            x += 1;
        }
        assert(self.cells() =~= refreshed(before, draws));
    }

    /// Redraws every cell that is not held; a held cell keeps its kind. The
    /// kinds are drawn column by column, and row by row within a column.
    pub fn spin(&mut self)
        requires
            old(self).wf(),
        ensures
            final(self).wf(),
            final(self).redrawn_from(old(self)),
    {
        let mut kinds: Vec<Vec<SymbolType>> = Vec::new();
        let mut x: usize = 0;
        while x < self.width
            invariant
                x <= self.width,
                *self == *old(self),
                self.wf(),
                kinds@.len() == x,
                forall|i: int| 0 <= i < x ==> (#[trigger] kinds@[i])@.len() == free_count(self.cells()[i]),
            decreases self.width - x,
        {
            let ghost column = self.cells()[x as int];
            assert(column.len() == self.spec_height());
            let mut picks: Vec<SymbolType> = Vec::new();
            let mut y: usize = 0;
            while y < self.height
                invariant
                    x < self.width,
                    y <= self.height,
                    *self == *old(self),
                    self.wf(),
                    column == self.cells()[x as int],
                    column.len() == self.spec_height(),
                    picks@.len() == free_count(column.take(y as int)),
                decreases self.height - y,
            {
                proof {
                    free_count_step(column, y as int);
                }
                if !self.cell(x, y).locked {
                    let kind = self.rand_symbol();
                    picks.push(kind);
                }
                y += 1;
            }
            assert(column.take(y as int) =~= column);
            kinds.push(picks);
            x += 1;
        }
        assert(draws_fit(self.cells(), kind_grid(kinds)));
        self.refresh_with(&kinds);
        proof {
            assert forall|i: int, j: int| old(self).in_bounds(i, j) implies {
                &&& (#[trigger] self.at(i, j)).locked == old(self).at(i, j).locked
                &&& old(self).at(i, j).locked ==> self.at(i, j) == old(self).at(i, j)
            } by {
                assert(old(self).cells()[i].len() == old(self).spec_height());
            }
        }
    }

    pub fn get_dimensions(&self) -> (dimensions: (usize, usize))
        ensures
            dimensions.0 == self.spec_width(),
            dimensions.1 == self.spec_height(),
    {
        (self.width, self.height)
    }

    /// The cell at (`x`, `y`), which must lie on the board.
    pub fn cell(&self, x: usize, y: usize) -> (symbol: &Symbol)
        requires
            self.wf(),
            self.in_bounds(x as int, y as int),
        ensures
            *symbol == self.at(x as int, y as int),
    {
        assert(self.cells()[x as int].len() == self.spec_height());
        &self.slots[x][y]
    }
}

/// The kinds of a nested vector, column by column.
pub open spec fn kind_grid(kinds: Vec<Vec<SymbolType>>) -> Seq<Seq<SymbolType>> {
    Seq::new(kinds@.len(), |x: int| kinds@[x]@)
}

/// Cells that show the given kinds, none of them held.
pub open spec fn released(kinds: Seq<Seq<SymbolType>>) -> Seq<Seq<Symbol>> {
    Seq::new(
        kinds.len(),
        |x: int| Seq::new(kinds[x].len(), |y: int| Symbol { kind: kinds[x][y], locked: false }),
    )
}

/// The number of cells of a column that are not held.
pub open spec fn free_count(column: Seq<Symbol>) -> nat
    decreases column.len(),
{
    if column.len() == 0 {
        0
    } else {
        free_count(column.drop_last()) + if column.last().locked {
            0nat
        } else {
            1nat
        }
    }
}

/// A column after a redraw: a held cell stays, and a cell that is not held
/// shows the kind of `kinds` at the number of such cells above it.
pub open spec fn refreshed_column(column: Seq<Symbol>, kinds: Seq<SymbolType>) -> Seq<Symbol> {
    Seq::new(
        column.len(),
        |y: int|
            if column[y].locked {
                column[y]
            } else {
                Symbol { kind: kinds[free_count(column.take(y)) as int], locked: false }
            },
    )
}

/// The cells after a redraw in which column `x` takes its kinds from `kinds[x]`.
pub open spec fn refreshed(cells: Seq<Seq<Symbol>>, kinds: Seq<Seq<SymbolType>>) -> Seq<Seq<Symbol>> {
    Seq::new(cells.len(), |x: int| refreshed_column(cells[x], kinds[x]))
}

/// There is one list of kinds for each column, with one kind for each of
/// its cells that is not held.
pub open spec fn draws_fit(cells: Seq<Seq<Symbol>>, kinds: Seq<Seq<SymbolType>>) -> bool {
    &&& kinds.len() == cells.len()
    &&& forall|x: int| 0 <= x < cells.len() ==> (#[trigger] kinds[x]).len() == free_count(cells[x])
}

/// Counting the cells that are not held one row further adds the cell of
/// that row, and never passes the count of the whole column.
pub proof fn free_count_step(column: Seq<Symbol>, y: int)
    requires
        0 <= y < column.len(),
    ensures
        free_count(column.take(y + 1)) == free_count(column.take(y)) + if column[y].locked {
            0nat
        } else {
            1nat
        },
        free_count(column.take(y + 1)) <= free_count(column),
    decreases column.len() - y,
{
    assert(column.take(y + 1).drop_last() =~= column.take(y));
    assert(column.take(y + 1).last() == column[y]);
    if y + 1 < column.len() {
        free_count_step(column, y + 1);
    } else {
        assert(column.take(y + 1) =~= column);
    }
}

/// The cells of a nested vector, column by column.
pub open spec fn grid(cells: Vec<Vec<Symbol>>) -> Seq<Seq<Symbol>> {
    Seq::new(cells@.len(), |x: int| cells@[x]@)
}

/// The height of a grid: the length of its first column, 0 where it has none.
pub open spec fn column_height(cells: Seq<Seq<Symbol>>) -> nat {
    if cells.len() == 0 {
        0
    } else {
        cells[0].len()
    }
}

/// Every column is as long as the first.
pub open spec fn rectangular(cells: Seq<Seq<Symbol>>) -> bool {
    forall|x: int| 0 <= x < cells.len() ==> (#[trigger] cells[x]).len() == column_height(cells)
}

} // verus!
