//! Paylines: patterns of board coordinates, and the rule by which one pays.

use crate::board::SlotBoard;
use crate::symbol::SymbolType;
use vstd::prelude::*;

verus! {

/// A board coordinate: column, then row.
pub type Coord = (usize, usize);

/// A segment between two neighbouring coordinates of a payline.
pub type Segment = (Coord, Coord);

/// A line of kinds pays as `kind` when every symbol on it is `kind` or wild,
/// and `kind` is wild only where no other kind is on the line.
pub open spec fn pays(symbols: Seq<SymbolType>, kind: SymbolType) -> bool {
    &&& forall|i: int| 0 <= i < symbols.len() ==> symbols[i] == kind || symbols[i] == SymbolType::Wild
    &&& kind == SymbolType::Wild || exists|i: int| 0 <= i < symbols.len() && symbols[i] == kind
}

/// The kind that a line pays as, if it pays at all.
pub open spec fn line_kind(symbols: Seq<SymbolType>) -> Option<SymbolType> {
    if exists|kind: SymbolType| pays(symbols, kind) {
        Some(choose|kind: SymbolType| pays(symbols, kind))
    } else {
        None
    }
}

/// The segments that join each coordinate of a line to the next.
pub open spec fn segments(coords: Seq<Coord>) -> Seq<Segment> {
    Seq::new(
        if coords.len() == 0 {
            0
        } else {
            (coords.len() - 1) as nat
        },
        |i: int| (coords[i], coords[i + 1]),
    )
}

/// Every coordinate of `coords` lies on the board.
pub open spec fn coords_fit(board: &SlotBoard, coords: Seq<Coord>) -> bool {
    forall|i: int| 0 <= i < coords.len() ==> board.in_bounds((#[trigger] coords[i]).0 as int, coords[i].1 as int)
}

/// The kinds that the board shows at `coords`, in order.
pub open spec fn kinds_along(board: &SlotBoard, coords: Seq<Coord>) -> Seq<SymbolType> {
    Seq::new(coords.len(), |i: int| board.at(coords[i].0 as int, coords[i].1 as int).kind)
}

/// The lines of a board of three columns and three rows: the columns, the
/// rows, then the two diagonals.
pub open spec fn default_lines() -> Seq<Seq<Coord>> {
    seq![
        seq![(0usize, 0usize), (0usize, 1usize), (0usize, 2usize)],
        seq![(1usize, 0usize), (1usize, 1usize), (1usize, 2usize)],
        seq![(2usize, 0usize), (2usize, 1usize), (2usize, 2usize)],
        seq![(0usize, 0usize), (1usize, 0usize), (2usize, 0usize)],
        seq![(0usize, 1usize), (1usize, 1usize), (2usize, 1usize)],
        seq![(0usize, 2usize), (1usize, 2usize), (2usize, 2usize)],
        seq![(0usize, 0usize), (1usize, 1usize), (2usize, 2usize)],
        seq![(0usize, 2usize), (1usize, 1usize), (2usize, 0usize)],
    ]
}

/// The coordinates of each line of a list of paylines.
pub open spec fn line_coords(paylines: Seq<PayLine>) -> Seq<Seq<Coord>> {
    Seq::new(paylines.len(), |i: int| paylines[i].slots@)
}

/// A line through three coordinates.
fn line_of(first: Coord, second: Coord, third: Coord) -> (line: PayLine)
    ensures
        line.slots@ == seq![first, second, third],
{
    let mut slots: Vec<Coord> = Vec::new();
    slots.push(first);
    slots.push(second);
    slots.push(third);
    assert(slots@ =~= seq![first, second, third]);
    PayLine { slots }
}

/// The eight paylines of a board of three columns and three rows.
pub fn default_paylines() -> (paylines: Vec<PayLine>)
    ensures
        line_coords(paylines@) == default_lines(),
{
    let mut paylines: Vec<PayLine> = Vec::new();
    paylines.push(line_of((0, 0), (0, 1), (0, 2)));
    paylines.push(line_of((1, 0), (1, 1), (1, 2)));
    paylines.push(line_of((2, 0), (2, 1), (2, 2)));
    paylines.push(line_of((0, 0), (1, 0), (2, 0)));
    paylines.push(line_of((0, 1), (1, 1), (2, 1)));
    paylines.push(line_of((0, 2), (1, 2), (2, 2)));
    paylines.push(line_of((0, 0), (1, 1), (2, 2)));
    paylines.push(line_of((0, 2), (1, 1), (2, 0)));
    assert(line_coords(paylines@) =~= default_lines());
    paylines
}

/// A line pays as at most one kind.
pub proof fn pays_unique(symbols: Seq<SymbolType>, first: SymbolType, second: SymbolType)
    requires
        pays(symbols, first),
        pays(symbols, second),
    ensures
        first == second,
{
    if first != SymbolType::Wild {
        let i = choose|i: int| 0 <= i < symbols.len() && symbols[i] == first;
        assert(symbols[i] == second || symbols[i] == SymbolType::Wild);
    } else if second != SymbolType::Wild {
        let i = choose|i: int| 0 <= i < symbols.len() && symbols[i] == second;
        assert(symbols[i] == first || symbols[i] == SymbolType::Wild);
    }
}

/// `line_kind` is the kind that the line pays as, and is `None` exactly when
/// the line pays as no kind.
pub proof fn line_kind_pays(symbols: Seq<SymbolType>, kind: SymbolType)
    ensures
        line_kind(symbols) == Some(kind) <==> pays(symbols, kind),
{
    if pays(symbols, kind) {
        let chosen = choose|k: SymbolType| pays(symbols, k);
        pays_unique(symbols, chosen, kind);
    }
}

/// Resolves a line of kinds: the first symbol that is not wild fixes the
/// kind, and every later symbol must be that kind or wild. A line of wilds
/// alone pays as wild.
pub fn resolve(symbols: &Vec<SymbolType>) -> (resolved: Option<SymbolType>)
    requires
        symbols@.len() >= 1,
    ensures
        resolved == line_kind(symbols@),
{
    let mut stored = symbols[0];
    let mut i: usize = 1;
    while i < symbols.len()
        invariant
            1 <= i <= symbols@.len(),
            forall|j: int| 0 <= j < i ==> symbols@[j] == stored || symbols@[j] == SymbolType::Wild,
            stored == SymbolType::Wild || exists|j: int| 0 <= j < i && symbols@[j] == stored,
        decreases symbols@.len() - i,
    {
        if stored == SymbolType::Wild {
            stored = symbols[i];
        }
        if symbols[i] != stored && symbols[i] != SymbolType::Wild {
            proof {
                let j = choose|j: int| 0 <= j < i && symbols@[j] == stored;
                assert forall|kind: SymbolType| !pays(symbols@, kind) by {
                    if pays(symbols@, kind) {
                        assert(symbols@[j] == kind || symbols@[j] == SymbolType::Wild);
                        assert(symbols@[i as int] == kind || symbols@[i as int] == SymbolType::Wild);
                    }
                }
            }
            return None;
        }
        i += 1;
    }
    proof {
        assert(pays(symbols@, stored));
        line_kind_pays(symbols@, stored);
    }
    Some(stored)
}

/// An ordered list of board coordinates that is tested as one line.
#[derive(Debug)]
pub struct PayLine {
    pub slots: Vec<Coord>,
}

/// What a payline gave on a board.
#[derive(Debug)]
pub enum PayLineResult {
    /// The line pays as the given kind; the segments join its coordinates.
    Success(SymbolType, Vec<Segment>),
    /// The line does not pay.
    Fail,
}

impl PayLine {
    /// Every coordinate of the line lies on the board.
    pub open spec fn fits(&self, board: &SlotBoard) -> bool {
        coords_fit(board, self.slots@)
    }

    /// The kinds that the board shows along the line.
    pub open spec fn kinds_on(&self, board: &SlotBoard) -> Seq<SymbolType> {
        kinds_along(board, self.slots@)
    }

    /// The segments between neighbouring coordinates, in order.
    pub fn to_lines(&self) -> (lines: Vec<Segment>)
        ensures
            lines@ == segments(self.slots@),
    {
        let mut lines: Vec<Segment> = Vec::new();
        let mut i: usize = 1;
        while i < self.slots.len()
            invariant
                1 <= i,
                i <= self.slots@.len() || i == 1,
                lines@.len() == i - 1,
                forall|j: int| 0 <= j < i - 1 ==> lines@[j] == (self.slots@[j], self.slots@[j + 1]),
            decreases self.slots@.len() - i,
        {
            lines.push((self.slots[i - 1], self.slots[i]));
            i += 1;
        }
        assert(lines@ =~= segments(self.slots@));
        lines
    }

    /// Reads the kinds along the line.
    pub fn get_symbols(&self, board: &SlotBoard) -> (symbols: Vec<SymbolType>)
        requires
            board.wf(),
            self.fits(board),
        ensures
            symbols@ == self.kinds_on(board),
    {
        let mut symbols: Vec<SymbolType> = Vec::new();
        let mut i: usize = 0;
        while i < self.slots.len()
            invariant
                i <= self.slots@.len(),
                board.wf(),
                self.fits(board),
                symbols@.len() == i,
                forall|j: int| 0 <= j < i ==> symbols@[j] == self.kinds_on(board)[j],
            decreases self.slots@.len() - i,
        {
            let (x, y) = self.slots[i];
            symbols.push(board.cell(x, y).kind);
            i += 1;
        }
        assert(symbols@ =~= self.kinds_on(board));
        symbols
    }

    /// Tests the line against the board.
    pub fn check(&self, board: &SlotBoard) -> (result: PayLineResult)
        requires
            board.wf(),
            self.fits(board),
            self.slots@.len() >= 1,
        ensures
            match result {
                PayLineResult::Success(kind, lines) => {
                    &&& line_kind(self.kinds_on(board)) == Some(kind)
                    &&& lines@ == segments(self.slots@)
                },
                PayLineResult::Fail => line_kind(self.kinds_on(board)) is None,
            },
    {
        let symbols = self.get_symbols(board);
        match resolve(&symbols) {
            Some(kind) => PayLineResult::Success(kind, self.to_lines()),
            None => PayLineResult::Fail,
        }
    }
}

} // verus!
