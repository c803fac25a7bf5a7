//! The ledger: balance, denomination and bet, and the spin that charges the
//! bet, redraws the board and pays the lines that hit.

use crate::board::SlotBoard;
use crate::payline::{
    coords_fit, default_lines, default_paylines, kinds_along, line_coords, line_kind, segments, Coord,
    PayLine, PayLineResult, Segment,
};
use crate::symbol::{Symbol, SymbolType};
use vstd::prelude::*;

verus! {

/// An exact amount: `num` parts of which `den` make one.
#[derive(Debug, Clone, Copy)]
pub struct Fraction {
    pub num: u128,
    pub den: u128,
}

/// Why a spin was refused.
#[derive(Debug, Clone, Copy, PartialEq, Eq, Structural)]
pub enum SpinError {
    /// The bet is larger than the balance.
    InsufficientCredits,
}

/// Why a setting was refused.
#[derive(Debug, Clone, Copy, PartialEq, Eq, Structural)]
pub enum ConfigError {
    /// The denomination is not positive.
    InvalidDenomination,
    /// The bet is not positive.
    InvalidBet,
}

/// The largest value of a symbol kind.
pub const TOP_VALUE: u128 = 125;

/// Credits at which a game starts.
pub const STARTING_CREDITS: u128 = 10000;

/// The bet at which a game starts.
pub const STARTING_BET: i32 = 50;

/// What a line of `coords` wins on `board` at `rate` per point of value.
pub open spec fn line_win(board: &SlotBoard, coords: Seq<Coord>, rate: int) -> int {
    match line_kind(kinds_along(board, coords)) {
        Some(kind) => kind.spec_value() * rate,
        None => 0,
    }
}

/// What the lines win together on `board` at `rate` per point of value.
pub open spec fn winnings(board: &SlotBoard, lines: Seq<Seq<Coord>>, rate: int) -> int
    decreases lines.len(),
{
    if lines.len() == 0 {
        0
    } else {
        winnings(board, lines.drop_last(), rate) + line_win(board, lines.last(), rate)
    }
}

/// The credits that the lines win on `board` at a bet of `bet` credits: each
/// line that hits pays its kind's value times a third of the bet, rounded down.
pub open spec fn credits_won(board: &SlotBoard, lines: Seq<Seq<Coord>>, bet: int) -> int {
    winnings(board, lines, bet / 3)
}

/// The segments of the lines that hit on `board`, line after line.
pub open spec fn winning_segments(board: &SlotBoard, lines: Seq<Seq<Coord>>) -> Seq<Segment>
    decreases lines.len(),
{
    if lines.len() == 0 {
        Seq::empty()
    } else if line_kind(kinds_along(board, lines.last())) is Some {
        winning_segments(board, lines.drop_last()) + segments(lines.last())
    } else {
        winning_segments(board, lines.drop_last())
    }
}

/// The state of one game. The balance is kept in units of which `denom` make
/// one credit, so that it is a whole number at every denomination.
#[derive(Debug)]
pub struct SlotGame {
    pub board: SlotBoard,
    units: u128,
    denom: i32,
    bet: i32,
    pub lines: Vec<Segment>,
    paylines: Vec<PayLine>,
}

impl SlotGame {
    /// The balance in units: the credits times the denomination.
    pub closed spec fn spec_units(&self) -> nat {
        self.units as nat
    }

    pub closed spec fn spec_denom(&self) -> int {
        self.denom as int
    }

    pub closed spec fn spec_bet(&self) -> int {
        self.bet as int
    }

    /// The board.
    pub closed spec fn spec_board(&self) -> SlotBoard {
        self.board
    }

    /// The segments of the lines that hit at the last spin.
    pub closed spec fn spec_lines(&self) -> Seq<Segment> {
        self.lines@
    }

    /// The coordinates of the paylines.
    pub closed spec fn spec_paylines(&self) -> Seq<Seq<Coord>> {
        line_coords(self.paylines@)
    }

    /// The credits, as an exact fraction.
    pub open spec fn spec_credits(&self) -> Fraction {
        Fraction { num: self.spec_units() as u128, den: self.spec_denom() as u128 }
    }

    /// The money: the credits divided by a hundred times the denomination.
    pub open spec fn spec_money(&self) -> Fraction {
        Fraction {
            num: self.spec_units() as u128,
            den: (100 * self.spec_denom() * self.spec_denom()) as u128,
        }
    }

    /// Board, paylines and the segments of the last spin are those of `other`.
    pub open spec fn same_table(&self, other: &SlotGame) -> bool {
        &&& self.spec_board() == other.spec_board()
        &&& self.spec_lines() == other.spec_lines()
        &&& self.spec_paylines() == other.spec_paylines()
    }

    /// This game is `before` after its lines were paid: the balance has
    /// grown by the credits that the lines win on the board, in units; the
    /// segments are those of the lines that hit; nothing else has changed.
    pub open spec fn paid_from(&self, before: &SlotGame) -> bool {
        &&& self.spec_units() == before.spec_units() + credits_won(
            &before.spec_board(),
            before.spec_paylines(),
            before.spec_bet(),
        ) * before.spec_denom()
        &&& self.spec_lines() == winning_segments(&before.spec_board(), before.spec_paylines())
        &&& self.spec_board() == before.spec_board()
        &&& self.spec_paylines() == before.spec_paylines()
        &&& self.spec_bet() == before.spec_bet()
        &&& self.spec_denom() == before.spec_denom()
    }

    /// Bet and denomination are positive, the board is well formed and the
    /// paylines are the eight of the default set.
    pub open spec fn wf(&self) -> bool {
        &&& self.spec_board().wf()
        &&& 0 < self.spec_denom() <= i32::MAX
        &&& 0 < self.spec_bet() <= i32::MAX
        &&& self.spec_paylines() == default_lines()
    }

    /// Every payline lies on the board.
    pub open spec fn lines_fit(&self) -> bool {
        forall|i: int|
            0 <= i < self.spec_paylines().len() ==> coords_fit(&self.spec_board(), #[trigger] self.spec_paylines()[i])
    }

    /// What a line pays per point of its kind's value, in units: a third of
    /// the bet, rounded down, times the denomination.
    pub open spec fn rate(&self) -> int {
        (self.spec_bet() / 3) * self.spec_denom()
    }

    /// The most that one spin can pay, in units.
    pub open spec fn top_payout(&self) -> int {
        self.spec_paylines().len() * (TOP_VALUE * self.rate())
    }

    /// What a spin costs, in units: the bet times the denomination.
    pub open spec fn cost(&self) -> int {
        self.spec_bet() * self.spec_denom()
    }

    /// The balance after a spin is charged and paid stays within 128 bits.
    pub open spec fn spin_fits(&self) -> bool {
        self.spec_units() - self.cost() + self.top_payout() <= u128::MAX
    }

    /// A game on a new board, with 10000 credits at denomination 1 and a bet of 50.
    pub fn new(width: usize, height: usize) -> (game: SlotGame)
        ensures
            game.wf(),
            game.spec_board().spec_width() == width,
            game.spec_board().spec_height() == height,
            game.spec_units() == STARTING_CREDITS,
            game.spec_denom() == 1,
            game.spec_bet() == STARTING_BET,
            game.spec_lines() == Seq::<Segment>::empty(),
            forall|x: int, y: int|
                game.spec_board().in_bounds(x, y) ==> !(#[trigger] game.spec_board().at(x, y)).locked,
            width >= 3 && height >= 3 ==> game.lines_fit(),
            game.spin_fits(),
    {
        let game = SlotGame {
            board: SlotBoard::new(width, height),
            denom: 1,
            bet: STARTING_BET,
            units: STARTING_CREDITS,
            lines: Vec::new(),
            paylines: default_paylines(),
        };
        proof {
            default_lines_fit(&game.board);
            assert(game.spec_paylines().len() == 8);
        }
        game
    }

    /// The board.
    pub fn board(&self) -> (board: &SlotBoard)
        ensures
            *board == self.spec_board(),
    {
        &self.board
    }

    /// The segments of the lines that hit at the last spin, line after line.
    pub fn winning_lines(&self) -> (lines: &Vec<Segment>)
        ensures
            lines@ == self.spec_lines(),
    {
        &self.lines
    }

    pub fn get_denom(&self) -> (denom: i32)
        ensures
            denom == self.spec_denom(),
    {
        self.denom
    }

    /// Changes the denomination. The balance keeps its units, so the credits
    /// change by the old denomination over the new one. A denomination that
    /// is not positive is refused and nothing changes.
    pub fn set_denom(&mut self, n: i32) -> (done: Result<(), ConfigError>)
        ensures
            n <= 0 ==> done == Err::<(), ConfigError>(ConfigError::InvalidDenomination),
            n <= 0 ==> *final(self) == *old(self),
            n > 0 ==> done is Ok,
            n > 0 ==> final(self).spec_denom() == n,
            n > 0 ==> final(self).spec_bet() == old(self).spec_bet(),
            final(self).spec_units() == old(self).spec_units(),
            final(self).same_table(old(self)),
    {
        if n <= 0 {
            return Err(ConfigError::InvalidDenomination);
        }
        self.denom = n;
        Ok(())
    }

    pub fn get_bet(&self) -> (bet: i32)
        ensures
            bet == self.spec_bet(),
    {
        self.bet
    }

    /// Changes the bet, in credits. A bet that is not positive is refused and
    /// nothing changes.
    pub fn set_bet(&mut self, n: i32) -> (done: Result<(), ConfigError>)
        ensures
            n <= 0 ==> done == Err::<(), ConfigError>(ConfigError::InvalidBet),
            n <= 0 ==> *final(self) == *old(self),
            n > 0 ==> done is Ok,
            n > 0 ==> final(self).spec_bet() == n,
            n > 0 ==> final(self).spec_denom() == old(self).spec_denom(),
            final(self).spec_units() == old(self).spec_units(),
            final(self).same_table(old(self)),
    {
        if n <= 0 {
            return Err(ConfigError::InvalidBet);
        }
        self.bet = n;
        Ok(())
    }

    /// The balance in credits.
    pub fn get_credits(&self) -> (credits: Fraction)
        requires
            self.wf(),
        ensures
            credits == self.spec_credits(),
            credits.num == self.spec_units(),
            credits.den == self.spec_denom(),
    {
        Fraction { num: self.units, den: self.denom as u128 }
    }

    /// The balance in money.
    pub fn get_money(&self) -> (money: Fraction)
        requires
            self.wf(),
        ensures
            money == self.spec_money(),
            money.num == self.spec_units(),
            money.den == 100 * self.spec_denom() * self.spec_denom(),
    {
        let denom = self.denom as u128;
        assert(100 * denom * denom <= 100 * 0x7fff_ffff * 0x7fff_ffff) by (nonlinear_arith)
            requires
                0 < denom <= 0x7fff_ffff,
        ;
        Fraction { num: self.units, den: 100 * denom * denom }
    }

    /// The cell at (`x`, `y`), which must lie on the board.
    pub fn get_slot(&self, x: usize, y: usize) -> (symbol: &Symbol)
        requires
            self.spec_board().wf(),
            self.spec_board().in_bounds(x as int, y as int),
        ensures
            *symbol == self.spec_board().at(x as int, y as int),
    {
        self.board.cell(x, y)
    }
    /// Whether a spin can be made: the paylines lie on the board, and the
    /// balance after the largest payout stays within 128 bits.
    pub fn can_spin(&self) -> (ready: bool)
        requires
            self.wf(),
        ensures
            ready == (self.lines_fit() && self.spin_fits()),
    {
        proof {
            default_lines_fit(&self.board);
            assert(self.spec_paylines().len() == 8);
        }
        let (width, height) = self.board.get_dimensions();
        let third = (self.bet / 3) as u128;
        let bet = self.bet as u128;
        let denom = self.denom as u128;
        assert(third * denom <= 0x7fff_ffff * 0x7fff_ffff && bet * denom <= 0x7fff_ffff * 0x7fff_ffff)
            by (nonlinear_arith)
            requires
                0 <= third <= 0x7fff_ffff,
                0 < bet <= 0x7fff_ffff,
                0 < denom <= 0x7fff_ffff,
        ;
        let top: u128 = 8 * (TOP_VALUE * (third * denom));
        let cost: u128 = bet * denom;
        width >= 3 && height >= 3 && (self.units < cost || self.units - cost <= u128::MAX - top)
    }

    /// Credits one matched line of `kind`: its value times a third of the
    /// bet, rounded down; in units, times the denomination.
    fn pay_symbol(&mut self, kind: SymbolType)
        requires
            old(self).wf(),
            old(self).spec_units() + kind.spec_value() * old(self).rate() <= u128::MAX,
        ensures
            final(self).spec_units() == old(self).spec_units() + kind.spec_value() * old(self).rate(),
            final(self).spec_bet() == old(self).spec_bet(),
            final(self).spec_denom() == old(self).spec_denom(),
            final(self).same_table(old(self)),
    {
        let third = (self.bet / 3) as u128;
        let denom = self.denom as u128;
        assert(third * denom <= 0x7fff_ffff * 0x7fff_ffff) by (nonlinear_arith)
            requires
                0 <= third <= 0x7fff_ffff,
                0 < denom <= 0x7fff_ffff,
        ;
        let rate = third * denom;
        let value = kind.value() as u128;
        assert(value * rate <= 125 * rate) by (nonlinear_arith)
            requires
                0 <= value <= 125,
                0 <= rate,
        ;
        self.units = self.units + value * rate;
    }

    /// Tests every payline against the board, credits each one that hits and
    /// records its segments in place of those of the spin before.
    pub fn pay(&mut self)
        requires
            old(self).wf(),
            old(self).lines_fit(),
            old(self).spec_units() + old(self).top_payout() <= u128::MAX,
        ensures
            final(self).wf(),
            final(self).paid_from(old(self)),
    {
        self.lines.clear();
        let ghost rate: int = (self.spec_bet() / 3) * self.spec_denom();
        let ghost all = self.spec_paylines();
        assert(rate >= 0) by (nonlinear_arith)
            requires
                rate == (self.spec_bet() / 3) * self.spec_denom(),
                self.spec_bet() > 0,
                self.spec_denom() > 0,
        ;
        let mut i: usize = 0;
        while i < self.paylines.len()
            invariant
                i <= self.paylines@.len(),
                self.wf(),
                self.lines_fit(),
                all == self.spec_paylines(),
                all.len() == 8,
                rate >= 0,
                rate == (self.spec_bet() / 3) * self.spec_denom(),
                self.board == old(self).board,
                self.paylines@.len() == old(self).paylines@.len(),
                self.bet == old(self).bet,
                self.denom == old(self).denom,
                old(self).spec_units() + all.len() * (TOP_VALUE * rate) <= u128::MAX,
                winnings(&self.board, all.take(i as int), rate) <= i * (TOP_VALUE * rate),
                self.units == old(self).units + winnings(&self.board, all.take(i as int), rate),
                self.lines@ == winning_segments(&self.board, all.take(i as int)),
            decreases self.paylines@.len() - i,
        {
            proof {
                assert(all.take(i as int + 1).drop_last() =~= all.take(i as int));
                assert(all.take(i as int + 1).last() == all[i as int]);
                assert(all[i as int] == self.paylines@[i as int].slots@);
                assert(default_lines()[i as int].len() == 3);
                assert(coords_fit(&self.board, all[i as int]));
                assert((i + 1) * (TOP_VALUE * rate) == i * (TOP_VALUE * rate) + TOP_VALUE * rate)
                    by (nonlinear_arith);
                assert((i + 1) * (TOP_VALUE * rate) <= all.len() * (TOP_VALUE * rate)) by (nonlinear_arith)
                    requires
                        i + 1 <= all.len(),
                        TOP_VALUE * rate >= 0,
                ;
            }
            let result = self.paylines[i].check(&self.board);
            match result {
                PayLineResult::Success(kind, mut lines) => {
                    assert(kind.spec_value() * rate <= TOP_VALUE * rate) by (nonlinear_arith)
                        requires
                            kind.spec_value() <= TOP_VALUE,
                            rate >= 0,
                    ;
                    self.pay_symbol(kind);
                    self.lines.append(&mut lines);
                },
                PayLineResult::Fail => {},
            }
            i += 1;
        }
        proof {
            assert(all.take(i as int) =~= all);
            winnings_scale(&self.board, all, self.spec_bet() / 3, self.spec_denom());
        }
    }

    /// Charges the bet, redraws the board and pays the lines that hit. The
    /// money that comes back is the balance after the charge and before the
    /// payout. Where the balance does not cover the bet, nothing changes.
    pub fn spin(&mut self) -> (result: Result<Fraction, SpinError>)
        requires
            old(self).wf(),
            old(self).lines_fit(),
            old(self).spin_fits(),
        ensures
            old(self).spec_units() < old(self).cost() ==> {
                &&& result == Err::<Fraction, SpinError>(SpinError::InsufficientCredits)
                &&& *final(self) == *old(self)
            },
            old(self).spec_units() >= old(self).cost() ==> {
                &&& result is Ok
                &&& result->Ok_0.num == old(self).spec_units() - old(self).cost()
                &&& result->Ok_0.den == 100 * old(self).spec_denom() * old(self).spec_denom()
                &&& final(self).wf()
                &&& final(self).spec_bet() == old(self).spec_bet()
                &&& final(self).spec_denom() == old(self).spec_denom()
                &&& final(self).spec_paylines() == old(self).spec_paylines()
                &&& final(self).spec_board().redrawn_from(&old(self).spec_board())
                &&& final(self).spec_units() == old(self).spec_units() - old(self).cost() + credits_won(
                    &final(self).spec_board(),
                    old(self).spec_paylines(),
                    old(self).spec_bet(),
                ) * old(self).spec_denom()
                &&& final(self).spec_lines() == winning_segments(
                    &final(self).spec_board(),
                    old(self).spec_paylines(),
                )
            },
    {
        let bet = self.bet as u128;
        let denom = self.denom as u128;
        assert(bet * denom <= 0x7fff_ffff * 0x7fff_ffff) by (nonlinear_arith)
            requires
                0 < bet <= 0x7fff_ffff,
                0 < denom <= 0x7fff_ffff,
        ;
        let cost = bet * denom;
        if self.units < cost {
            return Err(SpinError::InsufficientCredits);
        }
        self.units = self.units - cost;
        let money = self.get_money();
        self.board.spin();
        self.pay();
        Ok(money)
    }
}

/// Winnings grow with the rate: at `rate * factor` the lines win `factor`
/// times what they win at `rate`.
pub proof fn winnings_scale(board: &SlotBoard, lines: Seq<Seq<Coord>>, rate: int, factor: int)
    ensures
        winnings(board, lines, rate * factor) == winnings(board, lines, rate) * factor,
    decreases lines.len(),
{
    if lines.len() > 0 {
        winnings_scale(board, lines.drop_last(), rate, factor);
        let head = winnings(board, lines.drop_last(), rate);
        match line_kind(kinds_along(board, lines.last())) {
            Some(kind) => {
                let value = kind.spec_value();
                assert(head * factor + value * (rate * factor) == (head + value * rate) * factor)
                    by (nonlinear_arith);
            },
            None => {},
        }
    }
}

/// The default paylines lie on a board exactly when it has at least three
/// columns and three rows.
pub proof fn default_lines_fit(board: &SlotBoard)
    ensures
        (forall|i: int| 0 <= i < default_lines().len() ==> coords_fit(board, #[trigger] default_lines()[i]))
            <==> (board.spec_width() >= 3 && board.spec_height() >= 3),
{
    if board.spec_width() >= 3 && board.spec_height() >= 3 {
        assert forall|i: int| 0 <= i < default_lines().len() implies coords_fit(
            board,
            #[trigger] default_lines()[i],
        ) by {
            let line = default_lines()[i];
            assert(line.len() == 3);
            assert forall|j: int| 0 <= j < line.len() implies board.in_bounds(
                (#[trigger] line[j]).0 as int,
                line[j].1 as int,
            ) by {
                assert(line[j].0 < 3 && line[j].1 < 3);
            }
        }
    }
    if forall|i: int| 0 <= i < default_lines().len() ==> coords_fit(board, #[trigger] default_lines()[i]) {
        let line = default_lines()[2];
        assert(coords_fit(board, line));
        assert(line[2] == (2usize, 2usize));
        assert(board.in_bounds(line[2].0 as int, line[2].1 as int));
    }
}

/// At a rate that is not negative, the lines win nothing negative, and at
/// most the top value at that rate for each line.
pub proof fn winnings_bounds(board: &SlotBoard, lines: Seq<Seq<Coord>>, rate: int)
    requires
        rate >= 0,
    ensures
        0 <= winnings(board, lines, rate) <= lines.len() * (TOP_VALUE * rate),
    decreases lines.len(),
{
    if lines.len() > 0 {
        winnings_bounds(board, lines.drop_last(), rate);
        let won = line_win(board, lines.last(), rate);
        assert(0 <= won <= TOP_VALUE * rate) by {
            match line_kind(kinds_along(board, lines.last())) {
                Some(kind) => {
                    let value = kind.spec_value();
                    assert(0 <= value * rate <= TOP_VALUE * rate) by (nonlinear_arith)
                        requires
                            0 <= value <= TOP_VALUE,
                            rate >= 0,
                    ;
                },
                None => {
                    assert(0 <= TOP_VALUE * rate) by (nonlinear_arith)
                        requires
                            rate >= 0,
                    ;
                },
            }
        }
        assert(lines.len() * (TOP_VALUE * rate) == (lines.len() - 1) * (TOP_VALUE * rate) + TOP_VALUE * rate)
            by (nonlinear_arith);
    } else {
        assert(lines.len() * (TOP_VALUE * rate) == 0) by (nonlinear_arith)
            requires
                lines.len() == 0,
        ;
    }
}

/// The sum of the values of the kinds of the lines that hit on `board`.
pub open spec fn matched_value(board: &SlotBoard, lines: Seq<Seq<Coord>>) -> int {
    winnings(board, lines, 1)
}

/// The credits won are the values of the lines that hit, each times a third
/// of the bet, rounded down.
pub proof fn credits_won_by_value(board: &SlotBoard, lines: Seq<Seq<Coord>>, bet: int)
    ensures
        credits_won(board, lines, bet) == matched_value(board, lines) * (bet / 3),
{
    winnings_scale(board, lines, 1, bet / 3);
}

/// At a bet of 30 credits the lines win ten times the values of those that hit.
pub proof fn payout_at_thirty(board: &SlotBoard, lines: Seq<Seq<Coord>>)
    ensures
        credits_won(board, lines, 30) == matched_value(board, lines) * 10,
{
    credits_won_by_value(board, lines, 30);
}

/// Paying the lines at a bet of 30 credits adds, for every game and every
/// board, ten credits for each point of value of the lines that hit.
pub proof fn pay_at_thirty(before: &SlotGame, after: &SlotGame)
    requires
        after.paid_from(before),
        before.spec_bet() == 30,
    ensures
        after.spec_units() - before.spec_units() == matched_value(
            &before.spec_board(),
            before.spec_paylines(),
        ) * 10 * before.spec_denom(),
{
    payout_at_thirty(&before.spec_board(), before.spec_paylines());
}

/// What paying the lines adds in credits depends on the board, the paylines
/// and the bet alone: two games that agree on these are paid the same
/// credits, each in its own denomination.
pub proof fn pay_depends_on_board_and_bet(
    first: &SlotGame,
    first_paid: &SlotGame,
    second: &SlotGame,
    second_paid: &SlotGame,
)
    requires
        first_paid.paid_from(first),
        second_paid.paid_from(second),
        first.spec_board() == second.spec_board(),
        first.spec_paylines() == second.spec_paylines(),
        first.spec_bet() == second.spec_bet(),
    ensures
        first_paid.spec_units() - first.spec_units() == credits_won(
            &first.spec_board(),
            first.spec_paylines(),
            first.spec_bet(),
        ) * first.spec_denom(),
        second_paid.spec_units() - second.spec_units() == credits_won(
            &first.spec_board(),
            first.spec_paylines(),
            first.spec_bet(),
        ) * second.spec_denom(),
{
}

/// The money is fixed by the balance and the denomination: as long as
/// neither changes, asking for it again gives the same amount.
pub proof fn money_is_stable(first: &SlotGame, second: &SlotGame)
    requires
        first.spec_units() == second.spec_units(),
        first.spec_denom() == second.spec_denom(),
    ensures
        first.spec_money() == second.spec_money(),
        first.spec_credits() == second.spec_credits(),
{
}

} // verus!
