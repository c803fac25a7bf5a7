//! The symbols that can appear on a reel, and what each is worth.

use vstd::prelude::*;

verus! {

/// The kind of a symbol on the board.
#[derive(Debug, Clone, Copy, PartialEq, Eq, Structural)]
pub enum SymbolType {
    Nine,
    Ten,
    Jack,
    Queen,
    King,
    Ace,
    Coffee,
    Cake,
    Viking,
    Dragon,
    Wild,
}

/// Number of symbol kinds.
pub const KIND_COUNT: usize = 11;

/// The kinds in sampling order: the kind drawn for index `i` is `kind_list()[i]`.
pub open spec fn kind_list() -> Seq<SymbolType> {
    seq![
        SymbolType::Nine,
        SymbolType::Ten,
        SymbolType::Jack,
        SymbolType::Queen,
        SymbolType::King,
        SymbolType::Ace,
        SymbolType::Coffee,
        SymbolType::Cake,
        SymbolType::Viking,
        SymbolType::Dragon,
        SymbolType::Wild,
    ]
}

/// Relative sampling weights in quarter units, in the order of `kind_list()`:
/// nine 30, ten 30, jack 20, queen 15, king 10, ace 8, coffee 7, cake 5,
/// viking 3, dragon 1 and wild three quarters.
pub open spec fn kind_weights() -> Seq<u32> {
    seq![120u32, 120u32, 80u32, 60u32, 40u32, 32u32, 28u32, 20u32, 12u32, 4u32, 3u32]
}

impl SymbolType {
    /// The text shown for this kind.
    pub open spec fn label(self) -> Seq<char> {
        match self {
            SymbolType::Nine => "9"@,
            SymbolType::Ten => "10"@,
            SymbolType::Jack => "J"@,
            SymbolType::Queen => "Q"@,
            SymbolType::King => "K"@,
            SymbolType::Ace => "A"@,
            SymbolType::Coffee => "Coffee"@,
            SymbolType::Cake => "Cake"@,
            SymbolType::Viking => "Viking"@,
            SymbolType::Dragon => "Dragon"@,
            SymbolType::Wild => "Wild"@,
        }
    }

    /// What one matched line of this kind pays, before scaling by the bet.
    pub open spec fn spec_value(self) -> int {
        match self {
            SymbolType::Nine => 5,
            SymbolType::Ten => 7,
            SymbolType::Jack => 10,
            SymbolType::Queen => 15,
            SymbolType::King => 20,
            SymbolType::Ace => 25,
            SymbolType::Coffee => 30,
            SymbolType::Cake => 40,
            SymbolType::Viking => 50,
            SymbolType::Dragon => 100,
            SymbolType::Wild => 125,
        }
    }

    /// Point size at which the label is drawn: short labels large, words small.
    pub open spec fn spec_font_size(self) -> int {
        match self {
            SymbolType::Coffee | SymbolType::Cake | SymbolType::Viking | SymbolType::Dragon => 40,
            SymbolType::Wild => 60,
            _ => 70,
        }
    }

    /// Whether two kinds match: a wild matches every kind, on either side,
    /// and two kinds that are not wild match only where they are the same.
    pub open spec fn spec_matches(self, other: SymbolType) -> bool {
        self == other || self == SymbolType::Wild || other == SymbolType::Wild
    }

    pub fn to_string(&self) -> (s: String)
        ensures
            s@ == self.label(),
    {
        match self {
            SymbolType::Nine => "9".to_string(),
            SymbolType::Ten => "10".to_string(),
            SymbolType::Jack => "J".to_string(),
            SymbolType::Queen => "Q".to_string(),
            SymbolType::King => "K".to_string(),
            SymbolType::Ace => "A".to_string(),
            SymbolType::Coffee => "Coffee".to_string(),
            SymbolType::Cake => "Cake".to_string(),
            SymbolType::Viking => "Viking".to_string(),
            SymbolType::Dragon => "Dragon".to_string(),
            SymbolType::Wild => "Wild".to_string(),
        }
    }

    pub fn font_size(&self) -> (size: i32)
        ensures
            size == self.spec_font_size(),
    {
        match self {
            SymbolType::Nine => 70,
            SymbolType::Ten => 70,
            SymbolType::Jack => 70,
            SymbolType::Queen => 70,
            SymbolType::King => 70,
            SymbolType::Ace => 70,
            SymbolType::Coffee => 40,
            SymbolType::Cake => 40,
            SymbolType::Viking => 40,
            SymbolType::Dragon => 40,
            SymbolType::Wild => 60,
        }
    }

    pub fn matches(&self, other: SymbolType) -> (m: bool)
        ensures
            m == self.spec_matches(other),
    {
        *self == other || *self == SymbolType::Wild || other == SymbolType::Wild
    }

    /// The payout of one matched line of this kind, before scaling by the bet.
    pub fn value(&self) -> (v: u32)
        ensures
            v == self.spec_value(),
    {
        match self {
            SymbolType::Nine => 5,
            SymbolType::Ten => 7,
            SymbolType::Jack => 10,
            SymbolType::Queen => 15,
            SymbolType::King => 20,
            SymbolType::Ace => 25,
            SymbolType::Coffee => 30,
            SymbolType::Cake => 40,
            SymbolType::Viking => 50,
            SymbolType::Dragon => 100,
            SymbolType::Wild => 125,
        }
    }

    /// The kind that stands at `index` in the sampling order.
    pub fn from_index(index: usize) -> (kind: SymbolType)
        requires
            index < KIND_COUNT,
        ensures
            kind == kind_list()[index as int],
    {
        if index == 0 {
            SymbolType::Nine
        } else if index == 1 {
            SymbolType::Ten
        } else if index == 2 {
            SymbolType::Jack
        } else if index == 3 {
            SymbolType::Queen
        } else if index == 4 {
            SymbolType::King
        } else if index == 5 {
            SymbolType::Ace
        } else if index == 6 {
            SymbolType::Coffee
        } else if index == 7 {
            SymbolType::Cake
        } else if index == 8 {
            SymbolType::Viking
        } else if index == 9 {
            SymbolType::Dragon
        } else {
            SymbolType::Wild
        }
    }
}

/// One board position: the kind it shows, and whether it is held.
#[derive(Debug, Clone, Copy, PartialEq, Eq, Structural)]
pub struct Symbol {
    pub kind: SymbolType,
    pub locked: bool,
}

} // verus!
