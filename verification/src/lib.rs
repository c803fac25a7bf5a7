//! Game logic of a three-reel slot machine: symbols, a weighted sampler,
//! the board, payline evaluation and the credit ledger.

pub mod board;
pub mod game;
pub mod payline;
pub mod sampler;
pub mod symbol;

pub use board::SlotBoard;
pub use game::{ConfigError, Fraction, SlotGame, SpinError};
pub use payline::{default_paylines, resolve, PayLine, PayLineResult};
pub use sampler::Sampler;
pub use symbol::{Symbol, SymbolType};
