//! Which of the two trading environments an account lives in.
use vstd::prelude::*;

verus! {

/// The trading environment.
#[derive(Debug, Clone, Copy)]
pub enum TradingType {
    /// Simulated trading.
    Paper,
    /// Trading with real money.
    Live,
}

impl TradingType {
    /// The address of the trading interface of the environment.
    pub open spec fn base_url(self) -> Seq<char> {
        match self {
            TradingType::Paper => "https://paper-api.alpaca.markets"@,
            TradingType::Live => "https://api.alpaca.markets"@,
        }
    }

    /// The address of the trading interface of the environment.
    pub fn trading_url(&self) -> (r: String)
        ensures
            r@ == self.base_url(),
    {
        match self {
            TradingType::Paper => "https://paper-api.alpaca.markets".to_owned(),
            TradingType::Live => "https://api.alpaca.markets".to_owned(),
        }
    }
}

impl Default for TradingType {
    fn default() -> (r: Self)
        ensures
            r == TradingType::Paper,
    {
        TradingType::Paper
    }
}

impl PartialEq for TradingType {
    fn eq(&self, other: &Self) -> (r: bool) {
        match (self, other) {
            (TradingType::Paper, TradingType::Paper) => true,
            (TradingType::Live, TradingType::Live) => true,
            _ => false,
        }
    }
}

impl vstd::std_specs::cmp::PartialEqSpecImpl for TradingType {
    open spec fn obeys_eq_spec() -> bool {
        true
    }

    open spec fn eq_spec(&self, other: &Self) -> bool {
        *self == *other
    }
}

} // verus!
