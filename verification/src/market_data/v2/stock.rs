//! Historical and latest market data for stocks: what can be asked for, the
//! answers by symbol, and the tables of codes that the answers use.
use crate::json::Float64;
use crate::market_data::v2::table::{
    all_empty, contains, count_all, find, find_mut, flatten, flattened, lookup, none_has_items,
    place, symbols_of, total_len,
};
use std::collections::HashMap;
use vstd::prelude::*;

verus! {

/// Which auctions are wanted.
#[derive(Debug, Clone)]
pub struct HistoricalAuctionsParams {
    /// The symbols asked about.
    pub symbols: Vec<String>,
    /// The first moment wanted.
    pub start: Option<String>,
    /// The last moment wanted.
    pub end: Option<String>,
    /// The largest number of items on a page.
    pub limit: Option<u16>,
    /// The day as of which symbols are read.
    pub asof_date: Option<String>,
    /// The feed to read from.
    pub feed: Option<String>,
    /// The currency of the prices.
    pub currency: Option<String>,
    /// Where the page begins.
    pub page_token: Option<String>,
    /// The order of the items: `asc` or `desc`.
    pub sort: Option<String>,
}

impl HistoricalAuctionsParams {
    /// Parameters that ask for the oldest auctions first and leave every other optional field out.
    pub fn new(symbols: Vec<String>) -> (r: Self)
        ensures
            r.symbols == symbols,
            (r.start is None),
            (r.end is None),
            (r.limit is None),
            (r.asof_date is None),
            (r.feed is None),
            (r.currency is None),
            (r.page_token is None),
            r.sort.deep_view() == Some("asc"@),
    {
        HistoricalAuctionsParams {
            symbols,
            start: None,
            end: None,
            limit: None,
            asof_date: None,
            feed: None,
            currency: None,
            page_token: None,
            sort: Some("asc".to_owned()),
        }
    }
}

/// Which bars are wanted.
#[derive(Debug, Clone)]
pub struct HistoricalBarParams {
    /// The symbols asked about.
    pub symbols: Vec<String>,
    /// The length of a bar, such as `1Min` or `1Day`.
    pub timeframe: String,
    /// The first moment wanted.
    pub start: Option<String>,
    /// The last moment wanted.
    pub end: Option<String>,
    /// The largest number of items on a page.
    pub limit: Option<u16>,
    /// Which corporate actions the prices are adjusted for.
    pub adjustment: Option<String>,
    /// The day as of which symbols are read.
    pub asof: Option<String>,
    /// The feed to read from.
    pub feed: Option<String>,
    /// The currency of the prices.
    pub currency: Option<String>,
    /// Where the page begins.
    pub page_token: Option<String>,
    /// The order of the items: `asc` or `desc`.
    pub sort: Option<String>,
}

impl HistoricalBarParams {
    /// Parameters with every optional field left out.
    pub fn new(symbols: Vec<String>, timeframe: String) -> (r: Self)
        ensures
            r.symbols == symbols,
            r.timeframe == timeframe,
            (r.start is None),
            (r.end is None),
            (r.limit is None),
            (r.adjustment is None),
            (r.asof is None),
            (r.feed is None),
            (r.currency is None),
            (r.page_token is None),
            (r.sort is None),
    {
        HistoricalBarParams {
            symbols,
            timeframe,
            start: None,
            end: None,
            limit: None,
            adjustment: None,
            asof: None,
            feed: None,
            currency: None,
            page_token: None,
            sort: None,
        }
    }
}

/// Whose latest bar is wanted.
#[derive(Debug, Clone)]
pub struct LatestBarsParams {
    /// The symbols asked about.
    pub symbols: Vec<String>,
    /// The feed to read from.
    pub feed: Option<String>,
    /// The currency of the prices.
    pub currency: Option<String>,
}

impl LatestBarsParams {
    /// Parameters with every optional field left out.
    pub fn new(symbols: Vec<String>) -> (r: Self)
        ensures
            r.symbols == symbols,
            (r.feed is None),
            (r.currency is None),
    {
        LatestBarsParams {
            symbols,
            feed: None,
            currency: None,
        }
    }
}

/// Which quotes are wanted.
#[derive(Debug, Clone)]
pub struct HistoricalQuotesParams {
    /// The symbols asked about.
    pub symbols: Vec<String>,
    /// The first moment wanted.
    pub start: Option<String>,
    /// The last moment wanted.
    pub end: Option<String>,
    /// The largest number of items on a page.
    pub limit: Option<usize>,
    /// The day as of which symbols are read.
    pub asof: Option<String>,
    /// The feed to read from.
    pub feed: Option<String>,
    /// The currency of the prices.
    pub currency: Option<String>,
    /// Where the page begins.
    pub page_token: Option<String>,
    /// The order of the items: `asc` or `desc`.
    pub sort: Option<String>,
}

impl HistoricalQuotesParams {
    /// Parameters with every optional field left out.
    pub fn new(symbols: Vec<String>) -> (r: Self)
        ensures
            r.symbols == symbols,
            (r.start is None),
            (r.end is None),
            (r.limit is None),
            (r.asof is None),
            (r.feed is None),
            (r.currency is None),
            (r.page_token is None),
            (r.sort is None),
    {
        HistoricalQuotesParams {
            symbols,
            start: None,
            end: None,
            limit: None,
            asof: None,
            feed: None,
            currency: None,
            page_token: None,
            sort: None,
        }
    }
}

/// Whose latest quote is wanted.
#[derive(Debug, Clone)]
pub struct LatestQuotesParams {
    /// The symbols asked about.
    pub symbols: Vec<String>,
    /// The feed to read from.
    pub feed: Option<String>,
    /// The currency of the prices.
    pub currency: Option<String>,
}

impl LatestQuotesParams {
    /// Parameters with every optional field left out.
    pub fn new(symbols: Vec<String>) -> (r: Self)
        ensures
            r.symbols == symbols,
            (r.feed is None),
            (r.currency is None),
    {
        LatestQuotesParams {
            symbols,
            feed: None,
            currency: None,
        }
    }
}

/// Which trades are wanted.
#[derive(Debug, Clone)]
pub struct HistoricalTradesParams {
    /// The symbols asked about.
    pub symbols: Vec<String>,
    /// The first moment wanted.
    pub start: Option<String>,
    /// The last moment wanted.
    pub end: Option<String>,
    /// The largest number of items on a page.
    pub limit: Option<usize>,
    /// The day as of which symbols are read.
    pub asof: Option<String>,
    /// The feed to read from.
    pub feed: Option<String>,
    /// The currency of the prices.
    pub currency: Option<String>,
    /// Where the page begins.
    pub page_token: Option<String>,
    /// The order of the items: `asc` or `desc`.
    pub sort: Option<String>,
}

impl HistoricalTradesParams {
    /// Parameters with every optional field left out.
    pub fn new(symbols: Vec<String>) -> (r: Self)
        ensures
            r.symbols == symbols,
            (r.start is None),
            (r.end is None),
            (r.limit is None),
            (r.asof is None),
            (r.feed is None),
            (r.currency is None),
            (r.page_token is None),
            (r.sort is None),
    {
        HistoricalTradesParams {
            symbols,
            start: None,
            end: None,
            limit: None,
            asof: None,
            feed: None,
            currency: None,
            page_token: None,
            sort: None,
        }
    }
}

/// Whose latest trade is wanted.
#[derive(Debug, Clone)]
pub struct LatestTradesParams {
    /// The symbols asked about.
    pub symbols: Vec<String>,
    /// The feed to read from.
    pub feed: Option<String>,
    /// The currency of the prices.
    pub currency: Option<String>,
}

impl LatestTradesParams {
    /// Parameters with every optional field left out.
    pub fn new(symbols: Vec<String>) -> (r: Self)
        ensures
            r.symbols == symbols,
            (r.feed is None),
            (r.currency is None),
    {
        LatestTradesParams {
            symbols,
            feed: None,
            currency: None,
        }
    }
}

/// Whose snapshot is wanted.
#[derive(Debug, Clone)]
pub struct SnapshotsParams {
    /// The symbols asked about.
    pub symbols: Vec<String>,
    /// The feed to read from.
    pub feed: Option<String>,
    /// The currency of the prices.
    pub currency: Option<String>,
}

impl SnapshotsParams {
    /// Parameters with every optional field left out.
    pub fn new(symbols: Vec<String>) -> (r: Self)
        ensures
            r.symbols == symbols,
            (r.feed is None),
            (r.currency is None),
    {
        SnapshotsParams {
            symbols,
            feed: None,
            currency: None,
        }
    }
}

/// What each condition code means. The codes are single characters, kept by
/// their code points.
#[derive(Debug, Clone)]
pub struct TradeConditionResponse(pub HashMap<u32, String>);

impl TradeConditionResponse {
    /// The meaning of a code, if the table has it.
    pub open spec fn meaning(self, code: char) -> Option<Seq<char>> {
        if self.0@.contains_key(code as u32) {
            Some(self.0@[code as u32]@)
        } else {
            None
        }
    }

    /// The meaning of the first character of a text; none for the empty text.
    pub open spec fn meaning_of_text(self, code: Seq<char>) -> Option<Seq<char>> {
        if code.len() == 0 {
            None
        } else {
            self.meaning(code[0])
        }
    }

    /// Looks a code up.
    pub fn describe(&self, code: char) -> (r: Option<&str>)
        ensures
            match r {
                Some(s) => self.meaning(code) == Some(s@),
                None => self.meaning(code) is None,
            },
    {
        broadcast use vstd::std_specs::hash::group_hash_axioms;

        let key = code as u32;
        match self.0.get(&key) {
            Some(s) => Some(s.as_str()),
            None => None,
        }
    }

    /// Looks up the code that a text begins with.
    pub fn describe_str(&self, code: &str) -> (r: Option<&str>)
        ensures
            match r {
                Some(s) => self.meaning_of_text(code@) == Some(s@),
                None => self.meaning_of_text(code@) is None,
            },
    {
        if code.unicode_len() == 0 {
            None
        } else {
            self.describe(code.get_char(0))
        }
    }
}

/// What each exchange code means. The codes are single characters, kept by
/// their code points.
#[derive(Debug, Clone)]
pub struct ExchangeCodesResponse(pub HashMap<u32, String>);

impl ExchangeCodesResponse {
    /// The meaning of a code, if the table has it.
    pub open spec fn meaning(self, code: char) -> Option<Seq<char>> {
        if self.0@.contains_key(code as u32) {
            Some(self.0@[code as u32]@)
        } else {
            None
        }
    }

    /// The meaning of the first character of a text; none for the empty text.
    pub open spec fn meaning_of_text(self, code: Seq<char>) -> Option<Seq<char>> {
        if code.len() == 0 {
            None
        } else {
            self.meaning(code[0])
        }
    }

    /// Looks a code up.
    pub fn describe(&self, code: char) -> (r: Option<&str>)
        ensures
            match r {
                Some(s) => self.meaning(code) == Some(s@),
                None => self.meaning(code) is None,
            },
    {
        broadcast use vstd::std_specs::hash::group_hash_axioms;

        let key = code as u32;
        match self.0.get(&key) {
            Some(s) => Some(s.as_str()),
            None => None,
        }
    }

    /// Looks up the code that a text begins with.
    pub fn describe_str(&self, code: &str) -> (r: Option<&str>)
        ensures
            match r {
                Some(s) => self.meaning_of_text(code@) == Some(s@),
                None => self.meaning_of_text(code@) is None,
            },
    {
        if code.unicode_len() == 0 {
            None
        } else {
            self.describe(code.get_char(0))
        }
    }
}

/// One print of an auction.
#[derive(Debug, Clone)]
pub struct AuctionPrint {
    /// When the print was made, in ISO 8601.
    pub timestamp: String,
    /// The code of the exchange.
    pub exchange: String,
    /// The price of the print.
    pub price: Float64,
    /// The number of shares, where it is known.
    pub size: Option<i64>,
    /// The condition code of the print.
    pub condition: String,
}

/// The auctions of one symbol on one day.
#[derive(Debug, Clone)]
pub struct AuctionDay {
    /// The day.
    pub date: String,
    /// The prints of the opening auction.
    pub opening: Vec<AuctionPrint>,
    /// The prints of the closing auction, where there was one.
    pub closing: Option<Vec<AuctionPrint>>,
}

/// One page of auctions, by symbol.
#[derive(Debug, Clone)]
pub struct AuctionsResponse {
    /// The days of each symbol, oldest first.
    pub auctions: Vec<(String, Vec<AuctionDay>)>,
    /// The currency of the prices.
    pub currency: Option<String>,
    /// Where the next page begins, if there is one.
    pub next_page_token: Option<String>,
}

/// The prices of a list of prints.
pub open spec fn print_prices(prints: Seq<AuctionPrint>) -> Seq<Float64> {
    Seq::new(prints.len(), |i: int| prints[i].price)
}

/// The prices of the opening prints of a list of days, day after day.
pub open spec fn opening_prices_of(days: Seq<AuctionDay>) -> Seq<Float64>
    decreases days.len(),
{
    if days.len() == 0 {
        Seq::empty()
    } else {
        opening_prices_of(days.drop_last()) + print_prices(days.last().opening@)
    }
}

/// The prices of the closing prints of a list of days, day after day; a day
/// without a closing auction adds nothing.
pub open spec fn closing_prices_of(days: Seq<AuctionDay>) -> Seq<Float64>
    decreases days.len(),
{
    if days.len() == 0 {
        Seq::empty()
    } else {
        match days.last().closing {
            Some(prints) => closing_prices_of(days.drop_last()) + print_prices(prints@),
            None => closing_prices_of(days.drop_last()),
        }
    }
}

/// Appends the prices of a list of prints.
fn push_prices(out: &mut Vec<Float64>, prints: &Vec<AuctionPrint>)
    ensures
        final(out)@ == old(out)@ + print_prices(prints@),
{
    let mut i: usize = 0;
    while i < prints.len()
        invariant
            i <= prints.len(),
            out@ == old(out)@ + print_prices(prints@.subrange(0, i as int)),
        decreases prints.len() - i,
    {
        out.push(prints[i].price);
        i += 1;
        assert(out@ =~= old(out)@ + print_prices(prints@.subrange(0, i as int)));
    }
    assert(prints@.subrange(0, i as int) =~= prints@);
}

impl AuctionsResponse {
    /// The days of a symbol.
    pub fn get_symbol_data(&self, symbol: &str) -> (r: Option<&Vec<AuctionDay>>)
        ensures
            match r {
                Some(x) => lookup(self.auctions@, symbol@) == Some(*x),
                None => lookup(self.auctions@, symbol@) is None,
            },
    {
        find(&self.auctions, symbol)
    }

    /// The symbols that the answer covers.
    pub fn symbols(&self) -> (r: Vec<&String>)
        ensures
            r@.len() == self.auctions@.len(),
            forall|i: int| 0 <= i < r@.len() ==> *(#[trigger] r@[i]) == self.auctions@[i].0,
    {
        symbols_of(&self.auctions)
    }

    /// Whether the answer covers a symbol.
    pub fn has_symbol(&self, symbol: &str) -> (r: bool)
        ensures
            r == lookup(self.auctions@, symbol@) is Some,
    {
        contains(&self.auctions, symbol)
    }

    /// The last day of a symbol.
    pub fn get_latest_day(&self, symbol: &str) -> (r: Option<&AuctionDay>)
        ensures
            match r {
                Some(x) => lookup(self.auctions@, symbol@) matches Some(items) && items@.len() > 0 && *x == items@[items@.len() - 1],
                None => match lookup(self.auctions@, symbol@) {
                    Some(items) => items@.len() == 0,
                    None => true,
                },
            },
    {
        match find(&self.auctions, symbol) {
            Some(items) => if items.len() > 0 {
                Some(&items[items.len() - 1])
            } else {
                None
            },
            None => None,
        }
    }

    /// The prices of the opening prints of a symbol, day after day.
    pub fn get_opening_prices(&self, symbol: &str) -> (r: Vec<Float64>)
        ensures
            r@ == match lookup(self.auctions@, symbol@) {
                Some(days) => opening_prices_of(days@),
                None => Seq::empty(),
            },
    {
        let mut out: Vec<Float64> = Vec::new();
        match find(&self.auctions, symbol) {
            None => {},
            Some(days) => {
                let mut i: usize = 0;
                assert(days@.subrange(0, 0) =~= Seq::empty());
                while i < days.len()
                    invariant
                        i <= days.len(),
                        out@ == opening_prices_of(days@.subrange(0, i as int)),
                    decreases days.len() - i,
                {
                    assert(days@.subrange(0, i + 1).drop_last() =~= days@.subrange(0, i as int));
                    push_prices(&mut out, &days[i].opening);
                    i += 1;
                }
                assert(days@.subrange(0, i as int) =~= days@);
            },
        }
        out
    }

    /// The prices of the closing prints of a symbol, day after day.
    pub fn get_closing_prices(&self, symbol: &str) -> (r: Vec<Float64>)
        ensures
            r@ == match lookup(self.auctions@, symbol@) {
                Some(days) => closing_prices_of(days@),
                None => Seq::empty(),
            },
    {
        let mut out: Vec<Float64> = Vec::new();
        match find(&self.auctions, symbol) {
            None => {},
            Some(days) => {
                let mut i: usize = 0;
                assert(days@.subrange(0, 0) =~= Seq::empty());
                while i < days.len()
                    invariant
                        i <= days.len(),
                        out@ == closing_prices_of(days@.subrange(0, i as int)),
                    decreases days.len() - i,
                {
                    assert(days@.subrange(0, i + 1).drop_last() =~= days@.subrange(0, i as int));
                    match &days[i].closing {
                        Some(prints) => {
                            push_prices(&mut out, prints);
                        },
                        None => {},
                    }
                    i += 1;
                }
                assert(days@.subrange(0, i as int) =~= days@);
            },
        }
        out
    }
}

/// The prices and the volume of one symbol over one interval.
#[derive(Debug, Clone)]
pub struct Bars {
    /// When the interval began, in ISO 8601.
    pub timestamp: String,
    /// The first price of the interval.
    pub open: Float64,
    /// The highest price of the interval.
    pub high: Float64,
    /// The lowest price of the interval.
    pub low: Float64,
    /// The last price of the interval.
    pub close: Float64,
    /// The number of shares traded.
    pub volume: i64,
    /// The number of trades.
    pub count: i64,
    /// The average price, weighted by volume.
    pub volume_weighted_average: Float64,
}

/// One page of bars, by symbol.
#[derive(Debug, Clone)]
pub struct BarResponse {
    /// The bars of each symbol.
    pub bars: Vec<(String, Vec<Bars>)>,
    /// Where the next page begins; empty on the last page.
    pub next_page_token: String,
    /// The currency of the prices.
    pub currency: Option<String>,
}

/// An integer brought into the range of `i64`: what lies beyond an end
/// becomes that end.
pub open spec fn clamped(n: int) -> i64 {
    if n > i64::MAX {
        i64::MAX
    } else if n < i64::MIN {
        i64::MIN
    } else {
        n as i64
    }
}

/// The sum of the volumes of a list of bars, added bar after bar; a sum
/// that leaves the range of `i64` stays at the end it left by.
pub open spec fn volume_sum(bars: Seq<Bars>) -> i64
    decreases bars.len(),
{
    if bars.len() == 0 {
        0
    } else {
        clamped(volume_sum(bars.drop_last()) + bars.last().volume)
    }
}

/// The sum of the volumes of the bars of all symbols, added symbol after
/// symbol in the same way.
pub open spec fn volume_sum_all(entries: Seq<(String, Vec<Bars>)>) -> i64
    decreases entries.len(),
{
    if entries.len() == 0 {
        0
    } else {
        clamped(volume_sum_all(entries.drop_last()) + volume_sum(entries.last().1@))
    }
}

/// Adds two numbers and brings the sum into the range of `i64`.
fn add_clamped(a: i64, b: i64) -> (r: i64)
    ensures
        r == clamped(a + b),
{
    let n: i128 = a as i128 + b as i128;
    if n > i64::MAX as i128 {
        i64::MAX
    } else if n < i64::MIN as i128 {
        i64::MIN
    } else {
        n as i64
    }
}

/// The sum of the volumes of a list of bars.
fn sum_volumes(bars: &Vec<Bars>) -> (r: i64)
    ensures
        r == volume_sum(bars@),
{
    let mut total: i64 = 0;
    let mut i: usize = 0;
    assert(bars@.subrange(0, 0) =~= Seq::empty());
    while i < bars.len()
        invariant
            i <= bars.len(),
            total == volume_sum(bars@.subrange(0, i as int)),
        decreases bars.len() - i,
    {
        assert(bars@.subrange(0, i + 1).drop_last() =~= bars@.subrange(0, i as int));
        total = add_clamped(total, bars[i].volume);
        i += 1;
    }
    assert(bars@.subrange(0, i as int) =~= bars@);
    total
}

impl BarResponse {
    /// The symbols that the answer covers.
    pub fn symbols(&self) -> (r: Vec<&String>)
        ensures
            r@.len() == self.bars@.len(),
            forall|i: int| 0 <= i < r@.len() ==> *(#[trigger] r@[i]) == self.bars@[i].0,
    {
        symbols_of(&self.bars)
    }

    /// The bars of a symbol.
    pub fn bars_for(&self, symbol: &str) -> (r: Option<&Vec<Bars>>)
        ensures
            match r {
                Some(x) => lookup(self.bars@, symbol@) == Some(*x),
                None => lookup(self.bars@, symbol@) is None,
            },
    {
        find(&self.bars, symbol)
    }

    /// The bars of a symbol, to change them. Nothing else changes.
    pub fn bars_for_mut(&mut self, symbol: &str) -> (r: Option<&mut Vec<Bars>>)
        ensures
            final(self).next_page_token == old(self).next_page_token,
            final(self).currency == old(self).currency,
            match r {
                Some(x) => lookup(old(self).bars@, symbol@) == Some(*x)
                    && final(self).bars@ == old(self).bars@.update(
                    place(old(self).bars@, symbol@),
                    (old(self).bars@[place(old(self).bars@, symbol@)].0, *final(x)),
                ),
                None => lookup(old(self).bars@, symbol@) is None
                    && final(self).bars@ == old(self).bars@,
            },
    {
        find_mut(&mut self.bars, symbol)
    }

    /// How many bars the answer holds; the largest `usize` where the count
    /// does not fit.
    pub fn len_total(&self) -> (r: usize)
        ensures
            r == if total_len(self.bars@) <= usize::MAX {
                total_len(self.bars@)
            } else {
                usize::MAX as nat
            },
    {
        count_all(&self.bars)
    }

    /// Whether the answer holds no bar.
    pub fn is_empty(&self) -> (r: bool)
        ensures
            r == all_empty(self.bars@),
    {
        none_has_items(&self.bars)
    }

    /// Where the next page begins; `None` on the last page.
    pub fn next_page_token(&self) -> (r: Option<&str>)
        ensures
            match r {
                Some(s) => s@ == self.next_page_token@ && s@.len() > 0,
                None => self.next_page_token@.len() == 0,
            },
    {
        if self.next_page_token.as_str().is_empty() {
            None
        } else {
            Some(self.next_page_token.as_str())
        }
    }

    /// The currency of the prices.
    pub fn currency(&self) -> (r: Option<&str>)
        ensures
            match r {
                Some(s) => self.currency matches Some(t) && t@ == s@,
                None => self.currency is None,
            },
    {
        match &self.currency {
            Some(t) => Some(t.as_str()),
            None => None,
        }
    }

    /// The first bar of a symbol.
    pub fn first_bar(&self, symbol: &str) -> (r: Option<&Bars>)
        ensures
            match r {
                Some(x) => lookup(self.bars@, symbol@) matches Some(items) && items@.len() > 0 && *x == items@[0],
                None => match lookup(self.bars@, symbol@) {
                    Some(items) => items@.len() == 0,
                    None => true,
                },
            },
    {
        match find(&self.bars, symbol) {
            Some(items) => if items.len() > 0 {
                Some(&items[0])
            } else {
                None
            },
            None => None,
        }
    }

    /// The last bar of a symbol.
    pub fn last_bar(&self, symbol: &str) -> (r: Option<&Bars>)
        ensures
            match r {
                Some(x) => lookup(self.bars@, symbol@) matches Some(items) && items@.len() > 0 && *x == items@[items@.len() - 1],
                None => match lookup(self.bars@, symbol@) {
                    Some(items) => items@.len() == 0,
                    None => true,
                },
            },
    {
        match find(&self.bars, symbol) {
            Some(items) => if items.len() > 0 {
                Some(&items[items.len() - 1])
            } else {
                None
            },
            None => None,
        }
    }

    /// The closing prices of a symbol, bar after bar.
    pub fn closing_prices(&self, symbol: &str) -> (r: Vec<Float64>)
        ensures
            r@ == match lookup(self.bars@, symbol@) {
                Some(items) => Seq::new(items@.len(), |i: int| items@[i].close),
                None => Seq::empty(),
            },
    {
        let mut out: Vec<Float64> = Vec::new();
        match find(&self.bars, symbol) {
            None => {},
            Some(items) => {
                let mut i: usize = 0;
                while i < items.len()
                    invariant
                        i <= items.len(),
                        out@ == Seq::new(i as nat, |k: int| items@[k].close),
                    decreases items.len() - i,
                {
                    out.push(items[i].close);
                    i += 1;
                    assert(out@ =~= Seq::new(i as nat, |k: int| items@[k].close));
                }
            },
        }
        assert(out@ =~= match lookup(self.bars@, symbol@) {
            Some(items) => Seq::new(items@.len(), |i: int| items@[i].close),
            None => Seq::empty(),
        });
        out
    }

    /// The opening prices of a symbol, bar after bar.
    pub fn opening_prices(&self, symbol: &str) -> (r: Vec<Float64>)
        ensures
            r@ == match lookup(self.bars@, symbol@) {
                Some(items) => Seq::new(items@.len(), |i: int| items@[i].open),
                None => Seq::empty(),
            },
    {
        let mut out: Vec<Float64> = Vec::new();
        match find(&self.bars, symbol) {
            None => {},
            Some(items) => {
                let mut i: usize = 0;
                while i < items.len()
                    invariant
                        i <= items.len(),
                        out@ == Seq::new(i as nat, |k: int| items@[k].open),
                    decreases items.len() - i,
                {
                    out.push(items[i].open);
                    i += 1;
                    assert(out@ =~= Seq::new(i as nat, |k: int| items@[k].open));
                }
            },
        }
        assert(out@ =~= match lookup(self.bars@, symbol@) {
            Some(items) => Seq::new(items@.len(), |i: int| items@[i].open),
            None => Seq::empty(),
        });
        out
    }

    /// The highest prices of a symbol, bar after bar.
    pub fn high_prices(&self, symbol: &str) -> (r: Vec<Float64>)
        ensures
            r@ == match lookup(self.bars@, symbol@) {
                Some(items) => Seq::new(items@.len(), |i: int| items@[i].high),
                None => Seq::empty(),
            },
    {
        let mut out: Vec<Float64> = Vec::new();
        match find(&self.bars, symbol) {
            None => {},
            Some(items) => {
                let mut i: usize = 0;
                while i < items.len()
                    invariant
                        i <= items.len(),
                        out@ == Seq::new(i as nat, |k: int| items@[k].high),
                    decreases items.len() - i,
                {
                    out.push(items[i].high);
                    i += 1;
                    assert(out@ =~= Seq::new(i as nat, |k: int| items@[k].high));
                }
            },
        }
        assert(out@ =~= match lookup(self.bars@, symbol@) {
            Some(items) => Seq::new(items@.len(), |i: int| items@[i].high),
            None => Seq::empty(),
        });
        out
    }

    /// The lowest prices of a symbol, bar after bar.
    pub fn low_prices(&self, symbol: &str) -> (r: Vec<Float64>)
        ensures
            r@ == match lookup(self.bars@, symbol@) {
                Some(items) => Seq::new(items@.len(), |i: int| items@[i].low),
                None => Seq::empty(),
            },
    {
        let mut out: Vec<Float64> = Vec::new();
        match find(&self.bars, symbol) {
            None => {},
            Some(items) => {
                let mut i: usize = 0;
                while i < items.len()
                    invariant
                        i <= items.len(),
                        out@ == Seq::new(i as nat, |k: int| items@[k].low),
                    decreases items.len() - i,
                {
                    out.push(items[i].low);
                    i += 1;
                    assert(out@ =~= Seq::new(i as nat, |k: int| items@[k].low));
                }
            },
        }
        assert(out@ =~= match lookup(self.bars@, symbol@) {
            Some(items) => Seq::new(items@.len(), |i: int| items@[i].low),
            None => Seq::empty(),
        });
        out
    }

    /// The volumes of a symbol, bar after bar.
    pub fn volumes(&self, symbol: &str) -> (r: Vec<i64>)
        ensures
            r@ == match lookup(self.bars@, symbol@) {
                Some(items) => Seq::new(items@.len(), |i: int| items@[i].volume),
                None => Seq::empty(),
            },
    {
        let mut out: Vec<i64> = Vec::new();
        match find(&self.bars, symbol) {
            None => {},
            Some(items) => {
                let mut i: usize = 0;
                while i < items.len()
                    invariant
                        i <= items.len(),
                        out@ == Seq::new(i as nat, |k: int| items@[k].volume),
                    decreases items.len() - i,
                {
                    out.push(items[i].volume);
                    i += 1;
                    assert(out@ =~= Seq::new(i as nat, |k: int| items@[k].volume));
                }
            },
        }
        assert(out@ =~= match lookup(self.bars@, symbol@) {
            Some(items) => Seq::new(items@.len(), |i: int| items@[i].volume),
            None => Seq::empty(),
        });
        out
    }

    /// The numbers of trades of a symbol, bar after bar.
    pub fn counts(&self, symbol: &str) -> (r: Vec<i64>)
        ensures
            r@ == match lookup(self.bars@, symbol@) {
                Some(items) => Seq::new(items@.len(), |i: int| items@[i].count),
                None => Seq::empty(),
            },
    {
        let mut out: Vec<i64> = Vec::new();
        match find(&self.bars, symbol) {
            None => {},
            Some(items) => {
                let mut i: usize = 0;
                while i < items.len()
                    invariant
                        i <= items.len(),
                        out@ == Seq::new(i as nat, |k: int| items@[k].count),
                    decreases items.len() - i,
                {
                    out.push(items[i].count);
                    i += 1;
                    assert(out@ =~= Seq::new(i as nat, |k: int| items@[k].count));
                }
            },
        }
        assert(out@ =~= match lookup(self.bars@, symbol@) {
            Some(items) => Seq::new(items@.len(), |i: int| items@[i].count),
            None => Seq::empty(),
        });
        out
    }

    /// The volume-weighted average prices of a symbol, bar after bar.
    pub fn vwap_values(&self, symbol: &str) -> (r: Vec<Float64>)
        ensures
            r@ == match lookup(self.bars@, symbol@) {
                Some(items) => Seq::new(items@.len(), |i: int| items@[i].volume_weighted_average),
                None => Seq::empty(),
            },
    {
        let mut out: Vec<Float64> = Vec::new();
        match find(&self.bars, symbol) {
            None => {},
            Some(items) => {
                let mut i: usize = 0;
                while i < items.len()
                    invariant
                        i <= items.len(),
                        out@ == Seq::new(i as nat, |k: int| items@[k].volume_weighted_average),
                    decreases items.len() - i,
                {
                    out.push(items[i].volume_weighted_average);
                    i += 1;
                    assert(out@ =~= Seq::new(i as nat, |k: int| items@[k].volume_weighted_average));
                }
            },
        }
        assert(out@ =~= match lookup(self.bars@, symbol@) {
            Some(items) => Seq::new(items@.len(), |i: int| items@[i].volume_weighted_average),
            None => Seq::empty(),
        });
        out
    }

    /// The volume of a symbol over all of its bars; `None` where the answer
    /// does not cover the symbol.
    pub fn total_volume(&self, symbol: &str) -> (r: Option<i64>)
        ensures
            r == match lookup(self.bars@, symbol@) {
                Some(bars) => Some(volume_sum(bars@)),
                None => None,
            },
    {
        match find(&self.bars, symbol) {
            Some(bars) => Some(sum_volumes(bars)),
            None => None,
        }
    }

    /// The volume of all symbols over all of their bars.
    pub fn total_volume_all(&self) -> (r: i64)
        ensures
            r == volume_sum_all(self.bars@),
    {
        let mut total: i64 = 0;
        let mut i: usize = 0;
        assert(self.bars@.subrange(0, 0) =~= Seq::empty());
        while i < self.bars.len()
            invariant
                i <= self.bars.len(),
                total == volume_sum_all(self.bars@.subrange(0, i as int)),
            decreases self.bars.len() - i,
        {
            assert(self.bars@.subrange(0, i + 1).drop_last() =~= self.bars@.subrange(0, i as int));
            total = add_clamped(total, sum_volumes(&self.bars[i].1));
            i += 1;
        }
        assert(self.bars@.subrange(0, i as int) =~= self.bars@);
        total
    }

    /// Every bar of the answer with its symbol.
    pub fn iter_all(&self) -> (r: Vec<(&String, &Bars)>)
        ensures
            r@.len() == flattened(self.bars@).len(),
            forall|k: int|
                0 <= k < r@.len() ==> (#[trigger] r@[k]).0@ == flattened(self.bars@)[k].0
                    && *r@[k].1 == flattened(self.bars@)[k].1,
    {
        flatten(&self.bars)
    }
}

/// The latest bar of each symbol.
#[derive(Debug, Clone)]
pub struct LatestBarsResponse {
    /// The latest bar of each symbol.
    pub bars: Vec<(String, Bars)>,
    /// Where the next page begins, if there is one.
    pub next_page_token: Option<String>,
    /// The currency of the prices.
    pub currency: Option<String>,
}

impl LatestBarsResponse {
    /// The latest bar of a symbol.
    pub fn bar(&self, symbol: &str) -> (r: Option<&Bars>)
        ensures
            match r {
                Some(x) => lookup(self.bars@, symbol@) == Some(*x),
                None => lookup(self.bars@, symbol@) is None,
            },
    {
        find(&self.bars, symbol)
    }

    /// The symbols that the answer covers.
    pub fn symbols(&self) -> (r: Vec<&String>)
        ensures
            r@.len() == self.bars@.len(),
            forall|i: int| 0 <= i < r@.len() ==> *(#[trigger] r@[i]) == self.bars@[i].0,
    {
        symbols_of(&self.bars)
    }

    /// Where the next page begins; `None` on the last page.
    pub fn next_page_token(&self) -> (r: Option<&str>)
        ensures
            match r {
                Some(s) => self.next_page_token matches Some(t) && t@ == s@ && s@.len() > 0,
                None => match self.next_page_token {
                    Some(t) => t@.len() == 0,
                    None => true,
                },
            },
    {
        match &self.next_page_token {
            Some(t) => if t.as_str().is_empty() {
                None
            } else {
                Some(t.as_str())
            },
            None => None,
        }
    }

    /// The currency of the prices.
    pub fn currency(&self) -> (r: Option<&str>)
        ensures
            match r {
                Some(s) => self.currency matches Some(t) && t@ == s@,
                None => self.currency is None,
            },
    {
        match &self.currency {
            Some(t) => Some(t.as_str()),
            None => None,
        }
    }

}

/// The best bid and ask of one symbol at one moment.
#[derive(Debug, Clone)]
pub struct Quotes {
    /// When the quote was made, in ISO 8601.
    pub timestamp: String,
    /// The code of the exchange of the best bid.
    pub bid_exchange: String,
    /// The best bid.
    pub bid_price: Float64,
    /// The size of the best bid.
    pub bid_size: u64,
    /// The code of the exchange of the best ask.
    pub ask_exchange: String,
    /// The best ask.
    pub ask_price: Float64,
    /// The size of the best ask.
    pub ask_size: u64,
    /// The condition codes of the quote.
    pub condition_flags: Vec<String>,
    /// The tape.
    pub exchange: String,
}

/// One page of quotes, by symbol.
#[derive(Debug, Clone)]
pub struct HistoricalQuotes {
    /// The quotes of each symbol.
    pub quotes: Vec<(String, Vec<Quotes>)>,
    /// The currency of the prices.
    pub currency: Option<String>,
    /// Where the next page begins, if there is one.
    pub next_page_token: Option<String>,
}

impl HistoricalQuotes {
    /// The quotes of a symbol.
    pub fn get_symbol_quotes(&self, symbol: &str) -> (r: Option<&Vec<Quotes>>)
        ensures
            match r {
                Some(x) => lookup(self.quotes@, symbol@) == Some(*x),
                None => lookup(self.quotes@, symbol@) is None,
            },
    {
        find(&self.quotes, symbol)
    }

    /// The symbols that the answer covers.
    pub fn symbols(&self) -> (r: Vec<&String>)
        ensures
            r@.len() == self.quotes@.len(),
            forall|i: int| 0 <= i < r@.len() ==> *(#[trigger] r@[i]) == self.quotes@[i].0,
    {
        symbols_of(&self.quotes)
    }

    /// Whether the answer covers a symbol.
    pub fn has_symbol(&self, symbol: &str) -> (r: bool)
        ensures
            r == lookup(self.quotes@, symbol@) is Some,
    {
        contains(&self.quotes, symbol)
    }

    /// The last quote of a symbol.
    pub fn get_last_quote(&self, symbol: &str) -> (r: Option<&Quotes>)
        ensures
            match r {
                Some(x) => lookup(self.quotes@, symbol@) matches Some(items) && items@.len() > 0 && *x == items@[items@.len() - 1],
                None => match lookup(self.quotes@, symbol@) {
                    Some(items) => items@.len() == 0,
                    None => true,
                },
            },
    {
        match find(&self.quotes, symbol) {
            Some(items) => if items.len() > 0 {
                Some(&items[items.len() - 1])
            } else {
                None
            },
            None => None,
        }
    }

    /// The best bids of a symbol, quote after quote.
    pub fn get_bid_prices(&self, symbol: &str) -> (r: Vec<Float64>)
        ensures
            r@ == match lookup(self.quotes@, symbol@) {
                Some(items) => Seq::new(items@.len(), |i: int| items@[i].bid_price),
                None => Seq::empty(),
            },
    {
        let mut out: Vec<Float64> = Vec::new();
        match find(&self.quotes, symbol) {
            None => {},
            Some(items) => {
                let mut i: usize = 0;
                while i < items.len()
                    invariant
                        i <= items.len(),
                        out@ == Seq::new(i as nat, |k: int| items@[k].bid_price),
                    decreases items.len() - i,
                {
                    out.push(items[i].bid_price);
                    i += 1;
                    assert(out@ =~= Seq::new(i as nat, |k: int| items@[k].bid_price));
                }
            },
        }
        assert(out@ =~= match lookup(self.quotes@, symbol@) {
            Some(items) => Seq::new(items@.len(), |i: int| items@[i].bid_price),
            None => Seq::empty(),
        });
        out
    }

    /// The best asks of a symbol, quote after quote.
    pub fn get_ask_prices(&self, symbol: &str) -> (r: Vec<Float64>)
        ensures
            r@ == match lookup(self.quotes@, symbol@) {
                Some(items) => Seq::new(items@.len(), |i: int| items@[i].ask_price),
                None => Seq::empty(),
            },
    {
        let mut out: Vec<Float64> = Vec::new();
        match find(&self.quotes, symbol) {
            None => {},
            Some(items) => {
                let mut i: usize = 0;
                while i < items.len()
                    invariant
                        i <= items.len(),
                        out@ == Seq::new(i as nat, |k: int| items@[k].ask_price),
                    decreases items.len() - i,
                {
                    out.push(items[i].ask_price);
                    i += 1;
                    assert(out@ =~= Seq::new(i as nat, |k: int| items@[k].ask_price));
                }
            },
        }
        assert(out@ =~= match lookup(self.quotes@, symbol@) {
            Some(items) => Seq::new(items@.len(), |i: int| items@[i].ask_price),
            None => Seq::empty(),
        });
        out
    }

    /// The timestamps of the quotes of a symbol, quote after quote.
    pub fn get_timestamps(&self, symbol: &str) -> (r: Vec<&str>)
        ensures
            match lookup(self.quotes@, symbol@) {
                Some(items) => r@.len() == items@.len() && forall|i: int|
                    0 <= i < r@.len() ==> (#[trigger] r@[i])@ == items@[i].timestamp@,
                None => r@.len() == 0,
            },
    {
        let mut out: Vec<&str> = Vec::new();
        match find(&self.quotes, symbol) {
            None => {},
            Some(items) => {
                let mut i: usize = 0;
                while i < items.len()
                    invariant
                        i <= items.len(),
                        out@.len() == i,
                        forall|k: int| 0 <= k < i ==> (#[trigger] out@[k])@ == items@[k].timestamp@,
                    decreases items.len() - i,
                {
                    out.push(items[i].timestamp.as_str());
                    i += 1;
                }
            },
        }
        out
    }

    /// Whether there is a page after this one.
    pub fn has_next_page(&self) -> (r: bool)
        ensures
            r == (self.next_page_token matches Some(t) && t@.len() > 0),
    {
        match &self.next_page_token {
            Some(t) => !t.as_str().is_empty(),
            None => false,
        }
    }
}

/// The latest quote of each symbol.
#[derive(Debug, Clone)]
pub struct LatestQuotes {
    /// The latest quote of each symbol.
    pub quotes: Vec<(String, Quotes)>,
    /// The currency of the prices.
    pub currency: Option<String>,
}

impl LatestQuotes {
    /// The latest quote of a symbol.
    pub fn get_symbol_quote(&self, symbol: &str) -> (r: Option<&Quotes>)
        ensures
            match r {
                Some(x) => lookup(self.quotes@, symbol@) == Some(*x),
                None => lookup(self.quotes@, symbol@) is None,
            },
    {
        find(&self.quotes, symbol)
    }

    /// The symbols that the answer covers.
    pub fn symbols(&self) -> (r: Vec<&String>)
        ensures
            r@.len() == self.quotes@.len(),
            forall|i: int| 0 <= i < r@.len() ==> *(#[trigger] r@[i]) == self.quotes@[i].0,
    {
        symbols_of(&self.quotes)
    }

    /// Whether the answer covers a symbol.
    pub fn has_symbol(&self, symbol: &str) -> (r: bool)
        ensures
            r == lookup(self.quotes@, symbol@) is Some,
    {
        contains(&self.quotes, symbol)
    }

    /// The latest quote of a symbol.
    pub fn get_last_quote(&self, symbol: &str) -> (r: Option<&Quotes>)
        ensures
            match r {
                Some(x) => lookup(self.quotes@, symbol@) == Some(*x),
                None => lookup(self.quotes@, symbol@) is None,
            },
    {
        find(&self.quotes, symbol)
    }

    /// The best bid of a symbol.
    pub fn get_bid_price(&self, symbol: &str) -> (r: Option<Float64>)
        ensures
            r == match lookup(self.quotes@, symbol@) {
                Some(q) => Some(q.bid_price),
                None => None,
            },
    {
        match find(&self.quotes, symbol) {
            Some(q) => Some(q.bid_price),
            None => None,
        }
    }

    /// The best ask of a symbol.
    pub fn get_ask_price(&self, symbol: &str) -> (r: Option<Float64>)
        ensures
            r == match lookup(self.quotes@, symbol@) {
                Some(q) => Some(q.ask_price),
                None => None,
            },
    {
        match find(&self.quotes, symbol) {
            Some(q) => Some(q.ask_price),
            None => None,
        }
    }

    /// When the latest quote of a symbol was made.
    pub fn get_timestamp(&self, symbol: &str) -> (r: Option<&str>)
        ensures
            match r {
                Some(s) => lookup(self.quotes@, symbol@) matches Some(q) && q.timestamp@ == s@,
                None => lookup(self.quotes@, symbol@) is None,
            },
    {
        match find(&self.quotes, symbol) {
            Some(q) => Some(q.timestamp.as_str()),
            None => None,
        }
    }
}

/// One trade.
#[derive(Debug, Clone)]
pub struct Trades {
    /// When the trade happened, in ISO 8601.
    pub timestamp: String,
    /// The code of the exchange.
    pub exchange: String,
    /// The price of the trade.
    pub price: Float64,
    /// The number of shares traded.
    pub size: u64,
    /// The identifier of the trade.
    pub trade_id: u64,
    /// The condition codes of the trade.
    pub condition_flags: Vec<String>,
    /// The tape.
    pub exchange_code: String,
    /// Whether the trade was corrected or cancelled later.
    pub update: Option<String>,
}

/// One page of trades, by symbol.
#[derive(Debug, Clone)]
pub struct HistoricalTrades {
    /// The trades of each symbol.
    pub trades: Vec<(String, Vec<Trades>)>,
    /// The currency of the prices.
    pub currency: Option<String>,
    /// Where the next page begins, if there is one.
    pub next_page_token: Option<String>,
}

impl HistoricalTrades {
    /// The trades of a symbol.
    pub fn trades_for_symbol(&self, symbol: &str) -> (r: Option<&Vec<Trades>>)
        ensures
            match r {
                Some(x) => lookup(self.trades@, symbol@) == Some(*x),
                None => lookup(self.trades@, symbol@) is None,
            },
    {
        find(&self.trades, symbol)
    }

    /// The first trade of a symbol.
    pub fn first_trade(&self, symbol: &str) -> (r: Option<&Trades>)
        ensures
            match r {
                Some(x) => lookup(self.trades@, symbol@) matches Some(items) && items@.len() > 0 && *x == items@[0],
                None => match lookup(self.trades@, symbol@) {
                    Some(items) => items@.len() == 0,
                    None => true,
                },
            },
    {
        match find(&self.trades, symbol) {
            Some(items) => if items.len() > 0 {
                Some(&items[0])
            } else {
                None
            },
            None => None,
        }
    }

    /// The last trade of a symbol.
    pub fn last_trade(&self, symbol: &str) -> (r: Option<&Trades>)
        ensures
            match r {
                Some(x) => lookup(self.trades@, symbol@) matches Some(items) && items@.len() > 0 && *x == items@[items@.len() - 1],
                None => match lookup(self.trades@, symbol@) {
                    Some(items) => items@.len() == 0,
                    None => true,
                },
            },
    {
        match find(&self.trades, symbol) {
            Some(items) => if items.len() > 0 {
                Some(&items[items.len() - 1])
            } else {
                None
            },
            None => None,
        }
    }

    /// Every trade of the answer with its symbol.
    pub fn all_trades(&self) -> (r: Vec<(&String, &Trades)>)
        ensures
            r@.len() == flattened(self.trades@).len(),
            forall|k: int|
                0 <= k < r@.len() ==> (#[trigger] r@[k]).0@ == flattened(self.trades@)[k].0
                    && *r@[k].1 == flattened(self.trades@)[k].1,
    {
        flatten(&self.trades)
    }

    /// How many trades the answer holds; the largest `usize` where the count
    /// does not fit.
    pub fn total_trade_count(&self) -> (r: usize)
        ensures
            r == if total_len(self.trades@) <= usize::MAX {
                total_len(self.trades@)
            } else {
                usize::MAX as nat
            },
    {
        count_all(&self.trades)
    }

    /// How many trades each symbol has, in the order of the symbols.
    pub fn counts_per_symbol(&self) -> (r: Vec<(&String, usize)>)
        ensures
            r@.len() == self.trades@.len(),
            forall|i: int|
                0 <= i < r@.len() ==> *(#[trigger] r@[i]).0 == self.trades@[i].0 && r@[i].1
                    == self.trades@[i].1@.len(),
    {
        let mut out: Vec<(&String, usize)> = Vec::new();
        let mut i: usize = 0;
        while i < self.trades.len()
            invariant
                i <= self.trades.len(),
                out@.len() == i,
                forall|j: int|
                    0 <= j < i ==> *(#[trigger] out@[j]).0 == self.trades@[j].0 && out@[j].1
                        == self.trades@[j].1@.len(),
            decreases self.trades.len() - i,
        {
            out.push((&self.trades[i].0, self.trades[i].1.len()));
            i += 1;
        }
        out
    }
}

/// The latest trade of each symbol.
#[derive(Debug, Clone)]
pub struct LatestTrades {
    /// The latest trade of each symbol.
    pub trades: Vec<(String, Trades)>,
    /// The currency of the prices.
    pub currency: Option<String>,
}

impl LatestTrades {
    /// The latest trade of a symbol.
    pub fn trade_for_symbol(&self, symbol: &str) -> (r: Option<&Trades>)
        ensures
            match r {
                Some(x) => lookup(self.trades@, symbol@) == Some(*x),
                None => lookup(self.trades@, symbol@) is None,
            },
    {
        find(&self.trades, symbol)
    }

    /// Every trade of the answer with its symbol.
    pub fn all_trades(&self) -> (r: Vec<(&String, &Trades)>)
        ensures
            r@.len() == self.trades@.len(),
            forall|i: int|
                0 <= i < r@.len() ==> *(#[trigger] r@[i]).0 == self.trades@[i].0 && *r@[i].1
                    == self.trades@[i].1,
    {
        let mut out: Vec<(&String, &Trades)> = Vec::new();
        let mut i: usize = 0;
        while i < self.trades.len()
            invariant
                i <= self.trades.len(),
                out@.len() == i,
                forall|j: int|
                    0 <= j < i ==> *(#[trigger] out@[j]).0 == self.trades@[j].0 && *out@[j].1
                        == self.trades@[j].1,
            decreases self.trades.len() - i,
        {
            out.push((&self.trades[i].0, &self.trades[i].1));
            i += 1;
        }
        out
    }

    /// How many trades the answer holds: one for each symbol.
    pub fn total_trade_count(&self) -> (r: usize)
        ensures
            r == self.trades@.len(),
    {
        self.trades.len()
    }

    /// How many trades each symbol has: one.
    pub fn counts_per_symbol(&self) -> (r: Vec<(&String, usize)>)
        ensures
            r@.len() == self.trades@.len(),
            forall|i: int|
                0 <= i < r@.len() ==> *(#[trigger] r@[i]).0 == self.trades@[i].0 && r@[i].1 == 1,
    {
        let mut out: Vec<(&String, usize)> = Vec::new();
        let mut i: usize = 0;
        while i < self.trades.len()
            invariant
                i <= self.trades.len(),
                out@.len() == i,
                forall|j: int|
                    0 <= j < i ==> *(#[trigger] out@[j]).0 == self.trades@[j].0 && out@[j].1 == 1,
            decreases self.trades.len() - i,
        {
            out.push((&self.trades[i].0, 1));
            i += 1;
        }
        out
    }
}

/// What is known of one symbol right now.
#[derive(Debug, Clone)]
pub struct StockData {
    /// The bar of the day so far.
    pub daily_bar: Bars,
    /// The latest quote.
    pub latest_quote: Quotes,
    /// The latest trade.
    pub latest_trade: Trades,
    /// The bar of the last minute.
    pub minute_bar: Bars,
    /// The bar of the day before.
    pub prev_daily_bar: Bars,
}

/// The snapshot of each symbol.
#[derive(Debug, Clone)]
pub struct SnapshotResponse(pub Vec<(String, StockData)>);

impl SnapshotResponse {
    /// The snapshot of a symbol.
    pub fn get(&self, symbol: &str) -> (r: Option<&StockData>)
        ensures
            match r {
                Some(x) => lookup(self.0@, symbol@) == Some(*x),
                None => lookup(self.0@, symbol@) is None,
            },
    {
        find(&self.0, symbol)
    }

    /// The snapshot of a symbol, to change it. Nothing else changes.
    pub fn get_mut(&mut self, symbol: &str) -> (r: Option<&mut StockData>)
        ensures
            match r {
                Some(x) => lookup(old(self).0@, symbol@) == Some(*x)
                    && final(self).0@ == old(self).0@.update(
                    place(old(self).0@, symbol@),
                    (old(self).0@[place(old(self).0@, symbol@)].0, *final(x)),
                ),
                None => lookup(old(self).0@, symbol@) is None && final(self).0@ == old(self).0@,
            },
    {
        find_mut(&mut self.0, symbol)
    }

    /// The symbols that the answer covers.
    pub fn symbols(&self) -> (r: Vec<&String>)
        ensures
            r@.len() == self.0@.len(),
            forall|i: int| 0 <= i < r@.len() ==> *(#[trigger] r@[i]) == self.0@[i].0,
    {
        symbols_of(&self.0)
    }

    /// Every snapshot with its symbol.
    pub fn all(&self) -> (r: Vec<(&String, &StockData)>)
        ensures
            r@.len() == self.0@.len(),
            forall|i: int|
                0 <= i < r@.len() ==> *(#[trigger] r@[i]).0 == self.0@[i].0 && *r@[i].1
                    == self.0@[i].1,
    {
        let mut out: Vec<(&String, &StockData)> = Vec::new();
        let mut i: usize = 0;
        while i < self.0.len()
            invariant
                i <= self.0.len(),
                out@.len() == i,
                forall|j: int|
                    0 <= j < i ==> *(#[trigger] out@[j]).0 == self.0@[j].0 && *out@[j].1
                        == self.0@[j].1,
            decreases self.0.len() - i,
        {
            out.push((&self.0[i].0, &self.0[i].1));
            i += 1;
        }
        out
    }
}

impl StockData {
    /// The price of the latest trade.
    pub fn latest_price(&self) -> (r: Float64)
        ensures
            r == self.latest_trade.price,
    {
        self.latest_trade.price
    }

    /// Open, high, low and close of the day so far.
    pub fn daily_ohlc(&self) -> (r: (Float64, Float64, Float64, Float64))
        ensures
            r == (self.daily_bar.open, self.daily_bar.high, self.daily_bar.low, self.daily_bar.close),
    {
        (self.daily_bar.open, self.daily_bar.high, self.daily_bar.low, self.daily_bar.close)
    }
}

} // verus!
