//! The crypto feed: its subscription command and its wire messages.
//!
//! A frame is a JSON array of objects. Each object names its kind in the
//! member `"T"` and carries its fields under short keys, which are kept here
//! exactly as the service sends them.
use crate::json::{
    entry_models, float_bits, json_object, json_string, json_text, member_of, models_of,
    object_of, string_array, value_model, Float64, JsonModel,
};
use crate::market_data::v2::command::{add_channel, auth_model, lemma_push_entry};
use crate::market_data::v2::decode::{
    conforms, defaulted_fault, first_fault, float_at, optional_fault, optional_flag_at,
    optional_integer_at, optional_text_at, read_float, read_optional_flag, read_optional_integer,
    read_optional_text, read_text, read_texts_or_empty, required, required_fault, text_at,
    texts_of, texts_or_empty_at, DecodeError, DecodeFault, Shape,
};
use crate::market_data::v2::message::{Rejection, RejectionView, Role, RoleView, WireMessage};
use crate::market_data::v2::session::{Session, SessionView};
use crate::text::{copy_optional_text, text_eq};
use vstd::prelude::*;

verus! {

/// A number that the service writes as an integer, as a decimal or as a
/// string, kept in the form in which it arrived.
#[derive(Debug, Clone)]
pub enum NumF64 {
    /// An integer within the range of `i64`.
    I(i64),
    /// Any other number, as a double.
    F(Float64),
    /// A string.
    S(String),
}

/// The mathematical content of a [`NumF64`].
pub ghost enum NumF64View {
    I(i64),
    F(u64),
    S(Seq<char>),
}

impl View for NumF64 {
    type V = NumF64View;

    open spec fn view(&self) -> NumF64View {
        match self {
            NumF64::I(i) => NumF64View::I(*i),
            NumF64::F(f) => NumF64View::F(f.bits),
            NumF64::S(s) => NumF64View::S(s@),
        }
    }
}

/// The fault of a required member that must be a number or a string.
pub open spec fn num_fault(m: JsonModel, key: Seq<char>) -> Option<DecodeFault> {
    match member_of(m, key) {
        None => Some(DecodeFault::MissingField(key)),
        Some(x) => if x is Number || x is Str {
            None
        } else {
            Some(DecodeFault::InvalidField(key))
        },
    }
}

/// The number a tree stands for: an integer where it is one within the range
/// of `i64`, else a double where it is a number, else its text.
pub open spec fn num_of(x: JsonModel) -> NumF64View {
    if conforms(x, Shape::Integer) {
        NumF64View::I(x->Number_0.integer.unwrap() as i64)
    } else if x is Number {
        NumF64View::F(x->Number_0.float_bits)
    } else {
        NumF64View::S(x->Str_0)
    }
}

/// The number under a key.
pub open spec fn num_at(m: JsonModel, key: Seq<char>) -> NumF64View {
    num_of(member_of(m, key).unwrap())
}

/// Reads a required member that is a number or a string.
pub fn read_num(v: &serde_json::Value, key: &str) -> (r: Result<NumF64, DecodeError>)
    ensures
        match r {
            Ok(n) => num_fault(value_model(*v), key@) is None && n@ == num_at(
                value_model(*v),
                key@,
            ),
            Err(e) => num_fault(value_model(*v), key@) == Some(e@),
        },
{
    let x = required(v, key)?;
    match x.as_i64() {
        Some(i) => Ok(NumF64::I(i)),
        None => match float_bits(x) {
            Some(f) => Ok(NumF64::F(f)),
            None => match x.as_str() {
                Some(s) => Ok(NumF64::S(s.to_owned())),
                None => Err(DecodeError::InvalidField(key.to_owned())),
            },
        },
    }
}

/// The channels a caller wants, each with its symbols in the caller's order.
///
/// The subscribe command names a channel only if it has a symbol: a channel
/// left empty is left out of the command, never sent as an empty array.
#[derive(Debug, Default, Clone)]
pub struct Subscribe {
    /// Symbols whose trades are wanted.
    pub trades: Vec<String>,
    /// Symbols whose quotes are wanted.
    pub quotes: Vec<String>,
    /// Symbols whose minute bars are wanted.
    pub bars: Vec<String>,
    /// Symbols whose daily bars are wanted.
    pub daily_bars: Vec<String>,
    /// Symbols whose corrected bars are wanted.
    pub updated_bars: Vec<String>,
    /// Symbols whose order books are wanted.
    pub orderbooks: Vec<String>,
}

/// The mathematical content of a [`Subscribe`].
pub ghost struct SubscribeView {
    pub trades: Seq<Seq<char>>,
    pub quotes: Seq<Seq<char>>,
    pub bars: Seq<Seq<char>>,
    pub daily_bars: Seq<Seq<char>>,
    pub updated_bars: Seq<Seq<char>>,
    pub orderbooks: Seq<Seq<char>>,
}

impl View for Subscribe {
    type V = SubscribeView;

    open spec fn view(&self) -> SubscribeView {
        SubscribeView {
            trades: self.trades.deep_view(),
            quotes: self.quotes.deep_view(),
            bars: self.bars.deep_view(),
            daily_bars: self.daily_bars.deep_view(),
            updated_bars: self.updated_bars.deep_view(),
            orderbooks: self.orderbooks.deep_view(),
        }
    }
}

impl SubscribeView {
    /// Whether a key is the wire key of a channel.
    pub open spec fn is_channel_key(key: Seq<char>) -> bool {
        key == "trades"@
            || key == "quotes"@
            || key == "bars"@
            || key == "dailyBars"@
            || key == "updatedBars"@
            || key == "orderbooks"@
    }

    /// The symbols of the channel with the given wire key; none for any
    /// other key.
    pub open spec fn channel(self, key: Seq<char>) -> Seq<Seq<char>> {
        if key == "trades"@ {
            self.trades
        } else if key == "quotes"@ {
            self.quotes
        } else if key == "bars"@ {
            self.bars
        } else if key == "dailyBars"@ {
            self.daily_bars
        } else if key == "updatedBars"@ {
            self.updated_bars
        } else if key == "orderbooks"@ {
            self.orderbooks
        } else {
            Seq::empty()
        }
    }

    /// The subscribe command: `action` is `subscribe`, and each channel that
    /// has a symbol stands under its key as the array of its symbols.
    pub open spec fn command(self) -> JsonModel {
        JsonModel::Object(
            Map::new(
                |key: Seq<char>| key == "action"@ || self.channel(key).len() > 0,
                |key: Seq<char>|
                    if key == "action"@ {
                        JsonModel::Str("subscribe"@)
                    } else {
                        string_array(self.channel(key))
                    },
            ),
        )
    }
}

/// No two keys of the subscribe command are the same.
pub proof fn lemma_command_keys_differ()
    ensures
        "action"@ != "trades"@,
        "action"@ != "quotes"@,
        "action"@ != "bars"@,
        "action"@ != "dailyBars"@,
        "action"@ != "updatedBars"@,
        "action"@ != "orderbooks"@,
        "trades"@ != "quotes"@,
        "trades"@ != "bars"@,
        "trades"@ != "dailyBars"@,
        "trades"@ != "updatedBars"@,
        "trades"@ != "orderbooks"@,
        "quotes"@ != "bars"@,
        "quotes"@ != "dailyBars"@,
        "quotes"@ != "updatedBars"@,
        "quotes"@ != "orderbooks"@,
        "bars"@ != "dailyBars"@,
        "bars"@ != "updatedBars"@,
        "bars"@ != "orderbooks"@,
        "dailyBars"@ != "updatedBars"@,
        "dailyBars"@ != "orderbooks"@,
        "updatedBars"@ != "orderbooks"@,
{
    reveal_strlit("action");
    reveal_strlit("trades");
    reveal_strlit("quotes");
    reveal_strlit("bars");
    reveal_strlit("dailyBars");
    reveal_strlit("updatedBars");
    reveal_strlit("orderbooks");
    assert("action"@.len() == 6);
    assert("trades"@.len() == 6);
    assert("quotes"@.len() == 6);
    assert("bars"@.len() == 4);
    assert("dailyBars"@.len() == 9);
    assert("updatedBars"@.len() == 11);
    assert("orderbooks"@.len() == 10);
    assert("action"@[0] != "trades"@[0]);
    assert("action"@[0] != "quotes"@[0]);
    assert("trades"@[0] != "quotes"@[0]);
}

/// What the subscribe command holds. `action` is `subscribe`. Under the key
/// of a channel stand exactly the symbols of that channel, in their order,
/// where there is one; a channel without symbols has no member. There is no
/// other member.
pub proof fn lemma_command_holds_channels(s: SubscribeView, key: Seq<char>)
    ensures
        member_of(s.command(), "action"@) == Some(JsonModel::Str("subscribe"@)),
        s.channel("trades"@) == s.trades,
        s.channel("quotes"@) == s.quotes,
        s.channel("bars"@) == s.bars,
        s.channel("dailyBars"@) == s.daily_bars,
        s.channel("updatedBars"@) == s.updated_bars,
        s.channel("orderbooks"@) == s.orderbooks,
        SubscribeView::is_channel_key(key) && s.channel(key).len() > 0 ==> member_of(
            s.command(),
            key,
        ) == Some(string_array(s.channel(key))) && texts_of(string_array(s.channel(key)))
            == s.channel(key),
        SubscribeView::is_channel_key(key) && s.channel(key).len() == 0 ==> member_of(
            s.command(),
            key,
        ) is None,
        member_of(s.command(), key) is Some ==> key == "action"@
            || SubscribeView::is_channel_key(key),
{
    lemma_command_keys_differ();
    assert(texts_of(string_array(s.channel(key))) =~= s.channel(key));
}

impl Subscribe {
    /// A descriptor with no channel.
    pub fn new() -> (r: Self)
        ensures
            r@.trades == Seq::<Seq<char>>::empty(),
            r@.quotes == Seq::<Seq<char>>::empty(),
            r@.bars == Seq::<Seq<char>>::empty(),
            r@.daily_bars == Seq::<Seq<char>>::empty(),
            r@.updated_bars == Seq::<Seq<char>>::empty(),
            r@.orderbooks == Seq::<Seq<char>>::empty(),
    {
        let r = Subscribe {
            trades: Vec::new(),
            quotes: Vec::new(),
            bars: Vec::new(),
            daily_bars: Vec::new(),
            updated_bars: Vec::new(),
            orderbooks: Vec::new(),
        };
        assert(r@.trades =~= Seq::<Seq<char>>::empty());
        assert(r@.quotes =~= Seq::<Seq<char>>::empty());
        assert(r@.bars =~= Seq::<Seq<char>>::empty());
        assert(r@.daily_bars =~= Seq::<Seq<char>>::empty());
        assert(r@.updated_bars =~= Seq::<Seq<char>>::empty());
        assert(r@.orderbooks =~= Seq::<Seq<char>>::empty());
        r
    }

    /// Renders the subscribe command.
    pub fn action_json(&self) -> (r: serde_json::Value)
        ensures
            value_model(r) == self@.command(),
    {
        let mut entries: Vec<(String, serde_json::Value)> = Vec::new();
        let ghost e0 = entry_models(entries@);
        let action = json_string("subscribe".to_owned());
        entries.push(("action".to_owned(), action));
        proof {
            lemma_command_keys_differ();
            assert(e0 =~= Seq::empty());
            assert(object_of(e0) =~= Map::empty());
            lemma_push_entry(e0, "action"@, JsonModel::Str("subscribe"@));
            assert(entry_models(entries@) =~= e0.push(("action"@, JsonModel::Str("subscribe"@))));
        }
        add_channel(&mut entries, "trades", &self.trades);
        add_channel(&mut entries, "quotes", &self.quotes);
        add_channel(&mut entries, "bars", &self.bars);
        add_channel(&mut entries, "dailyBars", &self.daily_bars);
        add_channel(&mut entries, "updatedBars", &self.updated_bars);
        add_channel(&mut entries, "orderbooks", &self.orderbooks);
        assert(object_of(entry_models(entries@)) =~= self@.command()->Object_0);
        json_object(entries)
    }
}

/// The channels that the service confirms, each with its symbols. A channel
/// that the acknowledgement leaves out has none.
#[derive(Debug, Clone)]
pub struct SubscriptionAck {
    /// Symbols whose trades are streamed.
    pub trades: Vec<String>,
    /// Symbols whose quotes are streamed.
    pub quotes: Vec<String>,
    /// Symbols whose minute bars are streamed.
    pub bars: Vec<String>,
    /// Symbols whose daily bars are streamed.
    pub daily_bars: Vec<String>,
    /// Symbols whose corrected bars are streamed.
    pub updated_bars: Vec<String>,
    /// Symbols whose order books are streamed.
    pub orderbooks: Vec<String>,
}

/// The mathematical content of a [`SubscriptionAck`].
pub ghost struct SubscriptionAckView {
    pub trades: Seq<Seq<char>>,
    pub quotes: Seq<Seq<char>>,
    pub bars: Seq<Seq<char>>,
    pub daily_bars: Seq<Seq<char>>,
    pub updated_bars: Seq<Seq<char>>,
    pub orderbooks: Seq<Seq<char>>,
}

impl View for SubscriptionAck {
    type V = SubscriptionAckView;

    open spec fn view(&self) -> SubscriptionAckView {
        SubscriptionAckView {
            trades: self.trades.deep_view(),
            quotes: self.quotes.deep_view(),
            bars: self.bars.deep_view(),
            daily_bars: self.daily_bars.deep_view(),
            updated_bars: self.updated_bars.deep_view(),
            orderbooks: self.orderbooks.deep_view(),
        }
    }
}

impl SubscriptionAck {
    /// The first member, in the order of the fields, that is absent or has
    /// the wrong shape; `None` where the object decodes.
    pub open spec fn fault(m: JsonModel) -> Option<DecodeFault> {
        first_fault(
            defaulted_fault(m, "trades"@, Shape::TextList),
            first_fault(
                defaulted_fault(m, "quotes"@, Shape::TextList),
                first_fault(
                    defaulted_fault(m, "bars"@, Shape::TextList),
                    first_fault(
                        defaulted_fault(m, "dailyBars"@, Shape::TextList),
                        first_fault(
                            defaulted_fault(m, "updatedBars"@, Shape::TextList),
                            defaulted_fault(m, "orderbooks"@, Shape::TextList),
                        ),
                    ),
                ),
            ),
        )
    }

    /// What the object decodes to.
    pub open spec fn parsed(m: JsonModel) -> SubscriptionAckView {
        SubscriptionAckView {
            trades: texts_or_empty_at(m, "trades"@),
            quotes: texts_or_empty_at(m, "quotes"@),
            bars: texts_or_empty_at(m, "bars"@),
            daily_bars: texts_or_empty_at(m, "dailyBars"@),
            updated_bars: texts_or_empty_at(m, "updatedBars"@),
            orderbooks: texts_or_empty_at(m, "orderbooks"@),
        }
    }

    /// Decodes one wire object.
    pub fn decode(v: &serde_json::Value) -> (r: Result<SubscriptionAck, DecodeError>)
        ensures
            match r {
                Ok(x) => Self::fault(value_model(*v)) is None && x@ == Self::parsed(value_model(*v)),
                Err(e) => Self::fault(value_model(*v)) == Some(e@),
            },
    {
        let trades = read_texts_or_empty(v, "trades")?;
        let quotes = read_texts_or_empty(v, "quotes")?;
        let bars = read_texts_or_empty(v, "bars")?;
        let daily_bars = read_texts_or_empty(v, "dailyBars")?;
        let updated_bars = read_texts_or_empty(v, "updatedBars")?;
        let orderbooks = read_texts_or_empty(v, "orderbooks")?;
        Ok(SubscriptionAck { trades, quotes, bars, daily_bars, updated_bars, orderbooks })
    }
}

/// A control message that reports progress of the handshake.
#[derive(Debug, Clone)]
pub struct SuccessMsg {
    /// What succeeded: `connected` or `authenticated`.
    pub msg: Option<String>,
    /// A numeric code, where the service sends one.
    pub code: Option<i64>,
}

/// The mathematical content of a [`SuccessMsg`].
pub ghost struct SuccessMsgView {
    pub msg: Option<Seq<char>>,
    pub code: Option<i64>,
}

impl View for SuccessMsg {
    type V = SuccessMsgView;

    open spec fn view(&self) -> SuccessMsgView {
        SuccessMsgView {
            msg: self.msg.deep_view(),
            code: self.code,
        }
    }
}

impl SuccessMsg {
    /// The first member, in the order of the fields, that is absent or has
    /// the wrong shape; `None` where the object decodes.
    pub open spec fn fault(m: JsonModel) -> Option<DecodeFault> {
        first_fault(
            optional_fault(m, "msg"@, Shape::Text),
            optional_fault(m, "code"@, Shape::Integer),
        )
    }

    /// What the object decodes to.
    pub open spec fn parsed(m: JsonModel) -> SuccessMsgView {
        SuccessMsgView {
            msg: optional_text_at(m, "msg"@),
            code: optional_integer_at(m, "code"@),
        }
    }

    /// Decodes one wire object.
    pub fn decode(v: &serde_json::Value) -> (r: Result<SuccessMsg, DecodeError>)
        ensures
            match r {
                Ok(x) => Self::fault(value_model(*v)) is None && x@ == Self::parsed(value_model(*v)),
                Err(e) => Self::fault(value_model(*v)) == Some(e@),
            },
    {
        let msg = read_optional_text(v, "msg")?;
        let code = read_optional_integer(v, "code")?;
        Ok(SuccessMsg { msg, code })
    }
}

/// A control message that reports a refusal.
#[derive(Debug, Clone)]
pub struct ErrorMsg {
    /// What went wrong, in words.
    pub msg: Option<String>,
    /// The numeric code of the refusal.
    pub code: Option<i64>,
}

/// The mathematical content of a [`ErrorMsg`].
pub ghost struct ErrorMsgView {
    pub msg: Option<Seq<char>>,
    pub code: Option<i64>,
}

impl View for ErrorMsg {
    type V = ErrorMsgView;

    open spec fn view(&self) -> ErrorMsgView {
        ErrorMsgView {
            msg: self.msg.deep_view(),
            code: self.code,
        }
    }
}

impl ErrorMsg {
    /// The first member, in the order of the fields, that is absent or has
    /// the wrong shape; `None` where the object decodes.
    pub open spec fn fault(m: JsonModel) -> Option<DecodeFault> {
        first_fault(
            optional_fault(m, "msg"@, Shape::Text),
            optional_fault(m, "code"@, Shape::Integer),
        )
    }

    /// What the object decodes to.
    pub open spec fn parsed(m: JsonModel) -> ErrorMsgView {
        ErrorMsgView {
            msg: optional_text_at(m, "msg"@),
            code: optional_integer_at(m, "code"@),
        }
    }

    /// Decodes one wire object.
    pub fn decode(v: &serde_json::Value) -> (r: Result<ErrorMsg, DecodeError>)
        ensures
            match r {
                Ok(x) => Self::fault(value_model(*v)) is None && x@ == Self::parsed(value_model(*v)),
                Err(e) => Self::fault(value_model(*v)) == Some(e@),
            },
    {
        let msg = read_optional_text(v, "msg")?;
        let code = read_optional_integer(v, "code")?;
        Ok(ErrorMsg { msg, code })
    }
}

/// One trade.
#[derive(Debug, Clone)]
pub struct Trade {
    /// The pair that traded.
    pub symbol: String,
    /// The price of the trade.
    pub price: Float64,
    /// The quantity traded.
    pub size: Float64,
    /// When the trade happened, in ISO 8601.
    pub timestamp: String,
    /// The identifier of the trade.
    pub trade_id: NumF64,
    /// The side of the taker.
    pub taker_side: String,
}

/// The mathematical content of a [`Trade`].
pub ghost struct TradeView {
    pub symbol: Seq<char>,
    pub price: u64,
    pub size: u64,
    pub timestamp: Seq<char>,
    pub trade_id: NumF64View,
    pub taker_side: Seq<char>,
}

impl View for Trade {
    type V = TradeView;

    open spec fn view(&self) -> TradeView {
        TradeView {
            symbol: self.symbol@,
            price: self.price.bits,
            size: self.size.bits,
            timestamp: self.timestamp@,
            trade_id: self.trade_id@,
            taker_side: self.taker_side@,
        }
    }
}

impl Trade {
    /// The first member, in the order of the fields, that is absent or has
    /// the wrong shape; `None` where the object decodes.
    pub open spec fn fault(m: JsonModel) -> Option<DecodeFault> {
        first_fault(
            required_fault(m, "S"@, Shape::Text),
            first_fault(
                required_fault(m, "p"@, Shape::Float),
                first_fault(
                    required_fault(m, "s"@, Shape::Float),
                    first_fault(
                        required_fault(m, "t"@, Shape::Text),
                        first_fault(
                            num_fault(m, "i"@),
                            required_fault(m, "tks"@, Shape::Text),
                        ),
                    ),
                ),
            ),
        )
    }

    /// What the object decodes to.
    pub open spec fn parsed(m: JsonModel) -> TradeView {
        TradeView {
            symbol: text_at(m, "S"@),
            price: float_at(m, "p"@),
            size: float_at(m, "s"@),
            timestamp: text_at(m, "t"@),
            trade_id: num_at(m, "i"@),
            taker_side: text_at(m, "tks"@),
        }
    }

    /// Decodes one wire object.
    pub fn decode(v: &serde_json::Value) -> (r: Result<Trade, DecodeError>)
        ensures
            match r {
                Ok(x) => Self::fault(value_model(*v)) is None && x@ == Self::parsed(value_model(*v)),
                Err(e) => Self::fault(value_model(*v)) == Some(e@),
            },
    {
        let symbol = read_text(v, "S")?;
        let price = read_float(v, "p")?;
        let size = read_float(v, "s")?;
        let timestamp = read_text(v, "t")?;
        let trade_id = read_num(v, "i")?;
        let taker_side = read_text(v, "tks")?;
        Ok(Trade { symbol, price, size, timestamp, trade_id, taker_side })
    }
}

/// The best bid and ask of one pair.
#[derive(Debug, Clone)]
pub struct Quote {
    /// The pair quoted.
    pub symbol: String,
    /// The best bid.
    pub bid_price: Float64,
    /// The quantity at the best bid.
    pub bid_size: Float64,
    /// The best ask.
    pub ask_price: Float64,
    /// The quantity at the best ask.
    pub ask_size: Float64,
    /// When the quote was made, in ISO 8601.
    pub timestamp: String,
}

/// The mathematical content of a [`Quote`].
pub ghost struct QuoteView {
    pub symbol: Seq<char>,
    pub bid_price: u64,
    pub bid_size: u64,
    pub ask_price: u64,
    pub ask_size: u64,
    pub timestamp: Seq<char>,
}

impl View for Quote {
    type V = QuoteView;

    open spec fn view(&self) -> QuoteView {
        QuoteView {
            symbol: self.symbol@,
            bid_price: self.bid_price.bits,
            bid_size: self.bid_size.bits,
            ask_price: self.ask_price.bits,
            ask_size: self.ask_size.bits,
            timestamp: self.timestamp@,
        }
    }
}

impl Quote {
    /// The first member, in the order of the fields, that is absent or has
    /// the wrong shape; `None` where the object decodes.
    pub open spec fn fault(m: JsonModel) -> Option<DecodeFault> {
        first_fault(
            required_fault(m, "S"@, Shape::Text),
            first_fault(
                required_fault(m, "bp"@, Shape::Float),
                first_fault(
                    required_fault(m, "bs"@, Shape::Float),
                    first_fault(
                        required_fault(m, "ap"@, Shape::Float),
                        first_fault(
                            required_fault(m, "as"@, Shape::Float),
                            required_fault(m, "t"@, Shape::Text),
                        ),
                    ),
                ),
            ),
        )
    }

    /// What the object decodes to.
    pub open spec fn parsed(m: JsonModel) -> QuoteView {
        QuoteView {
            symbol: text_at(m, "S"@),
            bid_price: float_at(m, "bp"@),
            bid_size: float_at(m, "bs"@),
            ask_price: float_at(m, "ap"@),
            ask_size: float_at(m, "as"@),
            timestamp: text_at(m, "t"@),
        }
    }

    /// Decodes one wire object.
    pub fn decode(v: &serde_json::Value) -> (r: Result<Quote, DecodeError>)
        ensures
            match r {
                Ok(x) => Self::fault(value_model(*v)) is None && x@ == Self::parsed(value_model(*v)),
                Err(e) => Self::fault(value_model(*v)) == Some(e@),
            },
    {
        let symbol = read_text(v, "S")?;
        let bid_price = read_float(v, "bp")?;
        let bid_size = read_float(v, "bs")?;
        let ask_price = read_float(v, "ap")?;
        let ask_size = read_float(v, "as")?;
        let timestamp = read_text(v, "t")?;
        Ok(Quote { symbol, bid_price, bid_size, ask_price, ask_size, timestamp })
    }
}

/// The prices and the volume of one pair over one interval.
#[derive(Debug, Clone)]
pub struct Bar {
    /// The pair.
    pub symbol: String,
    /// The first price of the interval.
    pub open: Float64,
    /// The highest price of the interval.
    pub high: Float64,
    /// The lowest price of the interval.
    pub low: Float64,
    /// The last price of the interval.
    pub close: Float64,
    /// The quantity traded in the interval.
    pub volume: NumF64,
    /// When the interval began, in ISO 8601.
    pub timestamp: String,
}

/// The mathematical content of a [`Bar`].
pub ghost struct BarView {
    pub symbol: Seq<char>,
    pub open: u64,
    pub high: u64,
    pub low: u64,
    pub close: u64,
    pub volume: NumF64View,
    pub timestamp: Seq<char>,
}

impl View for Bar {
    type V = BarView;

    open spec fn view(&self) -> BarView {
        BarView {
            symbol: self.symbol@,
            open: self.open.bits,
            high: self.high.bits,
            low: self.low.bits,
            close: self.close.bits,
            volume: self.volume@,
            timestamp: self.timestamp@,
        }
    }
}

impl Bar {
    /// The first member, in the order of the fields, that is absent or has
    /// the wrong shape; `None` where the object decodes.
    pub open spec fn fault(m: JsonModel) -> Option<DecodeFault> {
        first_fault(
            required_fault(m, "S"@, Shape::Text),
            first_fault(
                required_fault(m, "o"@, Shape::Float),
                first_fault(
                    required_fault(m, "h"@, Shape::Float),
                    first_fault(
                        required_fault(m, "l"@, Shape::Float),
                        first_fault(
                            required_fault(m, "c"@, Shape::Float),
                            first_fault(
                                num_fault(m, "v"@),
                                required_fault(m, "t"@, Shape::Text),
                            ),
                        ),
                    ),
                ),
            ),
        )
    }

    /// What the object decodes to.
    pub open spec fn parsed(m: JsonModel) -> BarView {
        BarView {
            symbol: text_at(m, "S"@),
            open: float_at(m, "o"@),
            high: float_at(m, "h"@),
            low: float_at(m, "l"@),
            close: float_at(m, "c"@),
            volume: num_at(m, "v"@),
            timestamp: text_at(m, "t"@),
        }
    }

    /// Decodes one wire object.
    pub fn decode(v: &serde_json::Value) -> (r: Result<Bar, DecodeError>)
        ensures
            match r {
                Ok(x) => Self::fault(value_model(*v)) is None && x@ == Self::parsed(value_model(*v)),
                Err(e) => Self::fault(value_model(*v)) == Some(e@),
            },
    {
        let symbol = read_text(v, "S")?;
        let open = read_float(v, "o")?;
        let high = read_float(v, "h")?;
        let low = read_float(v, "l")?;
        let close = read_float(v, "c")?;
        let volume = read_num(v, "v")?;
        let timestamp = read_text(v, "t")?;
        Ok(Bar { symbol, open, high, low, close, volume, timestamp })
    }
}

/// One price level of an order book.
#[derive(Debug, Clone)]
pub struct Level {
    /// The price of the level.
    pub p: Float64,
    /// The quantity resting at that price.
    pub s: Float64,
}

/// The mathematical content of a [`Level`].
pub ghost struct LevelView {
    pub p: u64,
    pub s: u64,
}

impl View for Level {
    type V = LevelView;

    open spec fn view(&self) -> LevelView {
        LevelView {
            p: self.p.bits,
            s: self.s.bits,
        }
    }
}

impl Level {
    /// The first member, in the order of the fields, that is absent or has
    /// the wrong shape; `None` where the object decodes.
    pub open spec fn fault(m: JsonModel) -> Option<DecodeFault> {
        first_fault(
            required_fault(m, "p"@, Shape::Float),
            required_fault(m, "s"@, Shape::Float),
        )
    }

    /// What the object decodes to.
    pub open spec fn parsed(m: JsonModel) -> LevelView {
        LevelView {
            p: float_at(m, "p"@),
            s: float_at(m, "s"@),
        }
    }

    /// Decodes one wire object.
    pub fn decode(v: &serde_json::Value) -> (r: Result<Level, DecodeError>)
        ensures
            match r {
                Ok(x) => Self::fault(value_model(*v)) is None && x@ == Self::parsed(value_model(*v)),
                Err(e) => Self::fault(value_model(*v)) == Some(e@),
            },
    {
        let p = read_float(v, "p")?;
        let s = read_float(v, "s")?;
        Ok(Level { p, s })
    }
}

/// The contents of a list of levels.
pub open spec fn level_views(levels: Seq<Level>) -> Seq<LevelView> {
    Seq::new(levels.len(), |i: int| levels[i]@)
}

/// Whether a tree is an array of levels.
pub open spec fn is_level_list(x: JsonModel) -> bool {
    x matches JsonModel::Array(a) && forall|i: int|
        0 <= i < a.len() ==> Level::fault(#[trigger] a[i]) is None
}

/// The fault of a required member that must be an array of levels.
pub open spec fn levels_fault(m: JsonModel, key: Seq<char>) -> Option<DecodeFault> {
    match member_of(m, key) {
        None => Some(DecodeFault::MissingField(key)),
        Some(x) => if is_level_list(x) {
            None
        } else {
            Some(DecodeFault::InvalidField(key))
        },
    }
}

/// The levels under a key.
pub open spec fn levels_at(m: JsonModel, key: Seq<char>) -> Seq<LevelView> {
    let a = member_of(m, key).unwrap()->Array_0;
    Seq::new(a.len(), |i: int| Level::parsed(a[i]))
}

/// Reads a required member that is an array of levels.
pub fn read_levels(v: &serde_json::Value, key: &str) -> (r: Result<Vec<Level>, DecodeError>)
    ensures
        match r {
            Ok(list) => levels_fault(value_model(*v), key@) is None && level_views(list@)
                == levels_at(value_model(*v), key@),
            Err(e) => levels_fault(value_model(*v), key@) == Some(e@),
        },
{
    let x = required(v, key)?;
    match x.as_array() {
        None => Err(DecodeError::InvalidField(key.to_owned())),
        Some(items) => {
            let ghost a = value_model(*x)->Array_0;
            let mut list: Vec<Level> = Vec::new();
            let mut i: usize = 0;
            while i < items.len()
                invariant
                    i <= items.len(),
                    member_of(value_model(*v), key@) == Some(value_model(*x)),
                    value_model(*x) == JsonModel::Array(a),
                    models_of(items@) == a,
                    list.len() == i,
                    forall|j: int| 0 <= j < i ==> Level::fault(#[trigger] a[j]) is None,
                    forall|j: int| 0 <= j < i ==> (#[trigger] list@[j])@ == Level::parsed(a[j]),
                decreases items.len() - i,
            {
                assert(value_model(items@[i as int]) == a[i as int]);
                match Level::decode(&items[i]) {
                    Ok(level) => {
                        list.push(level);
                    },
                    Err(_) => {
                        assert(Level::fault(a[i as int]) is Some);
                        return Err(DecodeError::InvalidField(key.to_owned()));
                    },
                }
                i += 1;
            }
            assert(level_views(list@) =~= levels_at(value_model(*v), key@));
            Ok(list)
        },
    }
}

/// A change to the order book of one pair, passed on as it arrives.
#[derive(Debug, Clone)]
pub struct Orderbook {
    /// The pair.
    pub symbol: String,
    /// When the book changed, in ISO 8601.
    pub timestamp: String,
    /// The bid levels that changed.
    pub bids: Vec<Level>,
    /// The ask levels that changed.
    pub asks: Vec<Level>,
    /// Whether the levels replace the whole book.
    pub reset: Option<bool>,
}

/// The mathematical content of a [`Orderbook`].
pub ghost struct OrderbookView {
    pub symbol: Seq<char>,
    pub timestamp: Seq<char>,
    pub bids: Seq<LevelView>,
    pub asks: Seq<LevelView>,
    pub reset: Option<bool>,
}

impl View for Orderbook {
    type V = OrderbookView;

    open spec fn view(&self) -> OrderbookView {
        OrderbookView {
            symbol: self.symbol@,
            timestamp: self.timestamp@,
            bids: level_views(self.bids@),
            asks: level_views(self.asks@),
            reset: self.reset,
        }
    }
}

impl Orderbook {
    /// The first member, in the order of the fields, that is absent or has
    /// the wrong shape; `None` where the object decodes.
    pub open spec fn fault(m: JsonModel) -> Option<DecodeFault> {
        first_fault(
            required_fault(m, "S"@, Shape::Text),
            first_fault(
                required_fault(m, "t"@, Shape::Text),
                first_fault(
                    levels_fault(m, "b"@),
                    first_fault(
                        levels_fault(m, "a"@),
                        optional_fault(m, "r"@, Shape::Flag),
                    ),
                ),
            ),
        )
    }

    /// What the object decodes to.
    pub open spec fn parsed(m: JsonModel) -> OrderbookView {
        OrderbookView {
            symbol: text_at(m, "S"@),
            timestamp: text_at(m, "t"@),
            bids: levels_at(m, "b"@),
            asks: levels_at(m, "a"@),
            reset: optional_flag_at(m, "r"@),
        }
    }

    /// Decodes one wire object.
    pub fn decode(v: &serde_json::Value) -> (r: Result<Orderbook, DecodeError>)
        ensures
            match r {
                Ok(x) => Self::fault(value_model(*v)) is None && x@ == Self::parsed(value_model(*v)),
                Err(e) => Self::fault(value_model(*v)) == Some(e@),
            },
    {
        let symbol = read_text(v, "S")?;
        let timestamp = read_text(v, "t")?;
        let bids = read_levels(v, "b")?;
        let asks = read_levels(v, "a")?;
        let reset = read_optional_flag(v, "r")?;
        Ok(Orderbook { symbol, timestamp, bids, asks, reset })
    }
}

/// One message of the crypto feed. The member `"T"` of the wire object decides
/// the kind; an object with an unknown `"T"` is no message.
#[derive(Debug, Clone)]
pub enum StockMsg {
    /// A trade.
    Trade(Trade),
    /// A quote.
    Quote(Quote),
    /// A minute bar.
    Bar(Bar),
    /// A daily bar.
    DailyBar(Bar),
    /// A minute bar corrected by late trades.
    UpdatedBar(Bar),
    /// A change to an order book.
    Orderbook(Orderbook),
    /// The channels now subscribed.
    Subscription(SubscriptionAck),
    /// Progress of the handshake.
    Success(SuccessMsg),
    /// A refusal.
    Error(ErrorMsg),
}

/// The mathematical content of a [`StockMsg`].
pub ghost enum StockMsgView {
    Trade(TradeView),
    Quote(QuoteView),
    Bar(BarView),
    DailyBar(BarView),
    UpdatedBar(BarView),
    Orderbook(OrderbookView),
    Subscription(SubscriptionAckView),
    Success(SuccessMsgView),
    Error(ErrorMsgView),
}

impl View for StockMsg {
    type V = StockMsgView;

    open spec fn view(&self) -> StockMsgView {
        match self {
            StockMsg::Trade(x) => StockMsgView::Trade(x@),
            StockMsg::Quote(x) => StockMsgView::Quote(x@),
            StockMsg::Bar(x) => StockMsgView::Bar(x@),
            StockMsg::DailyBar(x) => StockMsgView::DailyBar(x@),
            StockMsg::UpdatedBar(x) => StockMsgView::UpdatedBar(x@),
            StockMsg::Orderbook(x) => StockMsgView::Orderbook(x@),
            StockMsg::Subscription(x) => StockMsgView::Subscription(x@),
            StockMsg::Success(x) => StockMsgView::Success(x@),
            StockMsg::Error(x) => StockMsgView::Error(x@),
        }
    }
}

impl WireMessage for StockMsg {
    /// The discriminant must be a string that names a kind, and the object
    /// must then decode as that kind.
    open spec fn fault(m: JsonModel) -> Option<DecodeFault> {
        let tag = text_at(m, "T"@);
        if required_fault(m, "T"@, Shape::Text) is Some {
            required_fault(m, "T"@, Shape::Text)
        } else if tag == "t"@ {
            Trade::fault(m)
        } else if tag == "q"@ {
            Quote::fault(m)
        } else if tag == "b"@ {
            Bar::fault(m)
        } else if tag == "d"@ {
            Bar::fault(m)
        } else if tag == "u"@ {
            Bar::fault(m)
        } else if tag == "o"@ {
            Orderbook::fault(m)
        } else if tag == "subscription"@ {
            SubscriptionAck::fault(m)
        } else if tag == "success"@ {
            SuccessMsg::fault(m)
        } else if tag == "error"@ {
            ErrorMsg::fault(m)
        } else {
            Some(DecodeFault::UnknownTag(tag))
        }
    }

    open spec fn parsed(m: JsonModel) -> StockMsgView {
        let tag = text_at(m, "T"@);
        if tag == "t"@ {
            StockMsgView::Trade(Trade::parsed(m))
        } else if tag == "q"@ {
            StockMsgView::Quote(Quote::parsed(m))
        } else if tag == "b"@ {
            StockMsgView::Bar(Bar::parsed(m))
        } else if tag == "d"@ {
            StockMsgView::DailyBar(Bar::parsed(m))
        } else if tag == "u"@ {
            StockMsgView::UpdatedBar(Bar::parsed(m))
        } else if tag == "o"@ {
            StockMsgView::Orderbook(Orderbook::parsed(m))
        } else if tag == "subscription"@ {
            StockMsgView::Subscription(SubscriptionAck::parsed(m))
        } else if tag == "success"@ {
            StockMsgView::Success(SuccessMsg::parsed(m))
        } else {
            StockMsgView::Error(ErrorMsg::parsed(m))
        }
    }

    /// A success message greets or accepts, by its text; an error message
    /// refuses; everything else is data.
    open spec fn role_of(x: StockMsgView) -> RoleView {
        match x {
            StockMsgView::Success(s) => if s.msg == Some("connected"@) {
                RoleView::Connected
            } else if s.msg == Some("authenticated"@) {
                RoleView::Authenticated
            } else {
                RoleView::Data
            },
            StockMsgView::Error(e) => RoleView::Rejected(
                RejectionView { code: e.code, msg: e.msg },
            ),
            _ => RoleView::Data,
        }
    }

    fn decode(v: &serde_json::Value) -> (r: Result<StockMsg, DecodeError>) {
        let tag = read_text(v, "T")?;
        if text_eq(tag.as_str(), "t") {
            let x = Trade::decode(v)?;
            Ok(StockMsg::Trade(x))
        } else if text_eq(tag.as_str(), "q") {
            let x = Quote::decode(v)?;
            Ok(StockMsg::Quote(x))
        } else if text_eq(tag.as_str(), "b") {
            let x = Bar::decode(v)?;
            Ok(StockMsg::Bar(x))
        } else if text_eq(tag.as_str(), "d") {
            let x = Bar::decode(v)?;
            Ok(StockMsg::DailyBar(x))
        } else if text_eq(tag.as_str(), "u") {
            let x = Bar::decode(v)?;
            Ok(StockMsg::UpdatedBar(x))
        } else if text_eq(tag.as_str(), "o") {
            let x = Orderbook::decode(v)?;
            Ok(StockMsg::Orderbook(x))
        } else if text_eq(tag.as_str(), "subscription") {
            let x = SubscriptionAck::decode(v)?;
            Ok(StockMsg::Subscription(x))
        } else if text_eq(tag.as_str(), "success") {
            let x = SuccessMsg::decode(v)?;
            Ok(StockMsg::Success(x))
        } else if text_eq(tag.as_str(), "error") {
            let x = ErrorMsg::decode(v)?;
            Ok(StockMsg::Error(x))
        } else {
            Err(DecodeError::UnknownTag(tag))
        }
    }

    fn role(&self) -> (r: Role) {
        match self {
            StockMsg::Success(s) => match &s.msg {
                Some(text) => if text_eq(text.as_str(), "connected") {
                    Role::Connected
                } else if text_eq(text.as_str(), "authenticated") {
                    Role::Authenticated
                } else {
                    Role::Data
                },
                None => Role::Data,
            },
            StockMsg::Error(e) => Role::Rejected(
                Rejection { code: e.code, msg: copy_optional_text(&e.msg) },
            ),
            _ => Role::Data,
        }
    }
}

/// Where and to what a crypto stream connects.
#[derive(Debug)]
pub struct CryptoStreamParams {
    /// The address of the feed.
    pub endpoint: String,
    /// The channels wanted.
    pub subscription: Subscribe,
}

impl CryptoStreamParams {
    /// The address of the feed for pairs traded in the United States.
    pub open spec fn default_endpoint() -> Seq<char> {
        "wss://stream.data.alpaca.markets/v1beta3/crypto/us"@
    }

    /// Parameters for the default feed.
    pub fn new(subscription: Subscribe) -> (r: Self)
        ensures
            r.endpoint@ == Self::default_endpoint(),
            r.subscription == subscription,
    {
        CryptoStreamParams {
            endpoint: "wss://stream.data.alpaca.markets/v1beta3/crypto/us".to_owned(),
            subscription,
        }
    }

    /// The address to connect to.
    pub fn url(&self) -> (r: String)
        ensures
            r@ == self.endpoint@,
    {
        self.endpoint.clone()
    }

    /// A session for this feed with the given credentials.
    pub fn session(&self, key: &str, secret: &str) -> (s: Session)
        ensures
            s@ == SessionView::fresh(
                self.endpoint@,
                json_text(auth_model(key@, secret@)),
                json_text(self.subscription@.command()),
            ),
    {
        Session::open(self.url(), key, secret, &self.subscription.action_json())
    }
}

} // verus!
