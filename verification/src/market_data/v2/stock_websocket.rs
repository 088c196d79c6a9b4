//! The stock feed: its subscription command and its wire messages.
//!
//! A frame is a JSON array of objects. Each object names its kind in the
//! member `"T"` and carries its fields under short keys, which are kept here
//! exactly as the service sends them.
use crate::json::{
    entry_models, json_object, json_string, json_text, member_of, object_of, string_array,
    value_model, Float64, JsonModel,
};
use crate::market_data::v2::command::{add_channel, auth_model, lemma_push_entry};
use crate::market_data::v2::decode::{
    defaulted_fault, first_fault, float_at, integer_at, optional_fault, optional_integer_at,
    optional_text_at, read_float, read_integer, read_optional_integer, read_optional_text,
    read_text, read_texts, read_texts_or_empty, required_fault, text_at, texts_at, texts_of,
    texts_or_empty_at, DecodeError, DecodeFault, Shape,
};
use crate::market_data::v2::message::{Rejection, RejectionView, Role, RoleView, WireMessage};
use crate::market_data::v2::session::{Session, SessionView};
use crate::text::{copy_optional_text, text_eq, trim_end, without_trailing};
use vstd::prelude::*;

verus! {

/// The channels a caller wants, each with its symbols in the caller's order.
///
/// The subscribe command names a channel only if it has a symbol: a channel
/// left empty is left out of the command, never sent as an empty array.
#[derive(Debug, Default, Clone)]
pub struct Subscribe {
    /// Symbols whose trades are wanted.
    pub trades: Vec<String>,
    /// Symbols whose quotes are wanted.
    pub quotes: Vec<String>,
    /// Symbols whose minute bars are wanted.
    pub bars: Vec<String>,
    /// Symbols whose daily bars are wanted.
    pub daily_bars: Vec<String>,
    /// Symbols whose corrected bars are wanted.
    pub updated_bars: Vec<String>,
    /// Symbols whose trading statuses are wanted.
    pub statuses: Vec<String>,
    /// Symbols whose price bands are wanted.
    pub lulds: Vec<String>,
    /// Symbols whose order imbalances are wanted.
    pub imbalances: Vec<String>,
}

/// The mathematical content of a [`Subscribe`].
pub ghost struct SubscribeView {
    pub trades: Seq<Seq<char>>,
    pub quotes: Seq<Seq<char>>,
    pub bars: Seq<Seq<char>>,
    pub daily_bars: Seq<Seq<char>>,
    pub updated_bars: Seq<Seq<char>>,
    pub statuses: Seq<Seq<char>>,
    pub lulds: Seq<Seq<char>>,
    pub imbalances: Seq<Seq<char>>,
}

impl View for Subscribe {
    type V = SubscribeView;

    open spec fn view(&self) -> SubscribeView {
        SubscribeView {
            trades: self.trades.deep_view(),
            quotes: self.quotes.deep_view(),
            bars: self.bars.deep_view(),
            daily_bars: self.daily_bars.deep_view(),
            updated_bars: self.updated_bars.deep_view(),
            statuses: self.statuses.deep_view(),
            lulds: self.lulds.deep_view(),
            imbalances: self.imbalances.deep_view(),
        }
    }
}

impl SubscribeView {
    /// Whether a key is the wire key of a channel.
    pub open spec fn is_channel_key(key: Seq<char>) -> bool {
        key == "trades"@
            || key == "quotes"@
            || key == "bars"@
            || key == "dailyBars"@
            || key == "updatedBars"@
            || key == "statuses"@
            || key == "lulds"@
            || key == "imbalances"@
    }

    /// The symbols of the channel with the given wire key; none for any
    /// other key.
    pub open spec fn channel(self, key: Seq<char>) -> Seq<Seq<char>> {
        if key == "trades"@ {
            self.trades
        } else if key == "quotes"@ {
            self.quotes
        } else if key == "bars"@ {
            self.bars
        } else if key == "dailyBars"@ {
            self.daily_bars
        } else if key == "updatedBars"@ {
            self.updated_bars
        } else if key == "statuses"@ {
            self.statuses
        } else if key == "lulds"@ {
            self.lulds
        } else if key == "imbalances"@ {
            self.imbalances
        } else {
            Seq::empty()
        }
    }

    /// The subscribe command: `action` is `subscribe`, and each channel that
    /// has a symbol stands under its key as the array of its symbols.
    pub open spec fn command(self) -> JsonModel {
        JsonModel::Object(
            Map::new(
                |key: Seq<char>| key == "action"@ || self.channel(key).len() > 0,
                |key: Seq<char>|
                    if key == "action"@ {
                        JsonModel::Str("subscribe"@)
                    } else {
                        string_array(self.channel(key))
                    },
            ),
        )
    }
}

/// No two keys of the subscribe command are the same.
pub proof fn lemma_command_keys_differ()
    ensures
        "action"@ != "trades"@,
        "action"@ != "quotes"@,
        "action"@ != "bars"@,
        "action"@ != "dailyBars"@,
        "action"@ != "updatedBars"@,
        "action"@ != "statuses"@,
        "action"@ != "lulds"@,
        "action"@ != "imbalances"@,
        "trades"@ != "quotes"@,
        "trades"@ != "bars"@,
        "trades"@ != "dailyBars"@,
        "trades"@ != "updatedBars"@,
        "trades"@ != "statuses"@,
        "trades"@ != "lulds"@,
        "trades"@ != "imbalances"@,
        "quotes"@ != "bars"@,
        "quotes"@ != "dailyBars"@,
        "quotes"@ != "updatedBars"@,
        "quotes"@ != "statuses"@,
        "quotes"@ != "lulds"@,
        "quotes"@ != "imbalances"@,
        "bars"@ != "dailyBars"@,
        "bars"@ != "updatedBars"@,
        "bars"@ != "statuses"@,
        "bars"@ != "lulds"@,
        "bars"@ != "imbalances"@,
        "dailyBars"@ != "updatedBars"@,
        "dailyBars"@ != "statuses"@,
        "dailyBars"@ != "lulds"@,
        "dailyBars"@ != "imbalances"@,
        "updatedBars"@ != "statuses"@,
        "updatedBars"@ != "lulds"@,
        "updatedBars"@ != "imbalances"@,
        "statuses"@ != "lulds"@,
        "statuses"@ != "imbalances"@,
        "lulds"@ != "imbalances"@,
{
    reveal_strlit("action");
    reveal_strlit("trades");
    reveal_strlit("quotes");
    reveal_strlit("bars");
    reveal_strlit("dailyBars");
    reveal_strlit("updatedBars");
    reveal_strlit("statuses");
    reveal_strlit("lulds");
    reveal_strlit("imbalances");
    assert("action"@.len() == 6);
    assert("trades"@.len() == 6);
    assert("quotes"@.len() == 6);
    assert("bars"@.len() == 4);
    assert("dailyBars"@.len() == 9);
    assert("updatedBars"@.len() == 11);
    assert("statuses"@.len() == 8);
    assert("lulds"@.len() == 5);
    assert("imbalances"@.len() == 10);
    assert("action"@[0] != "trades"@[0]);
    assert("action"@[0] != "quotes"@[0]);
    assert("trades"@[0] != "quotes"@[0]);
}

/// What the subscribe command holds. `action` is `subscribe`. Under the key
/// of a channel stand exactly the symbols of that channel, in their order,
/// where there is one; a channel without symbols has no member. There is no
/// other member.
pub proof fn lemma_command_holds_channels(s: SubscribeView, key: Seq<char>)
    ensures
        member_of(s.command(), "action"@) == Some(JsonModel::Str("subscribe"@)),
        s.channel("trades"@) == s.trades,
        s.channel("quotes"@) == s.quotes,
        s.channel("bars"@) == s.bars,
        s.channel("dailyBars"@) == s.daily_bars,
        s.channel("updatedBars"@) == s.updated_bars,
        s.channel("statuses"@) == s.statuses,
        s.channel("lulds"@) == s.lulds,
        s.channel("imbalances"@) == s.imbalances,
        SubscribeView::is_channel_key(key) && s.channel(key).len() > 0 ==> member_of(
            s.command(),
            key,
        ) == Some(string_array(s.channel(key))) && texts_of(string_array(s.channel(key)))
            == s.channel(key),
        SubscribeView::is_channel_key(key) && s.channel(key).len() == 0 ==> member_of(
            s.command(),
            key,
        ) is None,
        member_of(s.command(), key) is Some ==> key == "action"@
            || SubscribeView::is_channel_key(key),
{
    lemma_command_keys_differ();
    assert(texts_of(string_array(s.channel(key))) =~= s.channel(key));
}

impl Subscribe {
    /// A descriptor with no channel.
    pub fn new() -> (r: Self)
        ensures
            r@.trades == Seq::<Seq<char>>::empty(),
            r@.quotes == Seq::<Seq<char>>::empty(),
            r@.bars == Seq::<Seq<char>>::empty(),
            r@.daily_bars == Seq::<Seq<char>>::empty(),
            r@.updated_bars == Seq::<Seq<char>>::empty(),
            r@.statuses == Seq::<Seq<char>>::empty(),
            r@.lulds == Seq::<Seq<char>>::empty(),
            r@.imbalances == Seq::<Seq<char>>::empty(),
    {
        let r = Subscribe {
            trades: Vec::new(),
            quotes: Vec::new(),
            bars: Vec::new(),
            daily_bars: Vec::new(),
            updated_bars: Vec::new(),
            statuses: Vec::new(),
            lulds: Vec::new(),
            imbalances: Vec::new(),
        };
        assert(r@.trades =~= Seq::<Seq<char>>::empty());
        assert(r@.quotes =~= Seq::<Seq<char>>::empty());
        assert(r@.bars =~= Seq::<Seq<char>>::empty());
        assert(r@.daily_bars =~= Seq::<Seq<char>>::empty());
        assert(r@.updated_bars =~= Seq::<Seq<char>>::empty());
        assert(r@.statuses =~= Seq::<Seq<char>>::empty());
        assert(r@.lulds =~= Seq::<Seq<char>>::empty());
        assert(r@.imbalances =~= Seq::<Seq<char>>::empty());
        r
    }

    /// Renders the subscribe command.
    pub fn action_json(&self) -> (r: serde_json::Value)
        ensures
            value_model(r) == self@.command(),
    {
        let mut entries: Vec<(String, serde_json::Value)> = Vec::new();
        let ghost e0 = entry_models(entries@);
        let action = json_string("subscribe".to_owned());
        entries.push(("action".to_owned(), action));
        proof {
            lemma_command_keys_differ();
            assert(e0 =~= Seq::empty());
            assert(object_of(e0) =~= Map::empty());
            lemma_push_entry(e0, "action"@, JsonModel::Str("subscribe"@));
            assert(entry_models(entries@) =~= e0.push(("action"@, JsonModel::Str("subscribe"@))));
        }
        add_channel(&mut entries, "trades", &self.trades);
        add_channel(&mut entries, "quotes", &self.quotes);
        add_channel(&mut entries, "bars", &self.bars);
        add_channel(&mut entries, "dailyBars", &self.daily_bars);
        add_channel(&mut entries, "updatedBars", &self.updated_bars);
        add_channel(&mut entries, "statuses", &self.statuses);
        add_channel(&mut entries, "lulds", &self.lulds);
        add_channel(&mut entries, "imbalances", &self.imbalances);
        assert(object_of(entry_models(entries@)) =~= self@.command()->Object_0);
        json_object(entries)
    }
}

/// The channels that the service confirms, each with its symbols. A channel
/// that the acknowledgement leaves out has none.
#[derive(Debug, Clone)]
pub struct SubscriptionAck {
    /// Symbols whose trades are streamed.
    pub trades: Vec<String>,
    /// Symbols whose quotes are streamed.
    pub quotes: Vec<String>,
    /// Symbols whose minute bars are streamed.
    pub bars: Vec<String>,
    /// Symbols whose daily bars are streamed.
    pub daily_bars: Vec<String>,
    /// Symbols whose corrected bars are streamed.
    pub updated_bars: Vec<String>,
    /// Symbols whose trading statuses are streamed.
    pub statuses: Vec<String>,
    /// Symbols whose price bands are streamed.
    pub lulds: Vec<String>,
    /// Symbols whose order imbalances are streamed.
    pub imbalances: Vec<String>,
    /// Symbols whose trade corrections are streamed.
    pub corrections: Vec<String>,
    /// Symbols whose trade cancellations are streamed.
    pub cancel_errors: Vec<String>,
}

/// The mathematical content of a [`SubscriptionAck`].
pub ghost struct SubscriptionAckView {
    pub trades: Seq<Seq<char>>,
    pub quotes: Seq<Seq<char>>,
    pub bars: Seq<Seq<char>>,
    pub daily_bars: Seq<Seq<char>>,
    pub updated_bars: Seq<Seq<char>>,
    pub statuses: Seq<Seq<char>>,
    pub lulds: Seq<Seq<char>>,
    pub imbalances: Seq<Seq<char>>,
    pub corrections: Seq<Seq<char>>,
    pub cancel_errors: Seq<Seq<char>>,
}

impl View for SubscriptionAck {
    type V = SubscriptionAckView;

    open spec fn view(&self) -> SubscriptionAckView {
        SubscriptionAckView {
            trades: self.trades.deep_view(),
            quotes: self.quotes.deep_view(),
            bars: self.bars.deep_view(),
            daily_bars: self.daily_bars.deep_view(),
            updated_bars: self.updated_bars.deep_view(),
            statuses: self.statuses.deep_view(),
            lulds: self.lulds.deep_view(),
            imbalances: self.imbalances.deep_view(),
            corrections: self.corrections.deep_view(),
            cancel_errors: self.cancel_errors.deep_view(),
        }
    }
}

impl SubscriptionAck {
    /// The first member, in the order of the fields, that is absent or has
    /// the wrong shape; `None` where the object decodes.
    pub open spec fn fault(m: JsonModel) -> Option<DecodeFault> {
        first_fault(
            defaulted_fault(m, "trades"@, Shape::TextList),
            first_fault(
                defaulted_fault(m, "quotes"@, Shape::TextList),
                first_fault(
                    defaulted_fault(m, "bars"@, Shape::TextList),
                    first_fault(
                        defaulted_fault(m, "dailyBars"@, Shape::TextList),
                        first_fault(
                            defaulted_fault(m, "updatedBars"@, Shape::TextList),
                            first_fault(
                                defaulted_fault(m, "statuses"@, Shape::TextList),
                                first_fault(
                                    defaulted_fault(m, "lulds"@, Shape::TextList),
                                    first_fault(
                                        defaulted_fault(m, "imbalances"@, Shape::TextList),
                                        first_fault(
                                            defaulted_fault(m, "corrections"@, Shape::TextList),
                                            defaulted_fault(m, "cancelErrors"@, Shape::TextList),
                                        ),
                                    ),
                                ),
                            ),
                        ),
                    ),
                ),
            ),
        )
    }

    /// What the object decodes to.
    pub open spec fn parsed(m: JsonModel) -> SubscriptionAckView {
        SubscriptionAckView {
            trades: texts_or_empty_at(m, "trades"@),
            quotes: texts_or_empty_at(m, "quotes"@),
            bars: texts_or_empty_at(m, "bars"@),
            daily_bars: texts_or_empty_at(m, "dailyBars"@),
            updated_bars: texts_or_empty_at(m, "updatedBars"@),
            statuses: texts_or_empty_at(m, "statuses"@),
            lulds: texts_or_empty_at(m, "lulds"@),
            imbalances: texts_or_empty_at(m, "imbalances"@),
            corrections: texts_or_empty_at(m, "corrections"@),
            cancel_errors: texts_or_empty_at(m, "cancelErrors"@),
        }
    }

    /// Decodes one wire object.
    pub fn decode(v: &serde_json::Value) -> (r: Result<SubscriptionAck, DecodeError>)
        ensures
            match r {
                Ok(x) => Self::fault(value_model(*v)) is None && x@ == Self::parsed(value_model(*v)),
                Err(e) => Self::fault(value_model(*v)) == Some(e@),
            },
    {
        let trades = read_texts_or_empty(v, "trades")?;
        let quotes = read_texts_or_empty(v, "quotes")?;
        let bars = read_texts_or_empty(v, "bars")?;
        let daily_bars = read_texts_or_empty(v, "dailyBars")?;
        let updated_bars = read_texts_or_empty(v, "updatedBars")?;
        let statuses = read_texts_or_empty(v, "statuses")?;
        let lulds = read_texts_or_empty(v, "lulds")?;
        let imbalances = read_texts_or_empty(v, "imbalances")?;
        let corrections = read_texts_or_empty(v, "corrections")?;
        let cancel_errors = read_texts_or_empty(v, "cancelErrors")?;
        Ok(SubscriptionAck { trades, quotes, bars, daily_bars, updated_bars, statuses, lulds, imbalances, corrections, cancel_errors })
    }
}

/// A control message that reports progress of the handshake.
#[derive(Debug, Clone)]
pub struct SuccessMsg {
    /// What succeeded: `connected` or `authenticated`.
    pub msg: Option<String>,
    /// A numeric code, where the service sends one.
    pub code: Option<i64>,
}

/// The mathematical content of a [`SuccessMsg`].
pub ghost struct SuccessMsgView {
    pub msg: Option<Seq<char>>,
    pub code: Option<i64>,
}

impl View for SuccessMsg {
    type V = SuccessMsgView;

    open spec fn view(&self) -> SuccessMsgView {
        SuccessMsgView {
            msg: self.msg.deep_view(),
            code: self.code,
        }
    }
}

impl SuccessMsg {
    /// The first member, in the order of the fields, that is absent or has
    /// the wrong shape; `None` where the object decodes.
    pub open spec fn fault(m: JsonModel) -> Option<DecodeFault> {
        first_fault(
            optional_fault(m, "msg"@, Shape::Text),
            optional_fault(m, "code"@, Shape::Integer),
        )
    }

    /// What the object decodes to.
    pub open spec fn parsed(m: JsonModel) -> SuccessMsgView {
        SuccessMsgView {
            msg: optional_text_at(m, "msg"@),
            code: optional_integer_at(m, "code"@),
        }
    }

    /// Decodes one wire object.
    pub fn decode(v: &serde_json::Value) -> (r: Result<SuccessMsg, DecodeError>)
        ensures
            match r {
                Ok(x) => Self::fault(value_model(*v)) is None && x@ == Self::parsed(value_model(*v)),
                Err(e) => Self::fault(value_model(*v)) == Some(e@),
            },
    {
        let msg = read_optional_text(v, "msg")?;
        let code = read_optional_integer(v, "code")?;
        Ok(SuccessMsg { msg, code })
    }
}

/// A control message that reports a refusal.
#[derive(Debug, Clone)]
pub struct ErrorMsg {
    /// What went wrong, in words.
    pub msg: Option<String>,
    /// The numeric code of the refusal.
    pub code: Option<i64>,
}

/// The mathematical content of a [`ErrorMsg`].
pub ghost struct ErrorMsgView {
    pub msg: Option<Seq<char>>,
    pub code: Option<i64>,
}

impl View for ErrorMsg {
    type V = ErrorMsgView;

    open spec fn view(&self) -> ErrorMsgView {
        ErrorMsgView {
            msg: self.msg.deep_view(),
            code: self.code,
        }
    }
}

impl ErrorMsg {
    /// The first member, in the order of the fields, that is absent or has
    /// the wrong shape; `None` where the object decodes.
    pub open spec fn fault(m: JsonModel) -> Option<DecodeFault> {
        first_fault(
            optional_fault(m, "msg"@, Shape::Text),
            optional_fault(m, "code"@, Shape::Integer),
        )
    }

    /// What the object decodes to.
    pub open spec fn parsed(m: JsonModel) -> ErrorMsgView {
        ErrorMsgView {
            msg: optional_text_at(m, "msg"@),
            code: optional_integer_at(m, "code"@),
        }
    }

    /// Decodes one wire object.
    pub fn decode(v: &serde_json::Value) -> (r: Result<ErrorMsg, DecodeError>)
        ensures
            match r {
                Ok(x) => Self::fault(value_model(*v)) is None && x@ == Self::parsed(value_model(*v)),
                Err(e) => Self::fault(value_model(*v)) == Some(e@),
            },
    {
        let msg = read_optional_text(v, "msg")?;
        let code = read_optional_integer(v, "code")?;
        Ok(ErrorMsg { msg, code })
    }
}

/// One trade.
#[derive(Debug, Clone)]
pub struct Trade {
    /// The symbol that traded.
    pub symbol: String,
    /// The identifier of the trade.
    pub trade_id: i64,
    /// The code of the exchange where the trade happened.
    pub exchange: String,
    /// The price of the trade.
    pub price: Float64,
    /// The number of shares traded.
    pub size: i64,
    /// The condition codes of the trade.
    pub conditions: Vec<String>,
    /// When the trade happened, in ISO 8601.
    pub timestamp: String,
    /// The tape.
    pub tape: String,
}

/// The mathematical content of a [`Trade`].
pub ghost struct TradeView {
    pub symbol: Seq<char>,
    pub trade_id: i64,
    pub exchange: Seq<char>,
    pub price: u64,
    pub size: i64,
    pub conditions: Seq<Seq<char>>,
    pub timestamp: Seq<char>,
    pub tape: Seq<char>,
}

impl View for Trade {
    type V = TradeView;

    open spec fn view(&self) -> TradeView {
        TradeView {
            symbol: self.symbol@,
            trade_id: self.trade_id,
            exchange: self.exchange@,
            price: self.price.bits,
            size: self.size,
            conditions: self.conditions.deep_view(),
            timestamp: self.timestamp@,
            tape: self.tape@,
        }
    }
}

impl Trade {
    /// The first member, in the order of the fields, that is absent or has
    /// the wrong shape; `None` where the object decodes.
    pub open spec fn fault(m: JsonModel) -> Option<DecodeFault> {
        first_fault(
            required_fault(m, "S"@, Shape::Text),
            first_fault(
                required_fault(m, "i"@, Shape::Integer),
                first_fault(
                    required_fault(m, "x"@, Shape::Text),
                    first_fault(
                        required_fault(m, "p"@, Shape::Float),
                        first_fault(
                            required_fault(m, "s"@, Shape::Integer),
                            first_fault(
                                required_fault(m, "c"@, Shape::TextList),
                                first_fault(
                                    required_fault(m, "t"@, Shape::Text),
                                    required_fault(m, "z"@, Shape::Text),
                                ),
                            ),
                        ),
                    ),
                ),
            ),
        )
    }

    /// What the object decodes to.
    pub open spec fn parsed(m: JsonModel) -> TradeView {
        TradeView {
            symbol: text_at(m, "S"@),
            trade_id: integer_at(m, "i"@),
            exchange: text_at(m, "x"@),
            price: float_at(m, "p"@),
            size: integer_at(m, "s"@),
            conditions: texts_at(m, "c"@),
            timestamp: text_at(m, "t"@),
            tape: text_at(m, "z"@),
        }
    }

    /// Decodes one wire object.
    pub fn decode(v: &serde_json::Value) -> (r: Result<Trade, DecodeError>)
        ensures
            match r {
                Ok(x) => Self::fault(value_model(*v)) is None && x@ == Self::parsed(value_model(*v)),
                Err(e) => Self::fault(value_model(*v)) == Some(e@),
            },
    {
        let symbol = read_text(v, "S")?;
        let trade_id = read_integer(v, "i")?;
        let exchange = read_text(v, "x")?;
        let price = read_float(v, "p")?;
        let size = read_integer(v, "s")?;
        let conditions = read_texts(v, "c")?;
        let timestamp = read_text(v, "t")?;
        let tape = read_text(v, "z")?;
        Ok(Trade { symbol, trade_id, exchange, price, size, conditions, timestamp, tape })
    }
}

/// The best bid and ask of one symbol.
#[derive(Debug, Clone)]
pub struct Quote {
    /// The symbol quoted.
    pub symbol: String,
    /// The code of the exchange of the best ask.
    pub ask_exchange: String,
    /// The best ask.
    pub ask_price: Float64,
    /// The size of the best ask.
    pub ask_size: i64,
    /// The code of the exchange of the best bid.
    pub bid_exchange: String,
    /// The best bid.
    pub bid_price: Float64,
    /// The size of the best bid.
    pub bid_size: i64,
    /// The condition codes of the quote.
    pub conditions: Vec<String>,
    /// When the quote was made, in ISO 8601.
    pub timestamp: String,
    /// The tape.
    pub tape: String,
}

/// The mathematical content of a [`Quote`].
pub ghost struct QuoteView {
    pub symbol: Seq<char>,
    pub ask_exchange: Seq<char>,
    pub ask_price: u64,
    pub ask_size: i64,
    pub bid_exchange: Seq<char>,
    pub bid_price: u64,
    pub bid_size: i64,
    pub conditions: Seq<Seq<char>>,
    pub timestamp: Seq<char>,
    pub tape: Seq<char>,
}

impl View for Quote {
    type V = QuoteView;

    open spec fn view(&self) -> QuoteView {
        QuoteView {
            symbol: self.symbol@,
            ask_exchange: self.ask_exchange@,
            ask_price: self.ask_price.bits,
            ask_size: self.ask_size,
            bid_exchange: self.bid_exchange@,
            bid_price: self.bid_price.bits,
            bid_size: self.bid_size,
            conditions: self.conditions.deep_view(),
            timestamp: self.timestamp@,
            tape: self.tape@,
        }
    }
}

impl Quote {
    /// The first member, in the order of the fields, that is absent or has
    /// the wrong shape; `None` where the object decodes.
    pub open spec fn fault(m: JsonModel) -> Option<DecodeFault> {
        first_fault(
            required_fault(m, "S"@, Shape::Text),
            first_fault(
                required_fault(m, "ax"@, Shape::Text),
                first_fault(
                    required_fault(m, "ap"@, Shape::Float),
                    first_fault(
                        required_fault(m, "as"@, Shape::Integer),
                        first_fault(
                            required_fault(m, "bx"@, Shape::Text),
                            first_fault(
                                required_fault(m, "bp"@, Shape::Float),
                                first_fault(
                                    required_fault(m, "bs"@, Shape::Integer),
                                    first_fault(
                                        required_fault(m, "c"@, Shape::TextList),
                                        first_fault(
                                            required_fault(m, "t"@, Shape::Text),
                                            required_fault(m, "z"@, Shape::Text),
                                        ),
                                    ),
                                ),
                            ),
                        ),
                    ),
                ),
            ),
        )
    }

    /// What the object decodes to.
    pub open spec fn parsed(m: JsonModel) -> QuoteView {
        QuoteView {
            symbol: text_at(m, "S"@),
            ask_exchange: text_at(m, "ax"@),
            ask_price: float_at(m, "ap"@),
            ask_size: integer_at(m, "as"@),
            bid_exchange: text_at(m, "bx"@),
            bid_price: float_at(m, "bp"@),
            bid_size: integer_at(m, "bs"@),
            conditions: texts_at(m, "c"@),
            timestamp: text_at(m, "t"@),
            tape: text_at(m, "z"@),
        }
    }

    /// Decodes one wire object.
    pub fn decode(v: &serde_json::Value) -> (r: Result<Quote, DecodeError>)
        ensures
            match r {
                Ok(x) => Self::fault(value_model(*v)) is None && x@ == Self::parsed(value_model(*v)),
                Err(e) => Self::fault(value_model(*v)) == Some(e@),
            },
    {
        let symbol = read_text(v, "S")?;
        let ask_exchange = read_text(v, "ax")?;
        let ask_price = read_float(v, "ap")?;
        let ask_size = read_integer(v, "as")?;
        let bid_exchange = read_text(v, "bx")?;
        let bid_price = read_float(v, "bp")?;
        let bid_size = read_integer(v, "bs")?;
        let conditions = read_texts(v, "c")?;
        let timestamp = read_text(v, "t")?;
        let tape = read_text(v, "z")?;
        Ok(Quote { symbol, ask_exchange, ask_price, ask_size, bid_exchange, bid_price, bid_size, conditions, timestamp, tape })
    }
}

/// The prices and the volume of one symbol over one interval.
#[derive(Debug, Clone)]
pub struct Bar {
    /// The symbol.
    pub symbol: String,
    /// The first price of the interval.
    pub open: Float64,
    /// The highest price of the interval.
    pub high: Float64,
    /// The lowest price of the interval.
    pub low: Float64,
    /// The last price of the interval.
    pub close: Float64,
    /// The number of shares traded in the interval.
    pub volume: i64,
    /// The average price, weighted by volume.
    pub volume_weighted_avg_price: Float64,
    /// The number of trades in the interval.
    pub number_of_trades: i64,
    /// When the interval began, in ISO 8601.
    pub timestamp: String,
}

/// The mathematical content of a [`Bar`].
pub ghost struct BarView {
    pub symbol: Seq<char>,
    pub open: u64,
    pub high: u64,
    pub low: u64,
    pub close: u64,
    pub volume: i64,
    pub volume_weighted_avg_price: u64,
    pub number_of_trades: i64,
    pub timestamp: Seq<char>,
}

impl View for Bar {
    type V = BarView;

    open spec fn view(&self) -> BarView {
        BarView {
            symbol: self.symbol@,
            open: self.open.bits,
            high: self.high.bits,
            low: self.low.bits,
            close: self.close.bits,
            volume: self.volume,
            volume_weighted_avg_price: self.volume_weighted_avg_price.bits,
            number_of_trades: self.number_of_trades,
            timestamp: self.timestamp@,
        }
    }
}

impl Bar {
    /// The first member, in the order of the fields, that is absent or has
    /// the wrong shape; `None` where the object decodes.
    pub open spec fn fault(m: JsonModel) -> Option<DecodeFault> {
        first_fault(
            required_fault(m, "S"@, Shape::Text),
            first_fault(
                required_fault(m, "o"@, Shape::Float),
                first_fault(
                    required_fault(m, "h"@, Shape::Float),
                    first_fault(
                        required_fault(m, "l"@, Shape::Float),
                        first_fault(
                            required_fault(m, "c"@, Shape::Float),
                            first_fault(
                                required_fault(m, "v"@, Shape::Integer),
                                first_fault(
                                    required_fault(m, "vw"@, Shape::Float),
                                    first_fault(
                                        required_fault(m, "n"@, Shape::Integer),
                                        required_fault(m, "t"@, Shape::Text),
                                    ),
                                ),
                            ),
                        ),
                    ),
                ),
            ),
        )
    }

    /// What the object decodes to.
    pub open spec fn parsed(m: JsonModel) -> BarView {
        BarView {
            symbol: text_at(m, "S"@),
            open: float_at(m, "o"@),
            high: float_at(m, "h"@),
            low: float_at(m, "l"@),
            close: float_at(m, "c"@),
            volume: integer_at(m, "v"@),
            volume_weighted_avg_price: float_at(m, "vw"@),
            number_of_trades: integer_at(m, "n"@),
            timestamp: text_at(m, "t"@),
        }
    }

    /// Decodes one wire object.
    pub fn decode(v: &serde_json::Value) -> (r: Result<Bar, DecodeError>)
        ensures
            match r {
                Ok(x) => Self::fault(value_model(*v)) is None && x@ == Self::parsed(value_model(*v)),
                Err(e) => Self::fault(value_model(*v)) == Some(e@),
            },
    {
        let symbol = read_text(v, "S")?;
        let open = read_float(v, "o")?;
        let high = read_float(v, "h")?;
        let low = read_float(v, "l")?;
        let close = read_float(v, "c")?;
        let volume = read_integer(v, "v")?;
        let volume_weighted_avg_price = read_float(v, "vw")?;
        let number_of_trades = read_integer(v, "n")?;
        let timestamp = read_text(v, "t")?;
        Ok(Bar { symbol, open, high, low, close, volume, volume_weighted_avg_price, number_of_trades, timestamp })
    }
}

/// A trade that was reported wrongly, with what replaces it.
#[derive(Debug, Clone)]
pub struct TradeCorrections {
    /// The symbol.
    pub symbol: String,
    /// The code of the exchange.
    pub exchange_code: String,
    /// The identifier of the trade as first reported.
    pub original_trade_id: String,
    /// The price as first reported.
    pub original_trade_price: Float64,
    /// The size as first reported.
    pub original_trade_size: i64,
    /// The condition codes as first reported.
    pub original_trade_conditions: Vec<String>,
    /// The identifier of the corrected trade.
    pub corrected_trade_id: String,
    /// The corrected price.
    pub corrected_trade_price: Float64,
    /// The corrected size.
    pub corrected_trade_size: i64,
    /// The corrected condition codes.
    pub corrected_trade_conditions: Vec<String>,
    /// When the correction was made, in ISO 8601.
    pub timestamp: String,
    /// The tape.
    pub tape: String,
}

/// The mathematical content of a [`TradeCorrections`].
pub ghost struct TradeCorrectionsView {
    pub symbol: Seq<char>,
    pub exchange_code: Seq<char>,
    pub original_trade_id: Seq<char>,
    pub original_trade_price: u64,
    pub original_trade_size: i64,
    pub original_trade_conditions: Seq<Seq<char>>,
    pub corrected_trade_id: Seq<char>,
    pub corrected_trade_price: u64,
    pub corrected_trade_size: i64,
    pub corrected_trade_conditions: Seq<Seq<char>>,
    pub timestamp: Seq<char>,
    pub tape: Seq<char>,
}

impl View for TradeCorrections {
    type V = TradeCorrectionsView;

    open spec fn view(&self) -> TradeCorrectionsView {
        TradeCorrectionsView {
            symbol: self.symbol@,
            exchange_code: self.exchange_code@,
            original_trade_id: self.original_trade_id@,
            original_trade_price: self.original_trade_price.bits,
            original_trade_size: self.original_trade_size,
            original_trade_conditions: self.original_trade_conditions.deep_view(),
            corrected_trade_id: self.corrected_trade_id@,
            corrected_trade_price: self.corrected_trade_price.bits,
            corrected_trade_size: self.corrected_trade_size,
            corrected_trade_conditions: self.corrected_trade_conditions.deep_view(),
            timestamp: self.timestamp@,
            tape: self.tape@,
        }
    }
}

impl TradeCorrections {
    /// The first member, in the order of the fields, that is absent or has
    /// the wrong shape; `None` where the object decodes.
    pub open spec fn fault(m: JsonModel) -> Option<DecodeFault> {
        first_fault(
            required_fault(m, "S"@, Shape::Text),
            first_fault(
                required_fault(m, "x"@, Shape::Text),
                first_fault(
                    required_fault(m, "oi"@, Shape::Text),
                    first_fault(
                        required_fault(m, "op"@, Shape::Float),
                        first_fault(
                            required_fault(m, "os"@, Shape::Integer),
                            first_fault(
                                required_fault(m, "oc"@, Shape::TextList),
                                first_fault(
                                    required_fault(m, "ci"@, Shape::Text),
                                    first_fault(
                                        required_fault(m, "cp"@, Shape::Float),
                                        first_fault(
                                            required_fault(m, "cs"@, Shape::Integer),
                                            first_fault(
                                                required_fault(m, "cc"@, Shape::TextList),
                                                first_fault(
                                                    required_fault(m, "t"@, Shape::Text),
                                                    required_fault(m, "z"@, Shape::Text),
                                                ),
                                            ),
                                        ),
                                    ),
                                ),
                            ),
                        ),
                    ),
                ),
            ),
        )
    }

    /// What the object decodes to.
    pub open spec fn parsed(m: JsonModel) -> TradeCorrectionsView {
        TradeCorrectionsView {
            symbol: text_at(m, "S"@),
            exchange_code: text_at(m, "x"@),
            original_trade_id: text_at(m, "oi"@),
            original_trade_price: float_at(m, "op"@),
            original_trade_size: integer_at(m, "os"@),
            original_trade_conditions: texts_at(m, "oc"@),
            corrected_trade_id: text_at(m, "ci"@),
            corrected_trade_price: float_at(m, "cp"@),
            corrected_trade_size: integer_at(m, "cs"@),
            corrected_trade_conditions: texts_at(m, "cc"@),
            timestamp: text_at(m, "t"@),
            tape: text_at(m, "z"@),
        }
    }

    /// Decodes one wire object.
    pub fn decode(v: &serde_json::Value) -> (r: Result<TradeCorrections, DecodeError>)
        ensures
            match r {
                Ok(x) => Self::fault(value_model(*v)) is None && x@ == Self::parsed(value_model(*v)),
                Err(e) => Self::fault(value_model(*v)) == Some(e@),
            },
    {
        let symbol = read_text(v, "S")?;
        let exchange_code = read_text(v, "x")?;
        let original_trade_id = read_text(v, "oi")?;
        let original_trade_price = read_float(v, "op")?;
        let original_trade_size = read_integer(v, "os")?;
        let original_trade_conditions = read_texts(v, "oc")?;
        let corrected_trade_id = read_text(v, "ci")?;
        let corrected_trade_price = read_float(v, "cp")?;
        let corrected_trade_size = read_integer(v, "cs")?;
        let corrected_trade_conditions = read_texts(v, "cc")?;
        let timestamp = read_text(v, "t")?;
        let tape = read_text(v, "z")?;
        Ok(TradeCorrections { symbol, exchange_code, original_trade_id, original_trade_price, original_trade_size, original_trade_conditions, corrected_trade_id, corrected_trade_price, corrected_trade_size, corrected_trade_conditions, timestamp, tape })
    }
}

/// A trade that was cancelled or reported in error.
#[derive(Debug, Clone)]
pub struct TradeCancelsAndErrors {
    /// The symbol.
    pub symbol: String,
    /// The identifier of the trade.
    pub trade_id: i64,
    /// The code of the exchange of the trade.
    pub trade_exchange: String,
    /// The price of the trade.
    pub trade_price: Float64,
    /// The size of the trade.
    pub trade_size: i64,
    /// Whether the trade was cancelled or was an error.
    pub action: String,
    /// When the trade was withdrawn, in ISO 8601.
    pub timestamp: String,
    /// The tape.
    pub ape: String,
}

/// The mathematical content of a [`TradeCancelsAndErrors`].
pub ghost struct TradeCancelsAndErrorsView {
    pub symbol: Seq<char>,
    pub trade_id: i64,
    pub trade_exchange: Seq<char>,
    pub trade_price: u64,
    pub trade_size: i64,
    pub action: Seq<char>,
    pub timestamp: Seq<char>,
    pub ape: Seq<char>,
}

impl View for TradeCancelsAndErrors {
    type V = TradeCancelsAndErrorsView;

    open spec fn view(&self) -> TradeCancelsAndErrorsView {
        TradeCancelsAndErrorsView {
            symbol: self.symbol@,
            trade_id: self.trade_id,
            trade_exchange: self.trade_exchange@,
            trade_price: self.trade_price.bits,
            trade_size: self.trade_size,
            action: self.action@,
            timestamp: self.timestamp@,
            ape: self.ape@,
        }
    }
}

impl TradeCancelsAndErrors {
    /// The first member, in the order of the fields, that is absent or has
    /// the wrong shape; `None` where the object decodes.
    pub open spec fn fault(m: JsonModel) -> Option<DecodeFault> {
        first_fault(
            required_fault(m, "S"@, Shape::Text),
            first_fault(
                required_fault(m, "i"@, Shape::Integer),
                first_fault(
                    required_fault(m, "x"@, Shape::Text),
                    first_fault(
                        required_fault(m, "p"@, Shape::Float),
                        first_fault(
                            required_fault(m, "s"@, Shape::Integer),
                            first_fault(
                                required_fault(m, "a"@, Shape::Text),
                                first_fault(
                                    required_fault(m, "t"@, Shape::Text),
                                    required_fault(m, "z"@, Shape::Text),
                                ),
                            ),
                        ),
                    ),
                ),
            ),
        )
    }

    /// What the object decodes to.
    pub open spec fn parsed(m: JsonModel) -> TradeCancelsAndErrorsView {
        TradeCancelsAndErrorsView {
            symbol: text_at(m, "S"@),
            trade_id: integer_at(m, "i"@),
            trade_exchange: text_at(m, "x"@),
            trade_price: float_at(m, "p"@),
            trade_size: integer_at(m, "s"@),
            action: text_at(m, "a"@),
            timestamp: text_at(m, "t"@),
            ape: text_at(m, "z"@),
        }
    }

    /// Decodes one wire object.
    pub fn decode(v: &serde_json::Value) -> (r: Result<TradeCancelsAndErrors, DecodeError>)
        ensures
            match r {
                Ok(x) => Self::fault(value_model(*v)) is None && x@ == Self::parsed(value_model(*v)),
                Err(e) => Self::fault(value_model(*v)) == Some(e@),
            },
    {
        let symbol = read_text(v, "S")?;
        let trade_id = read_integer(v, "i")?;
        let trade_exchange = read_text(v, "x")?;
        let trade_price = read_float(v, "p")?;
        let trade_size = read_integer(v, "s")?;
        let action = read_text(v, "a")?;
        let timestamp = read_text(v, "t")?;
        let ape = read_text(v, "z")?;
        Ok(TradeCancelsAndErrors { symbol, trade_id, trade_exchange, trade_price, trade_size, action, timestamp, ape })
    }
}

/// The band within which a symbol may trade.
#[derive(Debug, Clone)]
pub struct LimitUpLimitDown {
    /// The symbol.
    pub symbol: String,
    /// The upper end of the band.
    pub limit_up_price: Float64,
    /// The lower end of the band.
    pub limit_down_price: Float64,
    /// The indicator of the band.
    pub indicator: String,
    /// When the band was set, in ISO 8601.
    pub timestamp: String,
    /// The tape.
    pub tape: String,
}

/// The mathematical content of a [`LimitUpLimitDown`].
pub ghost struct LimitUpLimitDownView {
    pub symbol: Seq<char>,
    pub limit_up_price: u64,
    pub limit_down_price: u64,
    pub indicator: Seq<char>,
    pub timestamp: Seq<char>,
    pub tape: Seq<char>,
}

impl View for LimitUpLimitDown {
    type V = LimitUpLimitDownView;

    open spec fn view(&self) -> LimitUpLimitDownView {
        LimitUpLimitDownView {
            symbol: self.symbol@,
            limit_up_price: self.limit_up_price.bits,
            limit_down_price: self.limit_down_price.bits,
            indicator: self.indicator@,
            timestamp: self.timestamp@,
            tape: self.tape@,
        }
    }
}

impl LimitUpLimitDown {
    /// The first member, in the order of the fields, that is absent or has
    /// the wrong shape; `None` where the object decodes.
    pub open spec fn fault(m: JsonModel) -> Option<DecodeFault> {
        first_fault(
            required_fault(m, "S"@, Shape::Text),
            first_fault(
                required_fault(m, "u"@, Shape::Float),
                first_fault(
                    required_fault(m, "d"@, Shape::Float),
                    first_fault(
                        required_fault(m, "i"@, Shape::Text),
                        first_fault(
                            required_fault(m, "t"@, Shape::Text),
                            required_fault(m, "z"@, Shape::Text),
                        ),
                    ),
                ),
            ),
        )
    }

    /// What the object decodes to.
    pub open spec fn parsed(m: JsonModel) -> LimitUpLimitDownView {
        LimitUpLimitDownView {
            symbol: text_at(m, "S"@),
            limit_up_price: float_at(m, "u"@),
            limit_down_price: float_at(m, "d"@),
            indicator: text_at(m, "i"@),
            timestamp: text_at(m, "t"@),
            tape: text_at(m, "z"@),
        }
    }

    /// Decodes one wire object.
    pub fn decode(v: &serde_json::Value) -> (r: Result<LimitUpLimitDown, DecodeError>)
        ensures
            match r {
                Ok(x) => Self::fault(value_model(*v)) is None && x@ == Self::parsed(value_model(*v)),
                Err(e) => Self::fault(value_model(*v)) == Some(e@),
            },
    {
        let symbol = read_text(v, "S")?;
        let limit_up_price = read_float(v, "u")?;
        let limit_down_price = read_float(v, "d")?;
        let indicator = read_text(v, "i")?;
        let timestamp = read_text(v, "t")?;
        let tape = read_text(v, "z")?;
        Ok(LimitUpLimitDown { symbol, limit_up_price, limit_down_price, indicator, timestamp, tape })
    }
}

/// Whether, and why, a symbol is halted or trading.
#[derive(Debug, Clone)]
pub struct TradingStatus {
    /// The symbol.
    pub symbol: String,
    /// The code of the status.
    pub status_code: String,
    /// The status in words.
    pub status_message: String,
    /// The code of the reason.
    pub reason_code: String,
    /// The reason in words.
    pub reason_message: String,
    /// When the status began, in ISO 8601.
    pub timestamp: String,
    /// The tape.
    pub tape: String,
}

/// The mathematical content of a [`TradingStatus`].
pub ghost struct TradingStatusView {
    pub symbol: Seq<char>,
    pub status_code: Seq<char>,
    pub status_message: Seq<char>,
    pub reason_code: Seq<char>,
    pub reason_message: Seq<char>,
    pub timestamp: Seq<char>,
    pub tape: Seq<char>,
}

impl View for TradingStatus {
    type V = TradingStatusView;

    open spec fn view(&self) -> TradingStatusView {
        TradingStatusView {
            symbol: self.symbol@,
            status_code: self.status_code@,
            status_message: self.status_message@,
            reason_code: self.reason_code@,
            reason_message: self.reason_message@,
            timestamp: self.timestamp@,
            tape: self.tape@,
        }
    }
}

impl TradingStatus {
    /// The first member, in the order of the fields, that is absent or has
    /// the wrong shape; `None` where the object decodes.
    pub open spec fn fault(m: JsonModel) -> Option<DecodeFault> {
        first_fault(
            required_fault(m, "S"@, Shape::Text),
            first_fault(
                required_fault(m, "sc"@, Shape::Text),
                first_fault(
                    required_fault(m, "sm"@, Shape::Text),
                    first_fault(
                        required_fault(m, "rc"@, Shape::Text),
                        first_fault(
                            required_fault(m, "rm"@, Shape::Text),
                            first_fault(
                                required_fault(m, "t"@, Shape::Text),
                                required_fault(m, "z"@, Shape::Text),
                            ),
                        ),
                    ),
                ),
            ),
        )
    }

    /// What the object decodes to.
    pub open spec fn parsed(m: JsonModel) -> TradingStatusView {
        TradingStatusView {
            symbol: text_at(m, "S"@),
            status_code: text_at(m, "sc"@),
            status_message: text_at(m, "sm"@),
            reason_code: text_at(m, "rc"@),
            reason_message: text_at(m, "rm"@),
            timestamp: text_at(m, "t"@),
            tape: text_at(m, "z"@),
        }
    }

    /// Decodes one wire object.
    pub fn decode(v: &serde_json::Value) -> (r: Result<TradingStatus, DecodeError>)
        ensures
            match r {
                Ok(x) => Self::fault(value_model(*v)) is None && x@ == Self::parsed(value_model(*v)),
                Err(e) => Self::fault(value_model(*v)) == Some(e@),
            },
    {
        let symbol = read_text(v, "S")?;
        let status_code = read_text(v, "sc")?;
        let status_message = read_text(v, "sm")?;
        let reason_code = read_text(v, "rc")?;
        let reason_message = read_text(v, "rm")?;
        let timestamp = read_text(v, "t")?;
        let tape = read_text(v, "z")?;
        Ok(TradingStatus { symbol, status_code, status_message, reason_code, reason_message, timestamp, tape })
    }
}

/// An imbalance of orders during a halt.
#[derive(Debug, Clone)]
pub struct OrderImbalances {
    /// The symbol.
    pub symbol: String,
    /// The price at which the imbalance stands.
    pub price: Float64,
    /// When the imbalance was reported, in ISO 8601.
    pub timestamp: String,
    /// The tape.
    pub tape: String,
}

/// The mathematical content of a [`OrderImbalances`].
pub ghost struct OrderImbalancesView {
    pub symbol: Seq<char>,
    pub price: u64,
    pub timestamp: Seq<char>,
    pub tape: Seq<char>,
}

impl View for OrderImbalances {
    type V = OrderImbalancesView;

    open spec fn view(&self) -> OrderImbalancesView {
        OrderImbalancesView {
            symbol: self.symbol@,
            price: self.price.bits,
            timestamp: self.timestamp@,
            tape: self.tape@,
        }
    }
}

impl OrderImbalances {
    /// The first member, in the order of the fields, that is absent or has
    /// the wrong shape; `None` where the object decodes.
    pub open spec fn fault(m: JsonModel) -> Option<DecodeFault> {
        first_fault(
            required_fault(m, "S"@, Shape::Text),
            first_fault(
                required_fault(m, "p"@, Shape::Float),
                first_fault(
                    required_fault(m, "t"@, Shape::Text),
                    required_fault(m, "z"@, Shape::Text),
                ),
            ),
        )
    }

    /// What the object decodes to.
    pub open spec fn parsed(m: JsonModel) -> OrderImbalancesView {
        OrderImbalancesView {
            symbol: text_at(m, "S"@),
            price: float_at(m, "p"@),
            timestamp: text_at(m, "t"@),
            tape: text_at(m, "z"@),
        }
    }

    /// Decodes one wire object.
    pub fn decode(v: &serde_json::Value) -> (r: Result<OrderImbalances, DecodeError>)
        ensures
            match r {
                Ok(x) => Self::fault(value_model(*v)) is None && x@ == Self::parsed(value_model(*v)),
                Err(e) => Self::fault(value_model(*v)) == Some(e@),
            },
    {
        let symbol = read_text(v, "S")?;
        let price = read_float(v, "p")?;
        let timestamp = read_text(v, "t")?;
        let tape = read_text(v, "z")?;
        Ok(OrderImbalances { symbol, price, timestamp, tape })
    }
}

/// One message of the stock feed. The member `"T"` of the wire object decides
/// the kind; an object with an unknown `"T"` is no message.
#[derive(Debug, Clone)]
pub enum StockMsg {
    /// A trade.
    Trade(Trade),
    /// A quote.
    Quote(Quote),
    /// A minute bar.
    Bar(Bar),
    /// A daily bar.
    DailyBar(Bar),
    /// A minute bar corrected by late trades.
    UpdatedBar(Bar),
    /// A corrected trade.
    TradeCorrections(TradeCorrections),
    /// A withdrawn trade.
    TradeCancelsAndErrors(TradeCancelsAndErrors),
    /// A price band.
    LimitUpLimitDown(LimitUpLimitDown),
    /// A trading status.
    TradingStatus(TradingStatus),
    /// An order imbalance.
    OrderImbalances(OrderImbalances),
    /// The channels now subscribed.
    Subscription(SubscriptionAck),
    /// Progress of the handshake.
    Success(SuccessMsg),
    /// A refusal.
    Error(ErrorMsg),
}

/// The mathematical content of a [`StockMsg`].
pub ghost enum StockMsgView {
    Trade(TradeView),
    Quote(QuoteView),
    Bar(BarView),
    DailyBar(BarView),
    UpdatedBar(BarView),
    TradeCorrections(TradeCorrectionsView),
    TradeCancelsAndErrors(TradeCancelsAndErrorsView),
    LimitUpLimitDown(LimitUpLimitDownView),
    TradingStatus(TradingStatusView),
    OrderImbalances(OrderImbalancesView),
    Subscription(SubscriptionAckView),
    Success(SuccessMsgView),
    Error(ErrorMsgView),
}

impl View for StockMsg {
    type V = StockMsgView;

    open spec fn view(&self) -> StockMsgView {
        match self {
            StockMsg::Trade(x) => StockMsgView::Trade(x@),
            StockMsg::Quote(x) => StockMsgView::Quote(x@),
            StockMsg::Bar(x) => StockMsgView::Bar(x@),
            StockMsg::DailyBar(x) => StockMsgView::DailyBar(x@),
            StockMsg::UpdatedBar(x) => StockMsgView::UpdatedBar(x@),
            StockMsg::TradeCorrections(x) => StockMsgView::TradeCorrections(x@),
            StockMsg::TradeCancelsAndErrors(x) => StockMsgView::TradeCancelsAndErrors(x@),
            StockMsg::LimitUpLimitDown(x) => StockMsgView::LimitUpLimitDown(x@),
            StockMsg::TradingStatus(x) => StockMsgView::TradingStatus(x@),
            StockMsg::OrderImbalances(x) => StockMsgView::OrderImbalances(x@),
            StockMsg::Subscription(x) => StockMsgView::Subscription(x@),
            StockMsg::Success(x) => StockMsgView::Success(x@),
            StockMsg::Error(x) => StockMsgView::Error(x@),
        }
    }
}

impl WireMessage for StockMsg {
    /// The discriminant must be a string that names a kind, and the object
    /// must then decode as that kind.
    open spec fn fault(m: JsonModel) -> Option<DecodeFault> {
        let tag = text_at(m, "T"@);
        if required_fault(m, "T"@, Shape::Text) is Some {
            required_fault(m, "T"@, Shape::Text)
        } else if tag == "t"@ {
            Trade::fault(m)
        } else if tag == "q"@ {
            Quote::fault(m)
        } else if tag == "b"@ {
            Bar::fault(m)
        } else if tag == "d"@ {
            Bar::fault(m)
        } else if tag == "u"@ {
            Bar::fault(m)
        } else if tag == "c"@ {
            TradeCorrections::fault(m)
        } else if tag == "x"@ {
            TradeCancelsAndErrors::fault(m)
        } else if tag == "l"@ {
            LimitUpLimitDown::fault(m)
        } else if tag == "s"@ {
            TradingStatus::fault(m)
        } else if tag == "i"@ {
            OrderImbalances::fault(m)
        } else if tag == "subscription"@ {
            SubscriptionAck::fault(m)
        } else if tag == "success"@ {
            SuccessMsg::fault(m)
        } else if tag == "error"@ {
            ErrorMsg::fault(m)
        } else {
            Some(DecodeFault::UnknownTag(tag))
        }
    }

    open spec fn parsed(m: JsonModel) -> StockMsgView {
        let tag = text_at(m, "T"@);
        if tag == "t"@ {
            StockMsgView::Trade(Trade::parsed(m))
        } else if tag == "q"@ {
            StockMsgView::Quote(Quote::parsed(m))
        } else if tag == "b"@ {
            StockMsgView::Bar(Bar::parsed(m))
        } else if tag == "d"@ {
            StockMsgView::DailyBar(Bar::parsed(m))
        } else if tag == "u"@ {
            StockMsgView::UpdatedBar(Bar::parsed(m))
        } else if tag == "c"@ {
            StockMsgView::TradeCorrections(TradeCorrections::parsed(m))
        } else if tag == "x"@ {
            StockMsgView::TradeCancelsAndErrors(TradeCancelsAndErrors::parsed(m))
        } else if tag == "l"@ {
            StockMsgView::LimitUpLimitDown(LimitUpLimitDown::parsed(m))
        } else if tag == "s"@ {
            StockMsgView::TradingStatus(TradingStatus::parsed(m))
        } else if tag == "i"@ {
            StockMsgView::OrderImbalances(OrderImbalances::parsed(m))
        } else if tag == "subscription"@ {
            StockMsgView::Subscription(SubscriptionAck::parsed(m))
        } else if tag == "success"@ {
            StockMsgView::Success(SuccessMsg::parsed(m))
        } else {
            StockMsgView::Error(ErrorMsg::parsed(m))
        }
    }

    /// A success message greets or accepts, by its text; an error message
    /// refuses; everything else is data.
    open spec fn role_of(x: StockMsgView) -> RoleView {
        match x {
            StockMsgView::Success(s) => if s.msg == Some("connected"@) {
                RoleView::Connected
            } else if s.msg == Some("authenticated"@) {
                RoleView::Authenticated
            } else {
                RoleView::Data
            },
            StockMsgView::Error(e) => RoleView::Rejected(
                RejectionView { code: e.code, msg: e.msg },
            ),
            _ => RoleView::Data,
        }
    }

    fn decode(v: &serde_json::Value) -> (r: Result<StockMsg, DecodeError>) {
        let tag = read_text(v, "T")?;
        if text_eq(tag.as_str(), "t") {
            let x = Trade::decode(v)?;
            Ok(StockMsg::Trade(x))
        } else if text_eq(tag.as_str(), "q") {
            let x = Quote::decode(v)?;
            Ok(StockMsg::Quote(x))
        } else if text_eq(tag.as_str(), "b") {
            let x = Bar::decode(v)?;
            Ok(StockMsg::Bar(x))
        } else if text_eq(tag.as_str(), "d") {
            let x = Bar::decode(v)?;
            Ok(StockMsg::DailyBar(x))
        } else if text_eq(tag.as_str(), "u") {
            let x = Bar::decode(v)?;
            Ok(StockMsg::UpdatedBar(x))
        } else if text_eq(tag.as_str(), "c") {
            let x = TradeCorrections::decode(v)?;
            Ok(StockMsg::TradeCorrections(x))
        } else if text_eq(tag.as_str(), "x") {
            let x = TradeCancelsAndErrors::decode(v)?;
            Ok(StockMsg::TradeCancelsAndErrors(x))
        } else if text_eq(tag.as_str(), "l") {
            let x = LimitUpLimitDown::decode(v)?;
            Ok(StockMsg::LimitUpLimitDown(x))
        } else if text_eq(tag.as_str(), "s") {
            let x = TradingStatus::decode(v)?;
            Ok(StockMsg::TradingStatus(x))
        } else if text_eq(tag.as_str(), "i") {
            let x = OrderImbalances::decode(v)?;
            Ok(StockMsg::OrderImbalances(x))
        } else if text_eq(tag.as_str(), "subscription") {
            let x = SubscriptionAck::decode(v)?;
            Ok(StockMsg::Subscription(x))
        } else if text_eq(tag.as_str(), "success") {
            let x = SuccessMsg::decode(v)?;
            Ok(StockMsg::Success(x))
        } else if text_eq(tag.as_str(), "error") {
            let x = ErrorMsg::decode(v)?;
            Ok(StockMsg::Error(x))
        } else {
            Err(DecodeError::UnknownTag(tag))
        }
    }

    fn role(&self) -> (r: Role) {
        match self {
            StockMsg::Success(s) => match &s.msg {
                Some(text) => if text_eq(text.as_str(), "connected") {
                    Role::Connected
                } else if text_eq(text.as_str(), "authenticated") {
                    Role::Authenticated
                } else {
                    Role::Data
                },
                None => Role::Data,
            },
            StockMsg::Error(e) => Role::Rejected(
                Rejection { code: e.code, msg: copy_optional_text(&e.msg) },
            ),
            _ => Role::Data,
        }
    }
}

/// Where and to what a stock stream connects.
#[derive(Debug)]
pub struct StockStreamParams {
    /// The address of the service.
    pub endpoint: String,
    /// The feed, as a path below the address: `v2/iex`, `v2/sip`,
    /// `v2/delayed_sip`, `v1beta1/boats` or `v1beta1/overnight`.
    pub feed_path: String,
    /// The channels wanted.
    pub subscription: Subscribe,
}

impl StockStreamParams {
    /// The address of the service.
    pub open spec fn default_endpoint() -> Seq<char> {
        "wss://stream.data.alpaca.markets/"@
    }

    /// The feed that needs no paid plan.
    pub open spec fn default_feed_path() -> Seq<char> {
        "v2/iex"@
    }

    /// The address of a feed: the address of the service without the slashes
    /// it ends with, a slash, and the path of the feed.
    pub open spec fn address(endpoint: Seq<char>, feed_path: Seq<char>) -> Seq<char> {
        without_trailing(endpoint, '/') + seq!['/'] + feed_path
    }

    /// Parameters for the default feed of the default service.
    pub fn new(subscription: Subscribe) -> (r: Self)
        ensures
            r.endpoint@ == Self::default_endpoint(),
            r.feed_path@ == Self::default_feed_path(),
            r.subscription == subscription,
    {
        StockStreamParams {
            endpoint: "wss://stream.data.alpaca.markets/".to_owned(),
            feed_path: "v2/iex".to_owned(),
            subscription,
        }
    }

    /// The address to connect to.
    pub fn url(&self) -> (r: String)
        ensures
            r@ == Self::address(self.endpoint@, self.feed_path@),
    {
        let mut url = trim_end(self.endpoint.as_str(), '/').to_owned();
        proof {
            reveal_strlit("/");
            assert("/"@ =~= seq!['/']);
        }
        url.append("/");
        url.append(self.feed_path.as_str());
        url
    }

    /// A session for this feed with the given credentials.
    pub fn session(&self, key: &str, secret: &str) -> (s: Session)
        ensures
            s@ == SessionView::fresh(
                Self::address(self.endpoint@, self.feed_path@),
                json_text(auth_model(key@, secret@)),
                json_text(self.subscription@.command()),
            ),
    {
        Session::open(self.url(), key, secret, &self.subscription.action_json())
    }
}

} // verus!
