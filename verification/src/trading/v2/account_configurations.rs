//! The configuration of an account.
use vstd::prelude::*;

verus! {

/// How an account is set up to trade.
#[derive(Debug, Clone)]
pub struct AccountConfigurations {
    /// When day-trade buying power is checked: `both`, `entry` or `exit`.
    pub dtbp_check: String,
    /// Whether trade confirmations are mailed: `all` or `none`.
    pub trade_confirm_email: Option<String>,
    /// Whether new orders are refused.
    pub suspend_trade: bool,
    /// Whether the account may only go long.
    pub no_shorting: bool,
    /// Whether fractional shares may be traded.
    pub fractional_trading: bool,
    /// The largest margin multiplier: `1`, `2` or `4`.
    pub max_margin_multiplier: String,
    /// The highest options trading level allowed.
    pub max_options_trading_level: Option<i8>,
    /// When pattern-day-trader protection applies.
    pub pdt_check: String,
    /// Whether orders in publicly traded partnerships are refused.
    pub ptp_no_exception_entry: bool,
}

/// The settings of an account that are to change. A field left out stays as
/// it is.
#[derive(Debug, Clone)]
pub struct UpdateAccountConfigurations {
    pub dtbp_check: Option<String>,
    pub trade_confirm_email: Option<String>,
    pub suspend_trade: Option<bool>,
    pub no_shorting: Option<bool>,
    pub fractional_trading: Option<bool>,
    pub max_margin_multiplier: Option<String>,
    pub max_options_trading_level: Option<i8>,
    pub pdt_check: Option<String>,
    pub ptp_no_exception_entry: Option<bool>,
}

impl UpdateAccountConfigurations {
    /// An update that changes nothing.
    pub fn new() -> (r: Self)
        ensures
            (r.dtbp_check is None),
            (r.trade_confirm_email is None),
            (r.suspend_trade is None),
            (r.no_shorting is None),
            (r.fractional_trading is None),
            (r.max_margin_multiplier is None),
            (r.max_options_trading_level is None),
            (r.pdt_check is None),
            (r.ptp_no_exception_entry is None),
    {
        UpdateAccountConfigurations {
            dtbp_check: None,
            trade_confirm_email: None,
            suspend_trade: None,
            no_shorting: None,
            fractional_trading: None,
            max_margin_multiplier: None,
            max_options_trading_level: None,
            pdt_check: None,
            ptp_no_exception_entry: None,
        }
    }
}

} // verus!
