//! The activities of an account: fills and everything else that moves money
//! or shares.
use vstd::prelude::*;

verus! {

/// Which activities of an account are wanted.
#[derive(Debug, Clone)]
pub struct AccountActivitiesParams {
    pub activity_types: Option<Vec<String>>,
    pub category: Option<String>,
    pub date: Option<String>,
    pub until: Option<String>,
    pub after: Option<String>,
    pub direction: Option<String>,
    pub page_size: Option<i32>,
    pub page_token: Option<String>,
}

impl AccountActivitiesParams {
    /// Parameters with every optional field left out.
    pub fn new() -> (r: Self)
        ensures
            (r.activity_types is None),
            (r.category is None),
            (r.date is None),
            (r.until is None),
            (r.after is None),
            (r.direction is None),
            (r.page_size is None),
            (r.page_token is None),
    {
        AccountActivitiesParams {
            activity_types: None,
            category: None,
            date: None,
            until: None,
            after: None,
            direction: None,
            page_size: None,
            page_token: None,
        }
    }
}

/// Which activities of one kind are wanted.
#[derive(Debug, Clone)]
pub struct SpecificAccountActivitiesParams {
    pub date: Option<String>,
    pub until: Option<String>,
    pub after: Option<String>,
    pub direction: Option<String>,
    pub page_size: Option<i32>,
    pub page_token: Option<String>,
}

impl SpecificAccountActivitiesParams {
    /// Parameters with every optional field left out.
    pub fn new() -> (r: Self)
        ensures
            (r.date is None),
            (r.until is None),
            (r.after is None),
            (r.direction is None),
            (r.page_size is None),
            (r.page_token is None),
    {
        SpecificAccountActivitiesParams {
            date: None,
            until: None,
            after: None,
            direction: None,
            page_size: None,
            page_token: None,
        }
    }
}

/// The kinds of activity on an account.
#[derive(Debug, Clone, Copy, PartialEq, Eq)]
pub enum ActivityType {
    Fill,
    Trans,
    Misc,
    Acatc,
    Acats,
    Cfee,
    Csd,
    Csw,
    Div,
    Divcgl,
    Divcgs,
    Divfee,
    Divft,
    Divnra,
    Divroc,
    Divtw,
    Divtxex,
    Fee,
    Int,
    Intnra,
    Inttw,
    Jnl,
    Jnlc,
    Jnls,
    Ma,
    Nc,
    Opasn,
    Opca,
    Opcsh,
    Opexc,
    Opexp,
    Optrd,
    Ptc,
    Ptr,
    Reorg,
    Spin,
    Split,
}

impl ActivityType {
    /// The name of the kind on the wire: its name in capitals.
    pub open spec fn wire_name(self) -> Seq<char> {
        match self {
            ActivityType::Fill => "FILL"@,
            ActivityType::Trans => "TRANS"@,
            ActivityType::Misc => "MISC"@,
            ActivityType::Acatc => "ACATC"@,
            ActivityType::Acats => "ACATS"@,
            ActivityType::Cfee => "CFEE"@,
            ActivityType::Csd => "CSD"@,
            ActivityType::Csw => "CSW"@,
            ActivityType::Div => "DIV"@,
            ActivityType::Divcgl => "DIVCGL"@,
            ActivityType::Divcgs => "DIVCGS"@,
            ActivityType::Divfee => "DIVFEE"@,
            ActivityType::Divft => "DIVFT"@,
            ActivityType::Divnra => "DIVNRA"@,
            ActivityType::Divroc => "DIVROC"@,
            ActivityType::Divtw => "DIVTW"@,
            ActivityType::Divtxex => "DIVTXEX"@,
            ActivityType::Fee => "FEE"@,
            ActivityType::Int => "INT"@,
            ActivityType::Intnra => "INTNRA"@,
            ActivityType::Inttw => "INTTW"@,
            ActivityType::Jnl => "JNL"@,
            ActivityType::Jnlc => "JNLC"@,
            ActivityType::Jnls => "JNLS"@,
            ActivityType::Ma => "MA"@,
            ActivityType::Nc => "NC"@,
            ActivityType::Opasn => "OPASN"@,
            ActivityType::Opca => "OPCA"@,
            ActivityType::Opcsh => "OPCSH"@,
            ActivityType::Opexc => "OPEXC"@,
            ActivityType::Opexp => "OPEXP"@,
            ActivityType::Optrd => "OPTRD"@,
            ActivityType::Ptc => "PTC"@,
            ActivityType::Ptr => "PTR"@,
            ActivityType::Reorg => "REORG"@,
            ActivityType::Spin => "SPIN"@,
            ActivityType::Split => "SPLIT"@,
        }
    }

    /// The name of the kind on the wire.
    pub fn as_str(&self) -> (r: &'static str)
        ensures
            r@ == self.wire_name(),
    {
        match self {
            ActivityType::Fill => "FILL",
            ActivityType::Trans => "TRANS",
            ActivityType::Misc => "MISC",
            ActivityType::Acatc => "ACATC",
            ActivityType::Acats => "ACATS",
            ActivityType::Cfee => "CFEE",
            ActivityType::Csd => "CSD",
            ActivityType::Csw => "CSW",
            ActivityType::Div => "DIV",
            ActivityType::Divcgl => "DIVCGL",
            ActivityType::Divcgs => "DIVCGS",
            ActivityType::Divfee => "DIVFEE",
            ActivityType::Divft => "DIVFT",
            ActivityType::Divnra => "DIVNRA",
            ActivityType::Divroc => "DIVROC",
            ActivityType::Divtw => "DIVTW",
            ActivityType::Divtxex => "DIVTXEX",
            ActivityType::Fee => "FEE",
            ActivityType::Int => "INT",
            ActivityType::Intnra => "INTNRA",
            ActivityType::Inttw => "INTTW",
            ActivityType::Jnl => "JNL",
            ActivityType::Jnlc => "JNLC",
            ActivityType::Jnls => "JNLS",
            ActivityType::Ma => "MA",
            ActivityType::Nc => "NC",
            ActivityType::Opasn => "OPASN",
            ActivityType::Opca => "OPCA",
            ActivityType::Opcsh => "OPCSH",
            ActivityType::Opexc => "OPEXC",
            ActivityType::Opexp => "OPEXP",
            ActivityType::Optrd => "OPTRD",
            ActivityType::Ptc => "PTC",
            ActivityType::Ptr => "PTR",
            ActivityType::Reorg => "REORG",
            ActivityType::Spin => "SPIN",
            ActivityType::Split => "SPLIT",
        }
    }
}

/// The states an order passes through.
#[derive(Debug, Clone, Copy, PartialEq, Eq)]
pub enum OrderStatus {
    New,
    PartiallyFilled,
    Filled,
    DoneForDay,
    Canceled,
    Expired,
    Replaced,
    PendingCancel,
    PendingReplace,
    Accepted,
    PendingNew,
    AcceptedForBidding,
    Stopped,
    Rejected,
    Suspended,
    Calculated,
}

impl OrderStatus {
    /// The name of the state on the wire: its name in small letters, the
    /// words joined by underscores.
    pub open spec fn wire_name(self) -> Seq<char> {
        match self {
            OrderStatus::New => "new"@,
            OrderStatus::PartiallyFilled => "partially_filled"@,
            OrderStatus::Filled => "filled"@,
            OrderStatus::DoneForDay => "done_for_day"@,
            OrderStatus::Canceled => "canceled"@,
            OrderStatus::Expired => "expired"@,
            OrderStatus::Replaced => "replaced"@,
            OrderStatus::PendingCancel => "pending_cancel"@,
            OrderStatus::PendingReplace => "pending_replace"@,
            OrderStatus::Accepted => "accepted"@,
            OrderStatus::PendingNew => "pending_new"@,
            OrderStatus::AcceptedForBidding => "accepted_for_bidding"@,
            OrderStatus::Stopped => "stopped"@,
            OrderStatus::Rejected => "rejected"@,
            OrderStatus::Suspended => "suspended"@,
            OrderStatus::Calculated => "calculated"@,
        }
    }

    /// The name of the state on the wire.
    pub fn as_str(&self) -> (r: &'static str)
        ensures
            r@ == self.wire_name(),
    {
        match self {
            OrderStatus::New => "new",
            OrderStatus::PartiallyFilled => "partially_filled",
            OrderStatus::Filled => "filled",
            OrderStatus::DoneForDay => "done_for_day",
            OrderStatus::Canceled => "canceled",
            OrderStatus::Expired => "expired",
            OrderStatus::Replaced => "replaced",
            OrderStatus::PendingCancel => "pending_cancel",
            OrderStatus::PendingReplace => "pending_replace",
            OrderStatus::Accepted => "accepted",
            OrderStatus::PendingNew => "pending_new",
            OrderStatus::AcceptedForBidding => "accepted_for_bidding",
            OrderStatus::Stopped => "stopped",
            OrderStatus::Rejected => "rejected",
            OrderStatus::Suspended => "suspended",
            OrderStatus::Calculated => "calculated",
        }
    }
}

} // verus!
