//! The order enumerations and their textual names.
//!
//! Each enumeration is stored by name.  `as_str` gives the name of a value;
//! `from_str` reads a name back, ignoring case, and rejects any other text
//! with a message that quotes it.

use vstd::prelude::*;
use crate::text::{ascii_uppercase, invalid_value_message, is_ascii_text, text_equals, uppercase, uppercase_of};

verus! {

/// A name with every underscore replaced by a space.
pub open spec fn spaced(name: Seq<char>) -> Seq<char> {
    name.map_values(|c: char| if c == '_' { ' ' } else { c })
}

/// The side of an order.
#[derive(Debug, PartialEq, Eq, Structural, Clone, Copy)]
pub enum OrderSide {
    Buy,
    Sell,
}

impl OrderSide {
    /// The stored name of the side.
    pub open spec fn name(self) -> Seq<char> {
        match self {
            OrderSide::Buy => "BUY"@,
            OrderSide::Sell => "SELL"@,
        }
    }

    /// The side that the exact text `s` names, if any.
    pub open spec fn named(s: Seq<char>) -> Option<OrderSide> {
        if s == "BUY"@ {
            Some(OrderSide::Buy)
        } else if s == "SELL"@ {
            Some(OrderSide::Sell)
        } else {
            None
        }
    }

    /// The stored name of the side.
    pub fn as_str(&self) -> (r: &'static str)
        ensures
            r@ == self.name(),
    {
        match self {
            OrderSide::Buy => "BUY",
            OrderSide::Sell => "SELL",
        }
    }

    /// The side that the exact text `name` names (no case folding).
    pub fn from_name(name: &str) -> (r: Option<OrderSide>)
        ensures
            r == OrderSide::named(name@),
    {
        if text_equals(name, "BUY") {
            Some(OrderSide::Buy)
        } else if text_equals(name, "SELL") {
            Some(OrderSide::Sell)
        } else {
            None
        }
    }

    /// Reads a side from its name in any case; any other text is rejected
    /// with a message that quotes it.
    pub fn from_str(s: &str) -> (r: Result<OrderSide, String>)
        ensures
            match r {
                Ok(v) => OrderSide::named(uppercase_of(s@)) == Some(v),
                Err(e) => OrderSide::named(uppercase_of(s@)) is None
                    && e@ == "Invalid "@ + "order_side_enum"@ + " value: "@ + s@,
            },
    {
        let upper = uppercase(s);
        match OrderSide::from_name(upper.as_str()) {
            Some(v) => Ok(v),
            None => Err(invalid_value_message("order_side_enum", s)),
        }
    }

    /// Reading back the stored name of a side gives that side.
    pub proof fn lemma_name_round_trip(v: OrderSide)
        ensures
            is_ascii_text(v.name()),
            ascii_uppercase(v.name()) == v.name(),
            OrderSide::named(v.name()) == Some(v),
            OrderSide::named(uppercase_of(v.name())) == Some(v),
    {
        reveal_strlit("BUY");
        reveal_strlit("SELL");
        match v {
            OrderSide::Buy => {
                assert(ascii_uppercase("BUY"@) =~= "BUY"@);
            }
            OrderSide::Sell => {
                assert(ascii_uppercase("SELL"@) =~= "SELL"@);
            }
        }
    }

    /// Any ASCII spelling of the stored name of a side, in any mix of cases,
    /// reads as that side.
    pub proof fn lemma_read_in_any_case(v: OrderSide, s: Seq<char>)
        requires
            is_ascii_text(s),
            ascii_uppercase(s) == v.name(),
        ensures
            OrderSide::named(uppercase_of(s)) == Some(v),
    {
        OrderSide::lemma_name_round_trip(v);
    }

    /// For ASCII text, changing the case of letters changes neither whether
    /// the text is read as a side nor which one.
    pub proof fn lemma_case_does_not_matter(s: Seq<char>, t: Seq<char>)
        requires
            is_ascii_text(s),
            is_ascii_text(t),
            ascii_uppercase(s) == ascii_uppercase(t),
        ensures
            OrderSide::named(uppercase_of(s)) == OrderSide::named(uppercase_of(t)),
    {
    }

    /// The stored names are the labels of the database's `order_side_enum`: each
    /// side has its fixed label, and reading that label gives the side back.
    pub proof fn lemma_stored_labels()
        ensures
            OrderSide::Buy.name() == "BUY"@,
            OrderSide::named("BUY"@) == Some(OrderSide::Buy),
            OrderSide::Sell.name() == "SELL"@,
            OrderSide::named("SELL"@) == Some(OrderSide::Sell),
    {
        OrderSide::lemma_name_round_trip(OrderSide::Buy);
        OrderSide::lemma_name_round_trip(OrderSide::Sell);
    }

    /// Distinct values of OrderSide have distinct stored names.
    pub proof fn lemma_names_distinct(a: OrderSide, b: OrderSide)
        ensures
            a.name() == b.name() ==> a == b,
    {
        OrderSide::lemma_name_round_trip(a);
        OrderSide::lemma_name_round_trip(b);
    }
}

/// How an order is to be executed.
#[derive(Debug, PartialEq, Eq, Structural, Clone, Copy)]
pub enum OrderType {
    Market,
    Limit,
    Stop,
    StopLimit,
    MarketOnClose,
    LimitOnClose,
    Pegged,
    Iceberg,
    Twap,
    Vwap,
    Other,
}

impl OrderType {
    /// The stored name of the order type.
    pub open spec fn name(self) -> Seq<char> {
        match self {
            OrderType::Market => "MARKET"@,
            OrderType::Limit => "LIMIT"@,
            OrderType::Stop => "STOP"@,
            OrderType::StopLimit => "STOP_LIMIT"@,
            OrderType::MarketOnClose => "MARKET_ON_CLOSE"@,
            OrderType::LimitOnClose => "LIMIT_ON_CLOSE"@,
            OrderType::Pegged => "PEGGED"@,
            OrderType::Iceberg => "ICEBERG"@,
            OrderType::Twap => "TWAP"@,
            OrderType::Vwap => "VWAP"@,
            OrderType::Other => "OTHER"@,
        }
    }

    /// The order type that the exact text `s` names, if any.
    pub open spec fn named(s: Seq<char>) -> Option<OrderType> {
        if s == "MARKET"@ {
            Some(OrderType::Market)
        } else if s == "LIMIT"@ {
            Some(OrderType::Limit)
        } else if s == "STOP"@ {
            Some(OrderType::Stop)
        } else if s == "STOP_LIMIT"@ {
            Some(OrderType::StopLimit)
        } else if s == "MARKET_ON_CLOSE"@ {
            Some(OrderType::MarketOnClose)
        } else if s == "LIMIT_ON_CLOSE"@ {
            Some(OrderType::LimitOnClose)
        } else if s == "PEGGED"@ {
            Some(OrderType::Pegged)
        } else if s == "ICEBERG"@ {
            Some(OrderType::Iceberg)
        } else if s == "TWAP"@ {
            Some(OrderType::Twap)
        } else if s == "VWAP"@ {
            Some(OrderType::Vwap)
        } else if s == "OTHER"@ {
            Some(OrderType::Other)
        } else {
            None
        }
    }

    /// The stored name of the order type.
    pub fn as_str(&self) -> (r: &'static str)
        ensures
            r@ == self.name(),
    {
        match self {
            OrderType::Market => "MARKET",
            OrderType::Limit => "LIMIT",
            OrderType::Stop => "STOP",
            OrderType::StopLimit => "STOP_LIMIT",
            OrderType::MarketOnClose => "MARKET_ON_CLOSE",
            OrderType::LimitOnClose => "LIMIT_ON_CLOSE",
            OrderType::Pegged => "PEGGED",
            OrderType::Iceberg => "ICEBERG",
            OrderType::Twap => "TWAP",
            OrderType::Vwap => "VWAP",
            OrderType::Other => "OTHER",
        }
    }

    /// The order type that the exact text `name` names (no case folding).
    pub fn from_name(name: &str) -> (r: Option<OrderType>)
        ensures
            r == OrderType::named(name@),
    {
        if text_equals(name, "MARKET") {
            Some(OrderType::Market)
        } else if text_equals(name, "LIMIT") {
            Some(OrderType::Limit)
        } else if text_equals(name, "STOP") {
            Some(OrderType::Stop)
        } else if text_equals(name, "STOP_LIMIT") {
            Some(OrderType::StopLimit)
        } else if text_equals(name, "MARKET_ON_CLOSE") {
            Some(OrderType::MarketOnClose)
        } else if text_equals(name, "LIMIT_ON_CLOSE") {
            Some(OrderType::LimitOnClose)
        } else if text_equals(name, "PEGGED") {
            Some(OrderType::Pegged)
        } else if text_equals(name, "ICEBERG") {
            Some(OrderType::Iceberg)
        } else if text_equals(name, "TWAP") {
            Some(OrderType::Twap)
        } else if text_equals(name, "VWAP") {
            Some(OrderType::Vwap)
        } else if text_equals(name, "OTHER") {
            Some(OrderType::Other)
        } else {
            None
        }
    }

    /// Reads a order type from its name in any case; any other text is rejected
    /// with a message that quotes it.
    pub fn from_str(s: &str) -> (r: Result<OrderType, String>)
        ensures
            match r {
                Ok(v) => OrderType::named(uppercase_of(s@)) == Some(v),
                Err(e) => OrderType::named(uppercase_of(s@)) is None
                    && e@ == "Invalid "@ + "order_type_enum"@ + " value: "@ + s@,
            },
    {
        let upper = uppercase(s);
        match OrderType::from_name(upper.as_str()) {
            Some(v) => Ok(v),
            None => Err(invalid_value_message("order_type_enum", s)),
        }
    }

    /// Reading back the stored name of a order type gives that order type.
    pub proof fn lemma_name_round_trip(v: OrderType)
        ensures
            is_ascii_text(v.name()),
            ascii_uppercase(v.name()) == v.name(),
            OrderType::named(v.name()) == Some(v),
            OrderType::named(uppercase_of(v.name())) == Some(v),
    {
        reveal_strlit("ICEBERG");
        reveal_strlit("LIMIT");
        reveal_strlit("LIMIT_ON_CLOSE");
        reveal_strlit("MARKET");
        reveal_strlit("MARKET_ON_CLOSE");
        reveal_strlit("OTHER");
        reveal_strlit("PEGGED");
        reveal_strlit("STOP");
        reveal_strlit("STOP_LIMIT");
        reveal_strlit("TWAP");
        reveal_strlit("VWAP");
        match v {
            OrderType::Market => {
                assert(ascii_uppercase("MARKET"@) =~= "MARKET"@);
            }
            OrderType::Limit => {
                assert(ascii_uppercase("LIMIT"@) =~= "LIMIT"@);
            }
            OrderType::Stop => {
                assert(ascii_uppercase("STOP"@) =~= "STOP"@);
            }
            OrderType::StopLimit => {
                assert(ascii_uppercase("STOP_LIMIT"@) =~= "STOP_LIMIT"@);
            }
            OrderType::MarketOnClose => {
                assert(ascii_uppercase("MARKET_ON_CLOSE"@) =~= "MARKET_ON_CLOSE"@);
            }
            OrderType::LimitOnClose => {
                assert(ascii_uppercase("LIMIT_ON_CLOSE"@) =~= "LIMIT_ON_CLOSE"@);
            }
            OrderType::Pegged => {
                assert(ascii_uppercase("PEGGED"@) =~= "PEGGED"@);
                assert("PEGGED"@[0] != "MARKET"@[0]);
            }
            OrderType::Iceberg => {
                assert(ascii_uppercase("ICEBERG"@) =~= "ICEBERG"@);
            }
            OrderType::Twap => {
                assert(ascii_uppercase("TWAP"@) =~= "TWAP"@);
                assert("TWAP"@[0] != "STOP"@[0]);
            }
            OrderType::Vwap => {
                assert(ascii_uppercase("VWAP"@) =~= "VWAP"@);
                assert("VWAP"@[0] != "STOP"@[0]);
                assert("VWAP"@[0] != "TWAP"@[0]);
            }
            OrderType::Other => {
                assert(ascii_uppercase("OTHER"@) =~= "OTHER"@);
                assert("OTHER"@[0] != "LIMIT"@[0]);
            }
        }
    }

    /// Any ASCII spelling of the stored name of a order type, in any mix of cases,
    /// reads as that order type.
    pub proof fn lemma_read_in_any_case(v: OrderType, s: Seq<char>)
        requires
            is_ascii_text(s),
            ascii_uppercase(s) == v.name(),
        ensures
            OrderType::named(uppercase_of(s)) == Some(v),
    {
        OrderType::lemma_name_round_trip(v);
    }

    /// For ASCII text, changing the case of letters changes neither whether
    /// the text is read as a order type nor which one.
    pub proof fn lemma_case_does_not_matter(s: Seq<char>, t: Seq<char>)
        requires
            is_ascii_text(s),
            is_ascii_text(t),
            ascii_uppercase(s) == ascii_uppercase(t),
        ensures
            OrderType::named(uppercase_of(s)) == OrderType::named(uppercase_of(t)),
    {
    }

    /// The stored names are the labels of the database's `order_type_enum`: each
    /// order type has its fixed label, and reading that label gives the order type back.
    pub proof fn lemma_stored_labels()
        ensures
            OrderType::Market.name() == "MARKET"@,
            OrderType::named("MARKET"@) == Some(OrderType::Market),
            OrderType::Limit.name() == "LIMIT"@,
            OrderType::named("LIMIT"@) == Some(OrderType::Limit),
            OrderType::Stop.name() == "STOP"@,
            OrderType::named("STOP"@) == Some(OrderType::Stop),
            OrderType::StopLimit.name() == "STOP_LIMIT"@,
            OrderType::named("STOP_LIMIT"@) == Some(OrderType::StopLimit),
            OrderType::MarketOnClose.name() == "MARKET_ON_CLOSE"@,
            OrderType::named("MARKET_ON_CLOSE"@) == Some(OrderType::MarketOnClose),
            OrderType::LimitOnClose.name() == "LIMIT_ON_CLOSE"@,
            OrderType::named("LIMIT_ON_CLOSE"@) == Some(OrderType::LimitOnClose),
            OrderType::Pegged.name() == "PEGGED"@,
            OrderType::named("PEGGED"@) == Some(OrderType::Pegged),
            OrderType::Iceberg.name() == "ICEBERG"@,
            OrderType::named("ICEBERG"@) == Some(OrderType::Iceberg),
            OrderType::Twap.name() == "TWAP"@,
            OrderType::named("TWAP"@) == Some(OrderType::Twap),
            OrderType::Vwap.name() == "VWAP"@,
            OrderType::named("VWAP"@) == Some(OrderType::Vwap),
            OrderType::Other.name() == "OTHER"@,
            OrderType::named("OTHER"@) == Some(OrderType::Other),
    {
        OrderType::lemma_name_round_trip(OrderType::Market);
        OrderType::lemma_name_round_trip(OrderType::Limit);
        OrderType::lemma_name_round_trip(OrderType::Stop);
        OrderType::lemma_name_round_trip(OrderType::StopLimit);
        OrderType::lemma_name_round_trip(OrderType::MarketOnClose);
        OrderType::lemma_name_round_trip(OrderType::LimitOnClose);
        OrderType::lemma_name_round_trip(OrderType::Pegged);
        OrderType::lemma_name_round_trip(OrderType::Iceberg);
        OrderType::lemma_name_round_trip(OrderType::Twap);
        OrderType::lemma_name_round_trip(OrderType::Vwap);
        OrderType::lemma_name_round_trip(OrderType::Other);
    }

    /// Distinct values of OrderType have distinct stored names.
    pub proof fn lemma_names_distinct(a: OrderType, b: OrderType)
        ensures
            a.name() == b.name() ==> a == b,
    {
        OrderType::lemma_name_round_trip(a);
        OrderType::lemma_name_round_trip(b);
    }
}

/// How long an order stays working.
#[derive(Debug, PartialEq, Eq, Structural, Clone, Copy)]
pub enum TimeInForce {
    Day,
    Gtc,
    Ioc,
    Fok,
}

impl TimeInForce {
    /// The stored name of the time in force.
    pub open spec fn name(self) -> Seq<char> {
        match self {
            TimeInForce::Day => "DAY"@,
            TimeInForce::Gtc => "GTC"@,
            TimeInForce::Ioc => "IOC"@,
            TimeInForce::Fok => "FOK"@,
        }
    }

    /// The time in force that the exact text `s` names, if any.
    pub open spec fn named(s: Seq<char>) -> Option<TimeInForce> {
        if s == "DAY"@ {
            Some(TimeInForce::Day)
        } else if s == "GTC"@ {
            Some(TimeInForce::Gtc)
        } else if s == "IOC"@ {
            Some(TimeInForce::Ioc)
        } else if s == "FOK"@ {
            Some(TimeInForce::Fok)
        } else {
            None
        }
    }

    /// The stored name of the time in force.
    pub fn as_str(&self) -> (r: &'static str)
        ensures
            r@ == self.name(),
    {
        match self {
            TimeInForce::Day => "DAY",
            TimeInForce::Gtc => "GTC",
            TimeInForce::Ioc => "IOC",
            TimeInForce::Fok => "FOK",
        }
    }

    /// The time in force that the exact text `name` names (no case folding).
    pub fn from_name(name: &str) -> (r: Option<TimeInForce>)
        ensures
            r == TimeInForce::named(name@),
    {
        if text_equals(name, "DAY") {
            Some(TimeInForce::Day)
        } else if text_equals(name, "GTC") {
            Some(TimeInForce::Gtc)
        } else if text_equals(name, "IOC") {
            Some(TimeInForce::Ioc)
        } else if text_equals(name, "FOK") {
            Some(TimeInForce::Fok)
        } else {
            None
        }
    }

    /// Reads a time in force from its name in any case; any other text is rejected
    /// with a message that quotes it.
    pub fn from_str(s: &str) -> (r: Result<TimeInForce, String>)
        ensures
            match r {
                Ok(v) => TimeInForce::named(uppercase_of(s@)) == Some(v),
                Err(e) => TimeInForce::named(uppercase_of(s@)) is None
                    && e@ == "Invalid "@ + "time_in_force_enum"@ + " value: "@ + s@,
            },
    {
        let upper = uppercase(s);
        match TimeInForce::from_name(upper.as_str()) {
            Some(v) => Ok(v),
            None => Err(invalid_value_message("time_in_force_enum", s)),
        }
    }

    /// Reading back the stored name of a time in force gives that time in force.
    pub proof fn lemma_name_round_trip(v: TimeInForce)
        ensures
            is_ascii_text(v.name()),
            ascii_uppercase(v.name()) == v.name(),
            TimeInForce::named(v.name()) == Some(v),
            TimeInForce::named(uppercase_of(v.name())) == Some(v),
    {
        reveal_strlit("DAY");
        reveal_strlit("FOK");
        reveal_strlit("GTC");
        reveal_strlit("IOC");
        match v {
            TimeInForce::Day => {
                assert(ascii_uppercase("DAY"@) =~= "DAY"@);
            }
            TimeInForce::Gtc => {
                assert(ascii_uppercase("GTC"@) =~= "GTC"@);
                assert("GTC"@[0] != "DAY"@[0]);
            }
            TimeInForce::Ioc => {
                assert(ascii_uppercase("IOC"@) =~= "IOC"@);
                assert("IOC"@[0] != "DAY"@[0]);
                assert("IOC"@[0] != "GTC"@[0]);
            }
            TimeInForce::Fok => {
                assert(ascii_uppercase("FOK"@) =~= "FOK"@);
                assert("FOK"@[0] != "DAY"@[0]);
                assert("FOK"@[0] != "GTC"@[0]);
                assert("FOK"@[0] != "IOC"@[0]);
            }
        }
    }

    /// Any ASCII spelling of the stored name of a time in force, in any mix of cases,
    /// reads as that time in force.
    pub proof fn lemma_read_in_any_case(v: TimeInForce, s: Seq<char>)
        requires
            is_ascii_text(s),
            ascii_uppercase(s) == v.name(),
        ensures
            TimeInForce::named(uppercase_of(s)) == Some(v),
    {
        TimeInForce::lemma_name_round_trip(v);
    }

    /// For ASCII text, changing the case of letters changes neither whether
    /// the text is read as a time in force nor which one.
    pub proof fn lemma_case_does_not_matter(s: Seq<char>, t: Seq<char>)
        requires
            is_ascii_text(s),
            is_ascii_text(t),
            ascii_uppercase(s) == ascii_uppercase(t),
        ensures
            TimeInForce::named(uppercase_of(s)) == TimeInForce::named(uppercase_of(t)),
    {
    }

    /// The stored names are the labels of the database's `time_in_force_enum`: each
    /// time in force has its fixed label, and reading that label gives the time in force back.
    pub proof fn lemma_stored_labels()
        ensures
            TimeInForce::Day.name() == "DAY"@,
            TimeInForce::named("DAY"@) == Some(TimeInForce::Day),
            TimeInForce::Gtc.name() == "GTC"@,
            TimeInForce::named("GTC"@) == Some(TimeInForce::Gtc),
            TimeInForce::Ioc.name() == "IOC"@,
            TimeInForce::named("IOC"@) == Some(TimeInForce::Ioc),
            TimeInForce::Fok.name() == "FOK"@,
            TimeInForce::named("FOK"@) == Some(TimeInForce::Fok),
    {
        TimeInForce::lemma_name_round_trip(TimeInForce::Day);
        TimeInForce::lemma_name_round_trip(TimeInForce::Gtc);
        TimeInForce::lemma_name_round_trip(TimeInForce::Ioc);
        TimeInForce::lemma_name_round_trip(TimeInForce::Fok);
    }

    /// Distinct values of TimeInForce have distinct stored names.
    pub proof fn lemma_names_distinct(a: TimeInForce, b: TimeInForce)
        ensures
            a.name() == b.name() ==> a == b,
    {
        TimeInForce::lemma_name_round_trip(a);
        TimeInForce::lemma_name_round_trip(b);
    }
}

/// The life-cycle state of an order.
#[derive(Debug, PartialEq, Eq, Structural, Clone, Copy)]
pub enum OrderStatus {
    New,
    PartialFill,
    Fill,
    DoneForDay,
    Canceled,
    Replaced,
    PendingCancel,
    Stopped,
    Rejected,
    Suspended,
    PendingNew,
    Calculated,
    Expired,
    Restated,
    PendingReplace,
    Trade,
    TradeCorrect,
    PendingValidation,
    Accepted,
}

impl OrderStatus {
    /// The stored name of the status.
    pub open spec fn name(self) -> Seq<char> {
        match self {
            OrderStatus::New => "NEW"@,
            OrderStatus::PartialFill => "PARTIAL_FILL"@,
            OrderStatus::Fill => "FILL"@,
            OrderStatus::DoneForDay => "DONE_FOR_DAY"@,
            OrderStatus::Canceled => "CANCELED"@,
            OrderStatus::Replaced => "REPLACED"@,
            OrderStatus::PendingCancel => "PENDING_CANCEL"@,
            OrderStatus::Stopped => "STOPPED"@,
            OrderStatus::Rejected => "REJECTED"@,
            OrderStatus::Suspended => "SUSPENDED"@,
            OrderStatus::PendingNew => "PENDING_NEW"@,
            OrderStatus::Calculated => "CALCULATED"@,
            OrderStatus::Expired => "EXPIRED"@,
            OrderStatus::Restated => "RESTATED"@,
            OrderStatus::PendingReplace => "PENDING_REPLACE"@,
            OrderStatus::Trade => "TRADE"@,
            OrderStatus::TradeCorrect => "TRADE_CORRECT"@,
            OrderStatus::PendingValidation => "PENDING_VALIDATION"@,
            OrderStatus::Accepted => "ACCEPTED"@,
        }
    }

    /// The status that the exact text `s` names, if any (a stored name, or the
    /// same name with spaces in place of underscores where the name has them).
    pub open spec fn named(s: Seq<char>) -> Option<OrderStatus> {
        if s == "NEW"@ {
            Some(OrderStatus::New)
        } else if s == "PARTIAL_FILL"@ || s == "PARTIAL FILL"@ {
            Some(OrderStatus::PartialFill)
        } else if s == "FILL"@ {
            Some(OrderStatus::Fill)
        } else if s == "DONE_FOR_DAY"@ || s == "DONE FOR DAY"@ {
            Some(OrderStatus::DoneForDay)
        } else if s == "CANCELED"@ {
            Some(OrderStatus::Canceled)
        } else if s == "REPLACED"@ {
            Some(OrderStatus::Replaced)
        } else if s == "PENDING_CANCEL"@ || s == "PENDING CANCEL"@ {
            Some(OrderStatus::PendingCancel)
        } else if s == "STOPPED"@ {
            Some(OrderStatus::Stopped)
        } else if s == "REJECTED"@ {
            Some(OrderStatus::Rejected)
        } else if s == "SUSPENDED"@ {
            Some(OrderStatus::Suspended)
        } else if s == "PENDING_NEW"@ || s == "PENDING NEW"@ {
            Some(OrderStatus::PendingNew)
        } else if s == "CALCULATED"@ {
            Some(OrderStatus::Calculated)
        } else if s == "EXPIRED"@ {
            Some(OrderStatus::Expired)
        } else if s == "RESTATED"@ {
            Some(OrderStatus::Restated)
        } else if s == "PENDING_REPLACE"@ || s == "PENDING REPLACE"@ {
            Some(OrderStatus::PendingReplace)
        } else if s == "TRADE"@ {
            Some(OrderStatus::Trade)
        } else if s == "TRADE_CORRECT"@ || s == "TRADE CORRECT"@ {
            Some(OrderStatus::TradeCorrect)
        } else if s == "PENDING_VALIDATION"@ {
            Some(OrderStatus::PendingValidation)
        } else if s == "ACCEPTED"@ {
            Some(OrderStatus::Accepted)
        } else {
            None
        }
    }

    /// The stored name of the status.
    pub fn as_str(&self) -> (r: &'static str)
        ensures
            r@ == self.name(),
    {
        match self {
            OrderStatus::New => "NEW",
            OrderStatus::PartialFill => "PARTIAL_FILL",
            OrderStatus::Fill => "FILL",
            OrderStatus::DoneForDay => "DONE_FOR_DAY",
            OrderStatus::Canceled => "CANCELED",
            OrderStatus::Replaced => "REPLACED",
            OrderStatus::PendingCancel => "PENDING_CANCEL",
            OrderStatus::Stopped => "STOPPED",
            OrderStatus::Rejected => "REJECTED",
            OrderStatus::Suspended => "SUSPENDED",
            OrderStatus::PendingNew => "PENDING_NEW",
            OrderStatus::Calculated => "CALCULATED",
            OrderStatus::Expired => "EXPIRED",
            OrderStatus::Restated => "RESTATED",
            OrderStatus::PendingReplace => "PENDING_REPLACE",
            OrderStatus::Trade => "TRADE",
            OrderStatus::TradeCorrect => "TRADE_CORRECT",
            OrderStatus::PendingValidation => "PENDING_VALIDATION",
            OrderStatus::Accepted => "ACCEPTED",
        }
    }

    /// The status that the exact text `name` names (no case folding).
    pub fn from_name(name: &str) -> (r: Option<OrderStatus>)
        ensures
            r == OrderStatus::named(name@),
    {
        if text_equals(name, "NEW") {
            Some(OrderStatus::New)
        } else if text_equals(name, "PARTIAL_FILL") || text_equals(name, "PARTIAL FILL") {
            Some(OrderStatus::PartialFill)
        } else if text_equals(name, "FILL") {
            Some(OrderStatus::Fill)
        } else if text_equals(name, "DONE_FOR_DAY") || text_equals(name, "DONE FOR DAY") {
            Some(OrderStatus::DoneForDay)
        } else if text_equals(name, "CANCELED") {
            Some(OrderStatus::Canceled)
        } else if text_equals(name, "REPLACED") {
            Some(OrderStatus::Replaced)
        } else if text_equals(name, "PENDING_CANCEL") || text_equals(name, "PENDING CANCEL") {
            Some(OrderStatus::PendingCancel)
        } else if text_equals(name, "STOPPED") {
            Some(OrderStatus::Stopped)
        } else if text_equals(name, "REJECTED") {
            Some(OrderStatus::Rejected)
        } else if text_equals(name, "SUSPENDED") {
            Some(OrderStatus::Suspended)
        } else if text_equals(name, "PENDING_NEW") || text_equals(name, "PENDING NEW") {
            Some(OrderStatus::PendingNew)
        } else if text_equals(name, "CALCULATED") {
            Some(OrderStatus::Calculated)
        } else if text_equals(name, "EXPIRED") {
            Some(OrderStatus::Expired)
        } else if text_equals(name, "RESTATED") {
            Some(OrderStatus::Restated)
        } else if text_equals(name, "PENDING_REPLACE") || text_equals(name, "PENDING REPLACE") {
            Some(OrderStatus::PendingReplace)
        } else if text_equals(name, "TRADE") {
            Some(OrderStatus::Trade)
        } else if text_equals(name, "TRADE_CORRECT") || text_equals(name, "TRADE CORRECT") {
            Some(OrderStatus::TradeCorrect)
        } else if text_equals(name, "PENDING_VALIDATION") {
            Some(OrderStatus::PendingValidation)
        } else if text_equals(name, "ACCEPTED") {
            Some(OrderStatus::Accepted)
        } else {
            None
        }
    }

    /// Reads a status from its name in any case; any other text is rejected
    /// with a message that quotes it.
    pub fn from_str(s: &str) -> (r: Result<OrderStatus, String>)
        ensures
            match r {
                Ok(v) => OrderStatus::named(uppercase_of(s@)) == Some(v),
                Err(e) => OrderStatus::named(uppercase_of(s@)) is None
                    && e@ == "Invalid "@ + "order_status_enum"@ + " value: "@ + s@,
            },
    {
        let upper = uppercase(s);
        match OrderStatus::from_name(upper.as_str()) {
            Some(v) => Ok(v),
            None => Err(invalid_value_message("order_status_enum", s)),
        }
    }

    /// Reading back the stored name of a status gives that status.
    pub proof fn lemma_name_round_trip(v: OrderStatus)
        ensures
            is_ascii_text(v.name()),
            ascii_uppercase(v.name()) == v.name(),
            OrderStatus::named(v.name()) == Some(v),
            OrderStatus::named(uppercase_of(v.name())) == Some(v),
    {
        reveal_strlit("ACCEPTED");
        reveal_strlit("CALCULATED");
        reveal_strlit("CANCELED");
        reveal_strlit("DONE FOR DAY");
        reveal_strlit("DONE_FOR_DAY");
        reveal_strlit("EXPIRED");
        reveal_strlit("FILL");
        reveal_strlit("NEW");
        reveal_strlit("PARTIAL FILL");
        reveal_strlit("PARTIAL_FILL");
        reveal_strlit("PENDING CANCEL");
        reveal_strlit("PENDING NEW");
        reveal_strlit("PENDING REPLACE");
        reveal_strlit("PENDING_CANCEL");
        reveal_strlit("PENDING_NEW");
        reveal_strlit("PENDING_REPLACE");
        reveal_strlit("PENDING_VALIDATION");
        reveal_strlit("REJECTED");
        reveal_strlit("REPLACED");
        reveal_strlit("RESTATED");
        reveal_strlit("STOPPED");
        reveal_strlit("SUSPENDED");
        reveal_strlit("TRADE");
        reveal_strlit("TRADE CORRECT");
        reveal_strlit("TRADE_CORRECT");
        match v {
            OrderStatus::New => {
                assert(ascii_uppercase("NEW"@) =~= "NEW"@);
            }
            OrderStatus::PartialFill => {
                assert(ascii_uppercase("PARTIAL_FILL"@) =~= "PARTIAL_FILL"@);
            }
            OrderStatus::Fill => {
                assert(ascii_uppercase("FILL"@) =~= "FILL"@);
            }
            OrderStatus::DoneForDay => {
                assert(ascii_uppercase("DONE_FOR_DAY"@) =~= "DONE_FOR_DAY"@);
                assert("DONE_FOR_DAY"@[0] != "PARTIAL_FILL"@[0]);
                assert("DONE_FOR_DAY"@[0] != "PARTIAL FILL"@[0]);
            }
            OrderStatus::Canceled => {
                assert(ascii_uppercase("CANCELED"@) =~= "CANCELED"@);
            }
            OrderStatus::Replaced => {
                assert(ascii_uppercase("REPLACED"@) =~= "REPLACED"@);
                assert("REPLACED"@[0] != "CANCELED"@[0]);
            }
            OrderStatus::PendingCancel => {
                assert(ascii_uppercase("PENDING_CANCEL"@) =~= "PENDING_CANCEL"@);
            }
            OrderStatus::Stopped => {
                assert(ascii_uppercase("STOPPED"@) =~= "STOPPED"@);
            }
            OrderStatus::Rejected => {
                assert(ascii_uppercase("REJECTED"@) =~= "REJECTED"@);
                assert("REJECTED"@[0] != "CANCELED"@[0]);
                assert("REJECTED"@[2] != "REPLACED"@[2]);
            }
            OrderStatus::Suspended => {
                assert(ascii_uppercase("SUSPENDED"@) =~= "SUSPENDED"@);
            }
            OrderStatus::PendingNew => {
                assert(ascii_uppercase("PENDING_NEW"@) =~= "PENDING_NEW"@);
            }
            OrderStatus::Calculated => {
                assert(ascii_uppercase("CALCULATED"@) =~= "CALCULATED"@);
            }
            OrderStatus::Expired => {
                assert(ascii_uppercase("EXPIRED"@) =~= "EXPIRED"@);
                assert("EXPIRED"@[0] != "STOPPED"@[0]);
            }
            OrderStatus::Restated => {
                assert(ascii_uppercase("RESTATED"@) =~= "RESTATED"@);
                assert("RESTATED"@[0] != "CANCELED"@[0]);
                assert("RESTATED"@[2] != "REPLACED"@[2]);
                assert("RESTATED"@[2] != "REJECTED"@[2]);
            }
            OrderStatus::PendingReplace => {
                assert(ascii_uppercase("PENDING_REPLACE"@) =~= "PENDING_REPLACE"@);
            }
            OrderStatus::Trade => {
                assert(ascii_uppercase("TRADE"@) =~= "TRADE"@);
            }
            OrderStatus::TradeCorrect => {
                assert(ascii_uppercase("TRADE_CORRECT"@) =~= "TRADE_CORRECT"@);
            }
            OrderStatus::PendingValidation => {
                assert(ascii_uppercase("PENDING_VALIDATION"@) =~= "PENDING_VALIDATION"@);
            }
            OrderStatus::Accepted => {
                assert(ascii_uppercase("ACCEPTED"@) =~= "ACCEPTED"@);
                assert("ACCEPTED"@[0] != "CANCELED"@[0]);
                assert("ACCEPTED"@[0] != "REPLACED"@[0]);
                assert("ACCEPTED"@[0] != "REJECTED"@[0]);
                assert("ACCEPTED"@[0] != "RESTATED"@[0]);
            }
        }
    }

    /// Any ASCII spelling of the stored name of a status, in any mix of cases,
    /// reads as that status.
    pub proof fn lemma_read_in_any_case(v: OrderStatus, s: Seq<char>)
        requires
            is_ascii_text(s),
            ascii_uppercase(s) == v.name(),
        ensures
            OrderStatus::named(uppercase_of(s)) == Some(v),
    {
        OrderStatus::lemma_name_round_trip(v);
    }

    /// For ASCII text, changing the case of letters changes neither whether
    /// the text is read as a status nor which one.
    pub proof fn lemma_case_does_not_matter(s: Seq<char>, t: Seq<char>)
        requires
            is_ascii_text(s),
            is_ascii_text(t),
            ascii_uppercase(s) == ascii_uppercase(t),
        ensures
            OrderStatus::named(uppercase_of(s)) == OrderStatus::named(uppercase_of(t)),
    {
    }

    /// Every text that names a status is its stored name, or that name with
    /// spaces in place of its underscores.
    pub proof fn lemma_accepted_spellings(u: Seq<char>)
        ensures
            OrderStatus::named(u) matches Some(y) ==> (u == y.name() || u == spaced(y.name())),
    {
        reveal_strlit("DONE FOR DAY");
        reveal_strlit("DONE_FOR_DAY");
        assert(spaced("DONE_FOR_DAY"@) =~= "DONE FOR DAY"@);
        reveal_strlit("PARTIAL FILL");
        reveal_strlit("PARTIAL_FILL");
        assert(spaced("PARTIAL_FILL"@) =~= "PARTIAL FILL"@);
        reveal_strlit("PENDING CANCEL");
        reveal_strlit("PENDING_CANCEL");
        assert(spaced("PENDING_CANCEL"@) =~= "PENDING CANCEL"@);
        reveal_strlit("PENDING NEW");
        reveal_strlit("PENDING_NEW");
        assert(spaced("PENDING_NEW"@) =~= "PENDING NEW"@);
        reveal_strlit("PENDING REPLACE");
        reveal_strlit("PENDING_REPLACE");
        assert(spaced("PENDING_REPLACE"@) =~= "PENDING REPLACE"@);
        reveal_strlit("TRADE CORRECT");
        reveal_strlit("TRADE_CORRECT");
        assert(spaced("TRADE_CORRECT"@) =~= "TRADE CORRECT"@);
    }

    /// The stored names are the labels of the database's `order_status_enum`: each
    /// status has its fixed label, and reading that label gives the status back.
    pub proof fn lemma_stored_labels()
        ensures
            OrderStatus::New.name() == "NEW"@,
            OrderStatus::named("NEW"@) == Some(OrderStatus::New),
            OrderStatus::PartialFill.name() == "PARTIAL_FILL"@,
            OrderStatus::named("PARTIAL_FILL"@) == Some(OrderStatus::PartialFill),
            OrderStatus::Fill.name() == "FILL"@,
            OrderStatus::named("FILL"@) == Some(OrderStatus::Fill),
            OrderStatus::DoneForDay.name() == "DONE_FOR_DAY"@,
            OrderStatus::named("DONE_FOR_DAY"@) == Some(OrderStatus::DoneForDay),
            OrderStatus::Canceled.name() == "CANCELED"@,
            OrderStatus::named("CANCELED"@) == Some(OrderStatus::Canceled),
            OrderStatus::Replaced.name() == "REPLACED"@,
            OrderStatus::named("REPLACED"@) == Some(OrderStatus::Replaced),
            OrderStatus::PendingCancel.name() == "PENDING_CANCEL"@,
            OrderStatus::named("PENDING_CANCEL"@) == Some(OrderStatus::PendingCancel),
            OrderStatus::Stopped.name() == "STOPPED"@,
            OrderStatus::named("STOPPED"@) == Some(OrderStatus::Stopped),
            OrderStatus::Rejected.name() == "REJECTED"@,
            OrderStatus::named("REJECTED"@) == Some(OrderStatus::Rejected),
            OrderStatus::Suspended.name() == "SUSPENDED"@,
            OrderStatus::named("SUSPENDED"@) == Some(OrderStatus::Suspended),
            OrderStatus::PendingNew.name() == "PENDING_NEW"@,
            OrderStatus::named("PENDING_NEW"@) == Some(OrderStatus::PendingNew),
            OrderStatus::Calculated.name() == "CALCULATED"@,
            OrderStatus::named("CALCULATED"@) == Some(OrderStatus::Calculated),
            OrderStatus::Expired.name() == "EXPIRED"@,
            OrderStatus::named("EXPIRED"@) == Some(OrderStatus::Expired),
            OrderStatus::Restated.name() == "RESTATED"@,
            OrderStatus::named("RESTATED"@) == Some(OrderStatus::Restated),
            OrderStatus::PendingReplace.name() == "PENDING_REPLACE"@,
            OrderStatus::named("PENDING_REPLACE"@) == Some(OrderStatus::PendingReplace),
            OrderStatus::Trade.name() == "TRADE"@,
            OrderStatus::named("TRADE"@) == Some(OrderStatus::Trade),
            OrderStatus::TradeCorrect.name() == "TRADE_CORRECT"@,
            OrderStatus::named("TRADE_CORRECT"@) == Some(OrderStatus::TradeCorrect),
            OrderStatus::PendingValidation.name() == "PENDING_VALIDATION"@,
            OrderStatus::named("PENDING_VALIDATION"@) == Some(OrderStatus::PendingValidation),
            OrderStatus::Accepted.name() == "ACCEPTED"@,
            OrderStatus::named("ACCEPTED"@) == Some(OrderStatus::Accepted),
            OrderStatus::named("PARTIAL FILL"@) == Some(OrderStatus::PartialFill),
            OrderStatus::named("DONE FOR DAY"@) == Some(OrderStatus::DoneForDay),
            OrderStatus::named("PENDING CANCEL"@) == Some(OrderStatus::PendingCancel),
            OrderStatus::named("PENDING NEW"@) == Some(OrderStatus::PendingNew),
            OrderStatus::named("PENDING REPLACE"@) == Some(OrderStatus::PendingReplace),
            OrderStatus::named("TRADE CORRECT"@) == Some(OrderStatus::TradeCorrect),
    {
        OrderStatus::lemma_name_round_trip(OrderStatus::New);
        OrderStatus::lemma_name_round_trip(OrderStatus::PartialFill);
        OrderStatus::lemma_name_round_trip(OrderStatus::Fill);
        OrderStatus::lemma_name_round_trip(OrderStatus::DoneForDay);
        OrderStatus::lemma_name_round_trip(OrderStatus::Canceled);
        OrderStatus::lemma_name_round_trip(OrderStatus::Replaced);
        OrderStatus::lemma_name_round_trip(OrderStatus::PendingCancel);
        OrderStatus::lemma_name_round_trip(OrderStatus::Stopped);
        OrderStatus::lemma_name_round_trip(OrderStatus::Rejected);
        OrderStatus::lemma_name_round_trip(OrderStatus::Suspended);
        OrderStatus::lemma_name_round_trip(OrderStatus::PendingNew);
        OrderStatus::lemma_name_round_trip(OrderStatus::Calculated);
        OrderStatus::lemma_name_round_trip(OrderStatus::Expired);
        OrderStatus::lemma_name_round_trip(OrderStatus::Restated);
        OrderStatus::lemma_name_round_trip(OrderStatus::PendingReplace);
        OrderStatus::lemma_name_round_trip(OrderStatus::Trade);
        OrderStatus::lemma_name_round_trip(OrderStatus::TradeCorrect);
        OrderStatus::lemma_name_round_trip(OrderStatus::PendingValidation);
        OrderStatus::lemma_name_round_trip(OrderStatus::Accepted);
        assert(OrderStatus::named("PARTIAL FILL"@) == Some(OrderStatus::PartialFill)) by {
            reveal_strlit("PARTIAL FILL");
            reveal_strlit("NEW");
            assert("PARTIAL FILL"@.len() != "NEW"@.len());
        }
        assert(OrderStatus::named("DONE FOR DAY"@) == Some(OrderStatus::DoneForDay)) by {
            reveal_strlit("DONE FOR DAY");
            reveal_strlit("NEW");
            assert("DONE FOR DAY"@.len() != "NEW"@.len());
            reveal_strlit("PARTIAL_FILL");
            assert("DONE FOR DAY"@[0] != "PARTIAL_FILL"@[0]);
            reveal_strlit("PARTIAL FILL");
            assert("DONE FOR DAY"@[0] != "PARTIAL FILL"@[0]);
            reveal_strlit("FILL");
            assert("DONE FOR DAY"@.len() != "FILL"@.len());
        }
        assert(OrderStatus::named("PENDING CANCEL"@) == Some(OrderStatus::PendingCancel)) by {
            reveal_strlit("PENDING CANCEL");
            reveal_strlit("NEW");
            assert("PENDING CANCEL"@.len() != "NEW"@.len());
            reveal_strlit("PARTIAL_FILL");
            assert("PENDING CANCEL"@.len() != "PARTIAL_FILL"@.len());
            reveal_strlit("PARTIAL FILL");
            assert("PENDING CANCEL"@.len() != "PARTIAL FILL"@.len());
            reveal_strlit("FILL");
            assert("PENDING CANCEL"@.len() != "FILL"@.len());
            reveal_strlit("DONE_FOR_DAY");
            assert("PENDING CANCEL"@.len() != "DONE_FOR_DAY"@.len());
            reveal_strlit("DONE FOR DAY");
            assert("PENDING CANCEL"@.len() != "DONE FOR DAY"@.len());
            reveal_strlit("CANCELED");
            assert("PENDING CANCEL"@.len() != "CANCELED"@.len());
            reveal_strlit("REPLACED");
            assert("PENDING CANCEL"@.len() != "REPLACED"@.len());
        }
        assert(OrderStatus::named("PENDING NEW"@) == Some(OrderStatus::PendingNew)) by {
            reveal_strlit("PENDING NEW");
            reveal_strlit("NEW");
            assert("PENDING NEW"@.len() != "NEW"@.len());
            reveal_strlit("PARTIAL_FILL");
            assert("PENDING NEW"@.len() != "PARTIAL_FILL"@.len());
            reveal_strlit("PARTIAL FILL");
            assert("PENDING NEW"@.len() != "PARTIAL FILL"@.len());
            reveal_strlit("FILL");
            assert("PENDING NEW"@.len() != "FILL"@.len());
            reveal_strlit("DONE_FOR_DAY");
            assert("PENDING NEW"@.len() != "DONE_FOR_DAY"@.len());
            reveal_strlit("DONE FOR DAY");
            assert("PENDING NEW"@.len() != "DONE FOR DAY"@.len());
            reveal_strlit("CANCELED");
            assert("PENDING NEW"@.len() != "CANCELED"@.len());
            reveal_strlit("REPLACED");
            assert("PENDING NEW"@.len() != "REPLACED"@.len());
            reveal_strlit("PENDING_CANCEL");
            assert("PENDING NEW"@.len() != "PENDING_CANCEL"@.len());
            reveal_strlit("PENDING CANCEL");
            assert("PENDING NEW"@.len() != "PENDING CANCEL"@.len());
            reveal_strlit("STOPPED");
            assert("PENDING NEW"@.len() != "STOPPED"@.len());
            reveal_strlit("REJECTED");
            assert("PENDING NEW"@.len() != "REJECTED"@.len());
            reveal_strlit("SUSPENDED");
            assert("PENDING NEW"@.len() != "SUSPENDED"@.len());
        }
        assert(OrderStatus::named("PENDING REPLACE"@) == Some(OrderStatus::PendingReplace)) by {
            reveal_strlit("PENDING REPLACE");
            reveal_strlit("NEW");
            assert("PENDING REPLACE"@.len() != "NEW"@.len());
            reveal_strlit("PARTIAL_FILL");
            assert("PENDING REPLACE"@.len() != "PARTIAL_FILL"@.len());
            reveal_strlit("PARTIAL FILL");
            assert("PENDING REPLACE"@.len() != "PARTIAL FILL"@.len());
            reveal_strlit("FILL");
            assert("PENDING REPLACE"@.len() != "FILL"@.len());
            reveal_strlit("DONE_FOR_DAY");
            assert("PENDING REPLACE"@.len() != "DONE_FOR_DAY"@.len());
            reveal_strlit("DONE FOR DAY");
            assert("PENDING REPLACE"@.len() != "DONE FOR DAY"@.len());
            reveal_strlit("CANCELED");
            assert("PENDING REPLACE"@.len() != "CANCELED"@.len());
            reveal_strlit("REPLACED");
            assert("PENDING REPLACE"@.len() != "REPLACED"@.len());
            reveal_strlit("PENDING_CANCEL");
            assert("PENDING REPLACE"@.len() != "PENDING_CANCEL"@.len());
            reveal_strlit("PENDING CANCEL");
            assert("PENDING REPLACE"@.len() != "PENDING CANCEL"@.len());
            reveal_strlit("STOPPED");
            assert("PENDING REPLACE"@.len() != "STOPPED"@.len());
            reveal_strlit("REJECTED");
            assert("PENDING REPLACE"@.len() != "REJECTED"@.len());
            reveal_strlit("SUSPENDED");
            assert("PENDING REPLACE"@.len() != "SUSPENDED"@.len());
            reveal_strlit("PENDING_NEW");
            assert("PENDING REPLACE"@.len() != "PENDING_NEW"@.len());
            reveal_strlit("PENDING NEW");
            assert("PENDING REPLACE"@.len() != "PENDING NEW"@.len());
            reveal_strlit("CALCULATED");
            assert("PENDING REPLACE"@.len() != "CALCULATED"@.len());
            reveal_strlit("EXPIRED");
            assert("PENDING REPLACE"@.len() != "EXPIRED"@.len());
            reveal_strlit("RESTATED");
            assert("PENDING REPLACE"@.len() != "RESTATED"@.len());
        }
        assert(OrderStatus::named("TRADE CORRECT"@) == Some(OrderStatus::TradeCorrect)) by {
            reveal_strlit("TRADE CORRECT");
            reveal_strlit("NEW");
            assert("TRADE CORRECT"@.len() != "NEW"@.len());
            reveal_strlit("PARTIAL_FILL");
            assert("TRADE CORRECT"@.len() != "PARTIAL_FILL"@.len());
            reveal_strlit("PARTIAL FILL");
            assert("TRADE CORRECT"@.len() != "PARTIAL FILL"@.len());
            reveal_strlit("FILL");
            assert("TRADE CORRECT"@.len() != "FILL"@.len());
            reveal_strlit("DONE_FOR_DAY");
            assert("TRADE CORRECT"@.len() != "DONE_FOR_DAY"@.len());
            reveal_strlit("DONE FOR DAY");
            assert("TRADE CORRECT"@.len() != "DONE FOR DAY"@.len());
            reveal_strlit("CANCELED");
            assert("TRADE CORRECT"@.len() != "CANCELED"@.len());
            reveal_strlit("REPLACED");
            assert("TRADE CORRECT"@.len() != "REPLACED"@.len());
            reveal_strlit("PENDING_CANCEL");
            assert("TRADE CORRECT"@.len() != "PENDING_CANCEL"@.len());
            reveal_strlit("PENDING CANCEL");
            assert("TRADE CORRECT"@.len() != "PENDING CANCEL"@.len());
            reveal_strlit("STOPPED");
            assert("TRADE CORRECT"@.len() != "STOPPED"@.len());
            reveal_strlit("REJECTED");
            assert("TRADE CORRECT"@.len() != "REJECTED"@.len());
            reveal_strlit("SUSPENDED");
            assert("TRADE CORRECT"@.len() != "SUSPENDED"@.len());
            reveal_strlit("PENDING_NEW");
            assert("TRADE CORRECT"@.len() != "PENDING_NEW"@.len());
            reveal_strlit("PENDING NEW");
            assert("TRADE CORRECT"@.len() != "PENDING NEW"@.len());
            reveal_strlit("CALCULATED");
            assert("TRADE CORRECT"@.len() != "CALCULATED"@.len());
            reveal_strlit("EXPIRED");
            assert("TRADE CORRECT"@.len() != "EXPIRED"@.len());
            reveal_strlit("RESTATED");
            assert("TRADE CORRECT"@.len() != "RESTATED"@.len());
            reveal_strlit("PENDING_REPLACE");
            assert("TRADE CORRECT"@.len() != "PENDING_REPLACE"@.len());
            reveal_strlit("PENDING REPLACE");
            assert("TRADE CORRECT"@.len() != "PENDING REPLACE"@.len());
            reveal_strlit("TRADE");
            assert("TRADE CORRECT"@.len() != "TRADE"@.len());
        }
    }

    /// Distinct values of OrderStatus have distinct stored names.
    pub proof fn lemma_names_distinct(a: OrderStatus, b: OrderStatus)
        ensures
            a.name() == b.name() ==> a == b,
    {
        OrderStatus::lemma_name_round_trip(a);
        OrderStatus::lemma_name_round_trip(b);
    }

    /// The name of the variant as written in the source (what `{:?}` prints).
    pub open spec fn variant_name_spec(self) -> Seq<char> {
        match self {
            OrderStatus::New => "New"@,
            OrderStatus::PartialFill => "PartialFill"@,
            OrderStatus::Fill => "Fill"@,
            OrderStatus::DoneForDay => "DoneForDay"@,
            OrderStatus::Canceled => "Canceled"@,
            OrderStatus::Replaced => "Replaced"@,
            OrderStatus::PendingCancel => "PendingCancel"@,
            OrderStatus::Stopped => "Stopped"@,
            OrderStatus::Rejected => "Rejected"@,
            OrderStatus::Suspended => "Suspended"@,
            OrderStatus::PendingNew => "PendingNew"@,
            OrderStatus::Calculated => "Calculated"@,
            OrderStatus::Expired => "Expired"@,
            OrderStatus::Restated => "Restated"@,
            OrderStatus::PendingReplace => "PendingReplace"@,
            OrderStatus::Trade => "Trade"@,
            OrderStatus::TradeCorrect => "TradeCorrect"@,
            OrderStatus::PendingValidation => "PendingValidation"@,
            OrderStatus::Accepted => "Accepted"@,
        }
    }

    /// The name of the variant as written in the source (what `{:?}` prints).
    pub fn variant_name(&self) -> (r: &'static str)
        ensures
            r@ == self.variant_name_spec(),
    {
        match self {
            OrderStatus::New => "New",
            OrderStatus::PartialFill => "PartialFill",
            OrderStatus::Fill => "Fill",
            OrderStatus::DoneForDay => "DoneForDay",
            OrderStatus::Canceled => "Canceled",
            OrderStatus::Replaced => "Replaced",
            OrderStatus::PendingCancel => "PendingCancel",
            OrderStatus::Stopped => "Stopped",
            OrderStatus::Rejected => "Rejected",
            OrderStatus::Suspended => "Suspended",
            OrderStatus::PendingNew => "PendingNew",
            OrderStatus::Calculated => "Calculated",
            OrderStatus::Expired => "Expired",
            OrderStatus::Restated => "Restated",
            OrderStatus::PendingReplace => "PendingReplace",
            OrderStatus::Trade => "Trade",
            OrderStatus::TradeCorrect => "TradeCorrect",
            OrderStatus::PendingValidation => "PendingValidation",
            OrderStatus::Accepted => "Accepted",
        }
    }
}

} // verus!
