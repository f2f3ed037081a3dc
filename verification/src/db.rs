//! Orders as the database stores them: the mapping of a stored row to an
//! order, the parameters of the statements that write orders, and the
//! reading of what a statement returned.

use vstd::prelude::*;
use vstd::std_specs::convert::FromSpecImpl;
use crate::decimal::DecimalValue;
use crate::kinds::{OrderSide, OrderStatus, OrderType, TimeInForce};
use crate::text::{join, uppercase_of};

verus! {

/// A copy of an optional text.
pub(crate) fn copy_text(t: &Option<String>) -> (r: Option<String>)
    ensures
        r == *t,
{
    match t {
        Some(s) => Some(s.clone()),
        None => None,
    }
}

/// An order.  Identifiers are 128-bit UUID values, times are microseconds
/// since the Unix epoch (UTC).
#[derive(Debug)]
pub struct Order {
    pub order_id: u128,
    pub client_order_id: String,
    pub original_client_order_id: Option<String>,
    pub exchange_order_id: Option<String>,
    pub account_id: u128,
    pub instrument_id: u128,
    pub side: OrderSide,
    pub order_type: OrderType,
    pub order_quantity: DecimalValue,
    pub leaves_quantity: DecimalValue,
    pub cum_quantity: DecimalValue,
    pub price: Option<DecimalValue>,
    pub stop_price: Option<DecimalValue>,
    pub currency_code: String,
    pub time_in_force: TimeInForce,
    pub transact_time: i64,
    pub effective_time: Option<i64>,
    pub expire_time: Option<i64>,
    pub order_status: OrderStatus,
    pub execution_destination: Option<String>,
    pub handling_instructions: Option<String>,
    pub text: Option<String>,
    pub last_updated_by: Option<String>,
    pub created_at: i64,
    pub updated_at: i64,
}

impl Clone for Order {
    fn clone(&self) -> (r: Self)
        ensures
            r == *self,
    {
        Order {
            order_id: self.order_id,
            client_order_id: self.client_order_id.clone(),
            original_client_order_id: copy_text(&self.original_client_order_id),
            exchange_order_id: copy_text(&self.exchange_order_id),
            account_id: self.account_id,
            instrument_id: self.instrument_id,
            side: self.side,
            order_type: self.order_type,
            order_quantity: self.order_quantity,
            leaves_quantity: self.leaves_quantity,
            cum_quantity: self.cum_quantity,
            price: self.price,
            stop_price: self.stop_price,
            currency_code: self.currency_code.clone(),
            time_in_force: self.time_in_force,
            transact_time: self.transact_time,
            effective_time: self.effective_time,
            expire_time: self.expire_time,
            order_status: self.order_status,
            execution_destination: copy_text(&self.execution_destination),
            handling_instructions: copy_text(&self.handling_instructions),
            text: copy_text(&self.text),
            last_updated_by: copy_text(&self.last_updated_by),
            created_at: self.created_at,
            updated_at: self.updated_at,
        }
    }
}

/// The columns of one stored order as they were read.  A column that must
/// be present holds either its value or the message of the failed read; an
/// optional column holds its value or nothing (a missing value or a failed
/// read alike).  The enumerations are read as their stored names.
pub struct OrderRow {
    pub order_id: Result<u128, String>,
    pub client_order_id: Result<String, String>,
    pub original_client_order_id: Option<String>,
    pub exchange_order_id: Option<String>,
    pub account_id: Result<u128, String>,
    pub instrument_id: Result<u128, String>,
    pub side: Result<String, String>,
    pub order_type: Result<String, String>,
    pub order_quantity: Result<DecimalValue, String>,
    pub leaves_quantity: Result<DecimalValue, String>,
    pub cum_quantity: Result<DecimalValue, String>,
    pub price: Option<DecimalValue>,
    pub stop_price: Option<DecimalValue>,
    pub currency_code: Result<String, String>,
    pub time_in_force: Result<String, String>,
    pub transact_time: Result<i64, String>,
    pub effective_time: Option<i64>,
    pub expire_time: Option<i64>,
    pub order_status: Result<String, String>,
    pub execution_destination: Option<String>,
    pub handling_instructions: Option<String>,
    pub text: Option<String>,
    pub last_updated_by: Option<String>,
    pub created_at: Result<i64, String>,
    pub updated_at: Result<i64, String>,
}

/// The message of a failed read, if the read failed.
pub open spec fn read_failure<T>(r: Result<T, String>) -> Option<Seq<char>> {
    match r {
        Ok(_) => None,
        Err(e) => Some(e@),
    }
}

/// The first failure of two, in order.
pub open spec fn first_failure(a: Option<Seq<char>>, b: Option<Seq<char>>) -> Option<Seq<char>> {
    if a is Some {
        a
    } else {
        b
    }
}

/// The message that rejects a text naming no value of an enumeration.
pub open spec fn invalid_name_message(kind: Seq<char>, s: Seq<char>) -> Seq<char> {
    "Invalid "@ + kind + " value: "@ + s
}

/// Why the side column gives no side, if it does not.
pub open spec fn side_failure(r: Result<String, String>) -> Option<Seq<char>> {
    match r {
        Err(e) => Some(e@),
        Ok(s) => if OrderSide::named(uppercase_of(s@)) is None {
            Some(invalid_name_message("order_side_enum"@, s@))
        } else {
            None
        },
    }
}

/// Why the order type column gives no order type, if it does not.
pub open spec fn order_type_failure(r: Result<String, String>) -> Option<Seq<char>> {
    match r {
        Err(e) => Some(e@),
        Ok(s) => if OrderType::named(uppercase_of(s@)) is None {
            Some(invalid_name_message("order_type_enum"@, s@))
        } else {
            None
        },
    }
}

/// Why the time-in-force column gives no time in force, if it does not.
pub open spec fn time_in_force_failure(r: Result<String, String>) -> Option<Seq<char>> {
    match r {
        Err(e) => Some(e@),
        Ok(s) => if TimeInForce::named(uppercase_of(s@)) is None {
            Some(invalid_name_message("time_in_force_enum"@, s@))
        } else {
            None
        },
    }
}

/// Why the status column gives no status, if it does not.
pub open spec fn status_failure(r: Result<String, String>) -> Option<Seq<char>> {
    match r {
        Err(e) => Some(e@),
        Ok(s) => if OrderStatus::named(uppercase_of(s@)) is None {
            Some(invalid_name_message("order_status_enum"@, s@))
        } else {
            None
        },
    }
}

/// The first column of a row, in the order of the order's fields, that
/// gives no value: the message of its failed read, or of its unknown name.
pub open spec fn row_failure(row: OrderRow) -> Option<Seq<char>> {
    first_failure(read_failure(row.order_id),
    first_failure(read_failure(row.client_order_id),
    first_failure(read_failure(row.account_id),
    first_failure(read_failure(row.instrument_id),
    first_failure(side_failure(row.side),
    first_failure(order_type_failure(row.order_type),
    first_failure(read_failure(row.order_quantity),
    first_failure(read_failure(row.leaves_quantity),
    first_failure(read_failure(row.cum_quantity),
    first_failure(read_failure(row.currency_code),
    first_failure(time_in_force_failure(row.time_in_force),
    first_failure(read_failure(row.transact_time),
    first_failure(status_failure(row.order_status),
    first_failure(read_failure(row.created_at),
    read_failure(row.updated_at)))))))))))))))
}

/// The order that a row holds, where no column fails.
pub open spec fn row_order(row: OrderRow) -> Order {
    Order {
        order_id: row.order_id->Ok_0,
        client_order_id: row.client_order_id->Ok_0,
        original_client_order_id: row.original_client_order_id,
        exchange_order_id: row.exchange_order_id,
        account_id: row.account_id->Ok_0,
        instrument_id: row.instrument_id->Ok_0,
        side: OrderSide::named(uppercase_of(row.side->Ok_0@))->Some_0,
        order_type: OrderType::named(uppercase_of(row.order_type->Ok_0@))->Some_0,
        order_quantity: row.order_quantity->Ok_0,
        leaves_quantity: row.leaves_quantity->Ok_0,
        cum_quantity: row.cum_quantity->Ok_0,
        price: row.price,
        stop_price: row.stop_price,
        currency_code: row.currency_code->Ok_0,
        time_in_force: TimeInForce::named(uppercase_of(row.time_in_force->Ok_0@))->Some_0,
        transact_time: row.transact_time->Ok_0,
        effective_time: row.effective_time,
        expire_time: row.expire_time,
        order_status: OrderStatus::named(uppercase_of(row.order_status->Ok_0@))->Some_0,
        execution_destination: row.execution_destination,
        handling_instructions: row.handling_instructions,
        text: row.text,
        last_updated_by: row.last_updated_by,
        created_at: row.created_at->Ok_0,
        updated_at: row.updated_at->Ok_0,
    }
}

/// Each column of a row with no failing column lands in the order field of
/// the same name: a value column gives its value, an optional column is
/// taken as it is, and a name column gives the value its name reads as.
pub proof fn lemma_row_order_columns(row: OrderRow)
    requires
        row_failure(row) is None,
    ensures
        row_order(row).order_id == row.order_id->Ok_0,
        row_order(row).client_order_id == row.client_order_id->Ok_0,
        row_order(row).original_client_order_id == row.original_client_order_id,
        row_order(row).exchange_order_id == row.exchange_order_id,
        row_order(row).account_id == row.account_id->Ok_0,
        row_order(row).instrument_id == row.instrument_id->Ok_0,
        OrderSide::named(uppercase_of(row.side->Ok_0@)) == Some(row_order(row).side),
        OrderType::named(uppercase_of(row.order_type->Ok_0@)) == Some(row_order(row).order_type),
        row_order(row).order_quantity == row.order_quantity->Ok_0,
        row_order(row).leaves_quantity == row.leaves_quantity->Ok_0,
        row_order(row).cum_quantity == row.cum_quantity->Ok_0,
        row_order(row).price == row.price,
        row_order(row).stop_price == row.stop_price,
        row_order(row).currency_code == row.currency_code->Ok_0,
        TimeInForce::named(uppercase_of(row.time_in_force->Ok_0@)) == Some(row_order(row).time_in_force),
        row_order(row).transact_time == row.transact_time->Ok_0,
        row_order(row).effective_time == row.effective_time,
        row_order(row).expire_time == row.expire_time,
        OrderStatus::named(uppercase_of(row.order_status->Ok_0@)) == Some(row_order(row).order_status),
        row_order(row).execution_destination == row.execution_destination,
        row_order(row).handling_instructions == row.handling_instructions,
        row_order(row).text == row.text,
        row_order(row).last_updated_by == row.last_updated_by,
        row_order(row).created_at == row.created_at->Ok_0,
        row_order(row).updated_at == row.updated_at->Ok_0,
{
}

impl Order {
    /// The order that a stored row holds.  The columns are taken in the
    /// order of the order's fields, and the first one that gives no value
    /// decides the error: the message of its failed read, or the message
    /// that rejects its unknown name.
    pub fn from_row(row: OrderRow) -> (r: Result<Order, String>)
        ensures
            match row_failure(row) {
                Some(e) => r matches Err(m) && m@ == e,
                None => r matches Ok(o) && o == row_order(row),
            },
            row_failure(row) is None ==> (r matches Ok(o)
                && o.order_id == row.order_id->Ok_0
                && o.client_order_id == row.client_order_id->Ok_0
                && o.original_client_order_id == row.original_client_order_id
                && o.exchange_order_id == row.exchange_order_id
                && o.account_id == row.account_id->Ok_0
                && o.instrument_id == row.instrument_id->Ok_0
                && OrderSide::named(uppercase_of(row.side->Ok_0@)) == Some(o.side)
                && OrderType::named(uppercase_of(row.order_type->Ok_0@)) == Some(o.order_type)
                && o.order_quantity == row.order_quantity->Ok_0
                && o.leaves_quantity == row.leaves_quantity->Ok_0
                && o.cum_quantity == row.cum_quantity->Ok_0
                && o.price == row.price
                && o.stop_price == row.stop_price
                && o.currency_code == row.currency_code->Ok_0
                && TimeInForce::named(uppercase_of(row.time_in_force->Ok_0@)) == Some(o.time_in_force)
                && o.transact_time == row.transact_time->Ok_0
                && o.effective_time == row.effective_time
                && o.expire_time == row.expire_time
                && OrderStatus::named(uppercase_of(row.order_status->Ok_0@)) == Some(o.order_status)
                && o.execution_destination == row.execution_destination
                && o.handling_instructions == row.handling_instructions
                && o.text == row.text
                && o.last_updated_by == row.last_updated_by
                && o.created_at == row.created_at->Ok_0
                && o.updated_at == row.updated_at->Ok_0
            ),
    {
        let OrderRow {
            order_id,
            client_order_id,
            original_client_order_id,
            exchange_order_id,
            account_id,
            instrument_id,
            side,
            order_type,
            order_quantity,
            leaves_quantity,
            cum_quantity,
            price,
            stop_price,
            currency_code,
            time_in_force,
            transact_time,
            effective_time,
            expire_time,
            order_status,
            execution_destination,
            handling_instructions,
            text,
            last_updated_by,
            created_at,
            updated_at,
        } = row;
        let order_id = match order_id { Ok(v) => v, Err(e) => return Err(e) };
        let client_order_id = match client_order_id { Ok(v) => v, Err(e) => return Err(e) };
        let account_id = match account_id { Ok(v) => v, Err(e) => return Err(e) };
        let instrument_id = match instrument_id { Ok(v) => v, Err(e) => return Err(e) };
        let side = match side { Ok(v) => v, Err(e) => return Err(e) };
        let side = match OrderSide::from_str(side.as_str()) { Ok(v) => v, Err(e) => return Err(e) };
        let order_type = match order_type { Ok(v) => v, Err(e) => return Err(e) };
        let order_type = match OrderType::from_str(order_type.as_str()) {
            Ok(v) => v,
            Err(e) => return Err(e),
        };
        let order_quantity = match order_quantity { Ok(v) => v, Err(e) => return Err(e) };
        let leaves_quantity = match leaves_quantity { Ok(v) => v, Err(e) => return Err(e) };
        let cum_quantity = match cum_quantity { Ok(v) => v, Err(e) => return Err(e) };
        let currency_code = match currency_code { Ok(v) => v, Err(e) => return Err(e) };
        let time_in_force = match time_in_force { Ok(v) => v, Err(e) => return Err(e) };
        let time_in_force = match TimeInForce::from_str(time_in_force.as_str()) {
            Ok(v) => v,
            Err(e) => return Err(e),
        };
        let transact_time = match transact_time { Ok(v) => v, Err(e) => return Err(e) };
        let order_status = match order_status { Ok(v) => v, Err(e) => return Err(e) };
        let order_status = match OrderStatus::from_str(order_status.as_str()) {
            Ok(v) => v,
            Err(e) => return Err(e),
        };
        let created_at = match created_at { Ok(v) => v, Err(e) => return Err(e) };
        let updated_at = match updated_at { Ok(v) => v, Err(e) => return Err(e) };
        Ok(Order {
            order_id,
            client_order_id,
            original_client_order_id,
            exchange_order_id,
            account_id,
            instrument_id,
            side,
            order_type,
            order_quantity,
            leaves_quantity,
            cum_quantity,
            price,
            stop_price,
            currency_code,
            time_in_force,
            transact_time,
            effective_time,
            expire_time,
            order_status,
            execution_destination,
            handling_instructions,
            text,
            last_updated_by,
            created_at,
            updated_at,
        })
    }
}


#[verifier::external_type_specification]
#[verifier::external_body]
pub struct ExPostgresError(postgres::Error);

#[verifier::external_type_specification]
#[verifier::external_body]
pub struct ExPoolError(r2d2::Error);

#[verifier::external_type_specification]
#[verifier::external_body]
pub struct ExPgConfig(postgres::Config);

/// The text of the error that `postgres::Config::from_str` reports for the
/// connection string `url`, or nothing when it accepts it.
pub uninterp spec fn pg_config_error(url: Seq<char>) -> Option<Seq<char>>;

/// Calls `postgres::Config::from_str` and renders its error with
/// `to_string`.  Trusted: parsing computes on the string alone (it opens no
/// connection), so whether it succeeds and the text of its error are a
/// function of the string, named `pg_config_error`.  Nothing is said of the
/// configuration it builds.
#[verifier::external_body]
fn parse_pg_config(url: &str) -> (r: Result<postgres::Config, String>)
    ensures
        match r {
            Ok(_) => pg_config_error(url@) is None,
            Err(e) => pg_config_error(url@) == Some(e@),
        },
{
    <postgres::Config as std::str::FromStr>::from_str(url).map_err(|e| e.to_string())
}

/// The connection configuration that a database URL describes; a URL that
/// does not parse is rejected with a message that quotes it and the
/// parser's error.
pub fn db_config(db_url: &str) -> (r: Result<postgres::Config, String>)
    ensures
        match pg_config_error(db_url@) {
            None => r is Ok,
            Some(e) => r matches Err(m) && m@ == "Failed to parse database URL '"@ + db_url@
                + "': "@ + e,
        },
{
    match parse_pg_config(db_url) {
        Ok(config) => Ok(config),
        Err(e) => {
            let mut m = join("Failed to parse database URL '", db_url);
            m.append("': ");
            m.append(e.as_str());
            Err(m)
        },
    }
}

/// The message that reports a connection pool that could not be built,
/// from the text of the pool's error.
pub fn pool_build_message(detail: &str) -> (m: String)
    ensures
        m@ == "Failed to build R2D2 connection pool: "@ + detail@,
{
    join("Failed to build R2D2 connection pool: ", detail)
}

/// Why a database operation failed.
#[derive(Debug)]
pub enum DbError {
    /// The database refused or failed a statement.
    Postgres(postgres::Error),
    /// No connection could be taken from the pool.
    R2D2(r2d2::Error),
    /// A stored row does not hold an order.
    Mapping(String),
    /// No stored order has the identifier.
    NotFound,
    /// An update did not take effect.
    UpdateFailed(String),
}

/// The `Debug` text of a string: the string in double quotes, with the
/// characters that `str`'s `Debug` escapes written as escapes.
pub uninterp spec fn str_debug(s: Seq<char>) -> Seq<char>;

/// Every character of `s` is printable ASCII other than `"` and `\`.
pub open spec fn is_plain_text(s: Seq<char>) -> bool {
    forall|i: int|
        0 <= i < s.len() ==> 32 <= (#[trigger] s[i] as u32) <= 126 && s[i] != '"' && s[i] != '\\'
}

/// Formats a string with `Debug` (`format!("{:?}", s)`).  Trusted: the text
/// is a function of the string alone (named `str_debug`); for printable
/// ASCII without `"` or `\` it is the string between double quotes, since
/// `str`'s `Debug` escapes only quotes, backslashes, control and
/// non-printable characters.
#[verifier::external_body]
fn str_debug_text(s: &str) -> (r: String)
    ensures
        r@ == str_debug(s@),
        is_plain_text(s@) ==> r@ == "\""@ + s@ + "\""@,
{
    format!("{:?}", s)
}

/// Formats a `postgres::Error` with its `Debug`.  Nothing is stated of the
/// text: it is the crate's own (and std calls `Debug` output unstable).
#[verifier::external_body]
fn postgres_error_text(e: &postgres::Error) -> (r: String) {
    format!("{:?}", e)
}

/// Formats an `r2d2::Error` with its `Debug`.  Nothing is stated of the
/// text: it is the crate's own.
#[verifier::external_body]
fn pool_error_text(e: &r2d2::Error) -> (r: String) {
    format!("{:?}", e)
}

/// `t` is the `Debug` text of `e`: the variant's name, followed for a
/// variant with a value by that value's `Debug` text in parentheses (the
/// text of a `postgres` or `r2d2` error being that crate's own).
pub open spec fn describes_db_error(e: DbError, t: Seq<char>) -> bool {
    match e {
        DbError::Postgres(_) => exists|inner: Seq<char>| t == "Postgres("@ + inner + ")"@,
        DbError::R2D2(_) => exists|inner: Seq<char>| t == "R2D2("@ + inner + ")"@,
        DbError::Mapping(m) => t == "Mapping("@ + str_debug(m@) + ")"@,
        DbError::NotFound => t == "NotFound"@,
        DbError::UpdateFailed(m) => t == "UpdateFailed("@ + str_debug(m@) + ")"@,
    }
}

impl DbError {
    /// The `Debug` text of the error.
    pub fn debug_text(&self) -> (t: String)
        ensures
            describes_db_error(*self, t@),
    {
        match self {
            DbError::Postgres(e) => {
                let inner = postgres_error_text(e);
                let mut t = join("Postgres(", inner.as_str());
                t.append(")");
                assert(t@ == "Postgres("@ + inner@ + ")"@);
                t
            },
            DbError::R2D2(e) => {
                let inner = pool_error_text(e);
                let mut t = join("R2D2(", inner.as_str());
                t.append(")");
                assert(t@ == "R2D2("@ + inner@ + ")"@);
                t
            },
            DbError::Mapping(m) => {
                let inner = str_debug_text(m.as_str());
                let mut t = join("Mapping(", inner.as_str());
                t.append(")");
                t
            },
            DbError::NotFound => "NotFound".to_owned(),
            DbError::UpdateFailed(m) => {
                let inner = str_debug_text(m.as_str());
                let mut t = join("UpdateFailed(", inner.as_str());
                t.append(")");
                t
            },
        }
    }
}

impl From<postgres::Error> for DbError {
    fn from(err: postgres::Error) -> (r: DbError) {
        DbError::Postgres(err)
    }
}

impl FromSpecImpl<postgres::Error> for DbError {
    open spec fn obeys_from_spec() -> bool {
        true
    }

    open spec fn from_spec(err: postgres::Error) -> DbError {
        DbError::Postgres(err)
    }
}

impl From<r2d2::Error> for DbError {
    fn from(err: r2d2::Error) -> (r: DbError) {
        DbError::R2D2(err)
    }
}

impl FromSpecImpl<r2d2::Error> for DbError {
    open spec fn obeys_from_spec() -> bool {
        true
    }

    open spec fn from_spec(err: r2d2::Error) -> DbError {
        DbError::R2D2(err)
    }
}

impl From<String> for DbError {
    fn from(err: String) -> (r: DbError) {
        DbError::Mapping(err)
    }
}

impl FromSpecImpl<String> for DbError {
    open spec fn obeys_from_spec() -> bool {
        true
    }

    open spec fn from_spec(err: String) -> DbError {
        DbError::Mapping(err)
    }
}

/// What a lookup of one order by identifier gives, from the row it found
/// (if any): nothing when no row was found, the order the row holds, or a
/// mapping error with the message of the row's first failing column.
pub fn order_lookup_result(found: Option<OrderRow>) -> (r: Result<Option<Order>, DbError>)
    ensures
        match found {
            None => r matches Ok(None),
            Some(row) => match row_failure(row) {
                Some(e) => r matches Err(DbError::Mapping(m)) && m@ == e,
                None => r matches Ok(Some(o)) && o == row_order(row),
            },
        },
{
    match found {
        None => Ok(None),
        Some(row) => match Order::from_row(row) {
            Ok(order) => Ok(Some(order)),
            Err(message) => Err(DbError::Mapping(message)),
        },
    }
}

/// What a status update gives, from the number of rows it changed: no
/// changed row means that no stored order has the identifier.
pub fn status_update_result(rows_affected: u64) -> (r: Result<u64, DbError>)
    ensures
        rows_affected == 0 ==> r matches Err(DbError::NotFound),
        rows_affected != 0 ==> r == Ok::<u64, DbError>(rows_affected),
{
    if rows_affected == 0 {
        Err(DbError::NotFound)
    } else {
        Ok(rows_affected)
    }
}

/// A request for a new order.
pub struct NewOrderRequest {
    pub client_order_id: String,
    pub account_id: u128,
    pub instrument_id: u128,
    pub side: OrderSide,
    pub order_type: OrderType,
    pub order_quantity: DecimalValue,
    pub price: Option<DecimalValue>,
    pub currency_code: String,
    pub time_in_force: Option<TimeInForce>,
    pub execution_destination: Option<String>,
    pub text: Option<String>,
}

/// The values that the statement inserting a new order writes, in the
/// order of its parameters.  Enumerations are written by their stored names.
pub struct OrderInsertParams {
    pub order_id: u128,
    pub client_order_id: String,
    pub account_id: u128,
    pub instrument_id: u128,
    pub side: &'static str,
    pub order_type: &'static str,
    pub order_quantity: DecimalValue,
    pub leaves_quantity: DecimalValue,
    pub cum_quantity: DecimalValue,
    pub price: Option<DecimalValue>,
    pub currency_code: String,
    pub time_in_force: &'static str,
    pub transact_time: i64,
    pub order_status: &'static str,
    pub execution_destination: Option<String>,
    pub text: Option<String>,
}

impl NewOrderRequest {
    /// The time in force that a new order is stored with: the requested
    /// one, or `Day` when none was requested.
    pub open spec fn effective_time_in_force(self) -> TimeInForce {
        match self.time_in_force {
            Some(t) => t,
            None => TimeInForce::Day,
        }
    }

    /// The values written for this request, stored under `order_id` at
    /// `transact_time` with `initial_status`: nothing of it is filled yet
    /// (all of it leaves, none of it is cumulated) and the time in force
    /// defaults to `Day`.
    pub fn insert_params(&self, order_id: u128, transact_time: i64, initial_status: OrderStatus)
        -> (p: OrderInsertParams)
        ensures
            p.order_id == order_id,
            p.client_order_id == self.client_order_id,
            p.account_id == self.account_id,
            p.instrument_id == self.instrument_id,
            p.side@ == self.side.name(),
            p.order_type@ == self.order_type.name(),
            p.order_quantity == self.order_quantity,
            p.leaves_quantity == self.order_quantity,
            p.cum_quantity.mantissa_spec() == 0,
            p.cum_quantity.scale_spec() == 0,
            p.price == self.price,
            p.currency_code == self.currency_code,
            p.time_in_force@ == self.effective_time_in_force().name(),
            p.transact_time == transact_time,
            p.order_status@ == initial_status.name(),
            p.execution_destination == self.execution_destination,
            p.text == self.text,
    {
        let time_in_force = match self.time_in_force {
            Some(t) => t,
            None => TimeInForce::Day,
        };
        OrderInsertParams {
            order_id,
            client_order_id: self.client_order_id.clone(),
            account_id: self.account_id,
            instrument_id: self.instrument_id,
            side: self.side.as_str(),
            order_type: self.order_type.as_str(),
            order_quantity: self.order_quantity,
            leaves_quantity: self.order_quantity,
            cum_quantity: DecimalValue::zero(),
            price: self.price,
            currency_code: self.currency_code.clone(),
            time_in_force: time_in_force.as_str(),
            transact_time,
            order_status: initial_status.as_str(),
            execution_destination: copy_text(&self.execution_destination),
            text: copy_text(&self.text),
        }
    }
}

} // verus!
