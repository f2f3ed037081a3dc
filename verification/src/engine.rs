//! The rules of the trading engine: which new orders it accepts, which
//! status changes it allows, how database failures become engine errors,
//! and the cache of orders that it keeps in front of the database.
//!
//! The engine's own operations wait on the database between their
//! decisions; each decision stands here as a function of what the database
//! answered.

use vstd::prelude::*;
use vstd::std_specs::convert::FromSpecImpl;
use std::collections::HashMap;
use crate::db::{describes_db_error, DbError, NewOrderRequest, Order};
use crate::kinds::{OrderStatus, OrderType};
use crate::text::join;

verus! {

broadcast use vstd::std_specs::hash::group_hash_axioms;

/// The lower-case hexadecimal digit of a value below sixteen.
pub open spec fn hex_digit(d: int) -> char {
    if d < 10 {
        (48 + d) as char
    } else {
        (87 + d) as char
    }
}

/// The 32 lower-case hexadecimal digits of a 128-bit value, most
/// significant first.
pub open spec fn hex_digits(id: u128) -> Seq<char> {
    Seq::new(32, |i: int| hex_digit((id as int / vstd::arithmetic::power2::pow2((4 * (31 - i)) as nat) as int) % 16))
}

/// The hyphenated text of a UUID: its digits in groups of 8, 4, 4, 4 and 12
/// joined by `-`.
pub open spec fn uuid_text(id: u128) -> Seq<char> {
    let h = hex_digits(id);
    h.subrange(0, 8) + "-"@ + h.subrange(8, 12) + "-"@ + h.subrange(12, 16) + "-"@
        + h.subrange(16, 20) + "-"@ + h.subrange(20, 32)
}

/// Calls `uuid::Uuid::from_u128` and formats the UUID with `Display`.
/// Trusted: the crate writes a UUID in its hyphenated lower-case form
/// (`fmt::Display` goes to `LowerHex` of the hyphenated form), its sixteen
/// bytes being the value's big-endian bytes.
#[verifier::external_body]
fn uuid_display(id: u128) -> (r: String)
    ensures
        r@ == uuid_text(id),
{
    uuid::Uuid::from_u128(id).to_string()
}

/// Calls `uuid::Uuid::nil` and reads it back with `Uuid::as_u128`.
/// Trusted: the nil UUID is sixteen zero bytes, so its value is zero.
#[verifier::external_body]
fn nil_uuid() -> (r: u128)
    ensures
        r == 0,
{
    uuid::Uuid::nil().as_u128()
}

/// Why the engine refused or failed an operation.
#[derive(Debug)]
pub enum EngineError {
    /// The request breaks a rule of the engine.
    Validation(String),
    /// The database failed.
    Database(DbError),
    /// No order has the identifier.
    OrderNotFound(u128),
    /// The order is not in a status that allows the change.
    UpdateConflict(String),
    /// The order cache failed.
    CacheError(String),
}

/// The engine error that a database error becomes: a missing order is
/// reported as an order that is not found, with the nil identifier, and any
/// other failure is carried as it is.
pub open spec fn engine_error_of(err: DbError) -> EngineError {
    match err {
        DbError::NotFound => EngineError::OrderNotFound(0),
        other => EngineError::Database(other),
    }
}

impl From<DbError> for EngineError {
    fn from(err: DbError) -> (r: EngineError) {
        match err {
            DbError::NotFound => EngineError::OrderNotFound(nil_uuid()),
            other => EngineError::Database(other),
        }
    }
}

impl FromSpecImpl<DbError> for EngineError {
    open spec fn obeys_from_spec() -> bool {
        true
    }

    open spec fn from_spec(err: DbError) -> EngineError {
        engine_error_of(err)
    }
}

impl EngineError {
    /// The text that reports the error.
    pub fn message(&self) -> (m: String)
        ensures
            match self {
                EngineError::Validation(msg) => m@ == "Validation Error: "@ + msg@,
                EngineError::Database(e) => exists|t: Seq<char>|
                    m@ == "Database Error: "@ + t && describes_db_error(*e, t),
                EngineError::OrderNotFound(id) => m@ == "Order not found: "@ + uuid_text(*id),
                EngineError::UpdateConflict(msg) => m@ == "Update Conflict: "@ + msg@,
                EngineError::CacheError(msg) => m@ == "Cache Error: "@ + msg@,
            },
    {
        match self {
            EngineError::Validation(msg) => join("Validation Error: ", msg.as_str()),
            EngineError::Database(err) => {
                let detail = err.debug_text();
                let m = join("Database Error: ", detail.as_str());
                assert(m@ == "Database Error: "@ + detail@ && describes_db_error(*err, detail@));
                m
            },
            EngineError::OrderNotFound(id) => {
                let text = uuid_display(*id);
                join("Order not found: ", text.as_str())
            },
            EngineError::UpdateConflict(msg) => join("Update Conflict: ", msg.as_str()),
            EngineError::CacheError(msg) => join("Cache Error: ", msg.as_str()),
        }
    }
}

/// A request that the engine accepts: a positive quantity and, for a limit
/// order, a positive price.
pub open spec fn is_valid_request(req: NewOrderRequest) -> bool {
    &&& req.order_quantity.is_positive()
    &&& req.order_type == OrderType::Limit ==> (req.price matches Some(p) && p.is_positive())
}

/// The validation rules: a request with a quantity that is not positive is
/// refused; a request of any type but `Limit` with a positive quantity is
/// accepted whatever its price; a `Limit` request is accepted exactly when
/// its quantity and its price are both given and positive.
pub proof fn lemma_validation_rules(req: NewOrderRequest)
    ensures
        !req.order_quantity.is_positive() ==> !is_valid_request(req),
        req.order_type != OrderType::Limit && req.order_quantity.is_positive() ==> is_valid_request(req),
        req.order_type == OrderType::Limit ==> (is_valid_request(req) <==> (
        req.order_quantity.is_positive() && (req.price matches Some(p) && p.is_positive()))),
{
}

/// Checks a request for a new order against the engine's rules.
pub fn validate_new_order_request(req: &NewOrderRequest) -> (r: Result<(), EngineError>)
    ensures
        req.order_type != OrderType::Limit && req.order_quantity.is_positive() ==> r is Ok,
        req.order_type == OrderType::Limit ==> (r is Ok <==> (req.order_quantity.is_positive()
            && (req.price matches Some(p) && p.is_positive()))),
        !req.order_quantity.is_positive() ==> r is Err,
        r is Ok <==> is_valid_request(*req),
        !req.order_quantity.is_positive() ==> (r matches Err(EngineError::Validation(m))
            && m@ == "Order quantity must be positive."@),
        req.order_quantity.is_positive() && !is_valid_request(*req) ==> (r matches Err(
            EngineError::Validation(m),
        ) && m@ == "Price must be set and positive for a Limit order."@),
{
    if req.order_quantity.is_at_most_zero() {
        return Err(EngineError::Validation("Order quantity must be positive.".to_owned()));
    }
    if req.order_type == OrderType::Limit {
        let bad_price = match &req.price {
            None => true,
            Some(p) => p.is_at_most_zero(),
        };
        if bad_price {
            return Err(
                EngineError::Validation("Price must be set and positive for a Limit order.".to_owned()),
            );
        }
    }
    Ok(())
}

/// Decides whether a new order is taken, and in which status it is stored:
/// an accepted request is stored as awaiting validation.
pub fn submission_status(req: &NewOrderRequest) -> (r: Result<OrderStatus, EngineError>)
    ensures
        req.order_type != OrderType::Limit && req.order_quantity.is_positive() ==> r is Ok,
        req.order_type == OrderType::Limit ==> (r is Ok <==> (req.order_quantity.is_positive()
            && (req.price matches Some(p) && p.is_positive()))),
        !req.order_quantity.is_positive() ==> r is Err,
        r is Ok <==> is_valid_request(*req),
        r is Ok ==> r == Ok::<OrderStatus, EngineError>(OrderStatus::PendingValidation),
        !req.order_quantity.is_positive() ==> (r matches Err(EngineError::Validation(m))
            && m@ == "Order quantity must be positive."@),
        req.order_quantity.is_positive() && !is_valid_request(*req) ==> (r matches Err(
            EngineError::Validation(m),
        ) && m@ == "Price must be set and positive for a Limit order."@),
{
    match validate_new_order_request(req) {
        Ok(()) => Ok(OrderStatus::PendingValidation),
        Err(e) => Err(e),
    }
}


/// Whether a status change is refused: an order may be moved to `New`
/// only while it awaits validation.
pub open spec fn is_confirm_conflict(current: OrderStatus, new_status: OrderStatus) -> bool {
    current != OrderStatus::PendingValidation && new_status == OrderStatus::New
}

/// The message that refuses to move an order to `New` from `current`.
pub open spec fn conflict_message(order_id: u128, current: OrderStatus) -> Seq<char> {
    "Order "@ + uuid_text(order_id) + " cannot be moved to New from status "@
        + current.variant_name_spec() + ". Expected PendingValidation."@
}

/// Decides whether the order found under `order_id` (if any) may be moved
/// to `new_status`, giving back the order when it may.
pub fn check_confirmable(order_id: u128, found: Option<Order>, new_status: OrderStatus) -> (r:
    Result<Order, EngineError>)
    ensures
        match found {
            None => r == Err::<Order, EngineError>(EngineError::OrderNotFound(order_id)),
            Some(o) => if is_confirm_conflict(o.order_status, new_status) {
                r matches Err(EngineError::UpdateConflict(m)) && m@ == conflict_message(
                    order_id,
                    o.order_status,
                )
            } else {
                r == Ok::<Order, EngineError>(o)
            },
        },
        found matches Some(o) ==> (r is Ok <==> (o.order_status == OrderStatus::PendingValidation
            || new_status != OrderStatus::New)),
{
    match found {
        None => Err(EngineError::OrderNotFound(order_id)),
        Some(order) => {
            if order.order_status != OrderStatus::PendingValidation && new_status == OrderStatus::New {
                let id_text = uuid_display(order_id);
                let mut m = join("Order ", id_text.as_str());
                m.append(" cannot be moved to New from status ");
                m.append(order.order_status.variant_name());
                m.append(". Expected PendingValidation.");
                Err(EngineError::UpdateConflict(m))
            } else {
                Ok(order)
            }
        },
    }
}

/// What the engine makes of the database's answer to a status update of
/// `order_id`: no changed row means the order is not found, a database
/// failure becomes an engine error.
pub fn status_update_outcome(order_id: u128, updated: Result<u64, DbError>) -> (r: Result<
    (),
    EngineError,
>)
    ensures
        match updated {
            Ok(n) => if n == 0 {
                r == Err::<(), EngineError>(EngineError::OrderNotFound(order_id))
            } else {
                r is Ok
            },
            Err(e) => r == Err::<(), EngineError>(engine_error_of(e)),
        },
{
    match updated {
        Ok(n) => if n == 0 {
            Err(EngineError::OrderNotFound(order_id))
        } else {
            Ok(())
        },
        Err(e) => Err(EngineError::from(e)),
    }
}

/// The status rules: an order awaiting validation may be moved to any
/// status, any order may be moved to a status other than `New`, and moving
/// to `New` is refused from every status other than `PendingValidation`
/// (so an order that is already `New` cannot be moved to `New` again).
pub proof fn lemma_confirm_rules(current: OrderStatus, new_status: OrderStatus)
    ensures
        current == OrderStatus::PendingValidation ==> !is_confirm_conflict(current, new_status),
        new_status != OrderStatus::New ==> !is_confirm_conflict(current, new_status),
        current == OrderStatus::New && new_status == OrderStatus::New ==> is_confirm_conflict(
            current,
            new_status,
        ),
        current != OrderStatus::PendingValidation && new_status == OrderStatus::New
            ==> is_confirm_conflict(current, new_status),
        is_confirm_conflict(current, new_status) ==> current != OrderStatus::PendingValidation
            && new_status == OrderStatus::New,
{
}

/// What the cache holds under an identifier.
pub open spec fn cached(entries: Map<u128, Order>, order_id: u128) -> Option<Order> {
    if entries.contains_key(order_id) {
        Some(entries[order_id])
    } else {
        None
    }
}

/// Reading the cache after an order was recorded under an identifier gives
/// that order, and leaves what every other identifier gives unchanged.
pub proof fn lemma_read_after_record(
    entries: Map<u128, Order>,
    order_id: u128,
    order: Order,
    other_id: u128,
)
    ensures
        cached(entries.insert(order_id, order), order_id) == Some(order),
        other_id != order_id ==> cached(entries.insert(order_id, order), other_id) == cached(
            entries,
            other_id,
        ),
{
}

/// A submitted order awaiting validation may be confirmed to `New`; once
/// the confirmed order is recorded under its identifier, reading it from
/// the cache and asking again to move it to `New` is refused.
pub proof fn lemma_confirm_then_reconfirm(
    entries: Map<u128, Order>,
    order_id: u128,
    submitted: Order,
    confirmed: Order,
)
    requires
        submitted.order_status == OrderStatus::PendingValidation,
        confirmed.order_status == OrderStatus::New,
    ensures
        cached(entries.insert(order_id, submitted), order_id) == Some(submitted),
        !is_confirm_conflict(submitted.order_status, OrderStatus::New),
        cached(entries.insert(order_id, submitted).insert(order_id, confirmed), order_id) == Some(
            confirmed,
        ),
        is_confirm_conflict(confirmed.order_status, OrderStatus::New),
{
}

/// The orders that the engine has read or written, by identifier.
pub struct OrderCache {
    entries: HashMap<u128, Order>,
}

impl View for OrderCache {
    type V = Map<u128, Order>;

    closed spec fn view(&self) -> Map<u128, Order> {
        self.entries@
    }
}

impl OrderCache {
    /// An empty cache.
    pub fn new() -> (c: OrderCache)
        ensures
            c@ == Map::<u128, Order>::empty(),
    {
        OrderCache { entries: HashMap::new() }
    }

    /// The cached order with the identifier, if any.
    fn lookup(&self, order_id: u128) -> (r: Option<Order>)
        ensures
            r == cached(self@, order_id),
    {
        match self.entries.get(&order_id) {
            Some(order) => Some(order.clone()),
            None => None,
        }
    }

    /// Records that `order` is the current state of the order `order_id`.
    fn remember(&mut self, order_id: u128, order: Order)
        ensures
            final(self)@ == old(self)@.insert(order_id, order),
    {
        self.entries.insert(order_id, order);
    }

    /// Takes in the answer of the database to a lookup of `order_id` that the
    /// cache missed: a found order is cached and given back, a missing one
    /// is reported as missing, a failure becomes an engine error.
    pub fn record_fetched(&mut self, order_id: u128, fetched: Result<Option<Order>, DbError>) -> (r:
        Result<Option<Order>, EngineError>)
        ensures
            match fetched {
                Ok(Some(o)) => final(self)@ == old(self)@.insert(order_id, o) && r == Ok::<
                    Option<Order>,
                    EngineError,
                >(Some(o)),
                Ok(None) => final(self)@ == old(self)@ && r == Ok::<Option<Order>, EngineError>(
                    None,
                ),
                Err(e) => final(self)@ == old(self)@ && r == Err::<Option<Order>, EngineError>(
                    engine_error_of(e),
                ),
            },
    {
        match fetched {
            Ok(Some(order)) => {
                self.remember(order_id, order.clone());
                Ok(Some(order))
            },
            Ok(None) => Ok(None),
            Err(e) => Err(EngineError::from(e)),
        }
    }

    /// Takes in the stored state of the order `order_id` that the engine has
    /// just written (created or updated): it is cached and given back; an
    /// order that cannot be read back is not found, a failure becomes an
    /// engine error.
    pub fn record_stored(&mut self, order_id: u128, fetched: Result<Option<Order>, DbError>) -> (r:
        Result<Order, EngineError>)
        ensures
            match fetched {
                Ok(Some(o)) => final(self)@ == old(self)@.insert(order_id, o) && r == Ok::<
                    Order,
                    EngineError,
                >(o),
                Ok(None) => final(self)@ == old(self)@ && r == Err::<Order, EngineError>(
                    EngineError::OrderNotFound(order_id),
                ),
                Err(e) => final(self)@ == old(self)@ && r == Err::<Order, EngineError>(
                    engine_error_of(e),
                ),
            },
    {
        match fetched {
            Ok(Some(order)) => {
                self.remember(order_id, order.clone());
                Ok(order)
            },
            Ok(None) => Err(EngineError::OrderNotFound(order_id)),
            Err(e) => Err(EngineError::from(e)),
        }
    }
}


// The engine's operations, as steps.  Each operation starts from the cache
// or the request, and each step says which database work comes next; the
// caller performs it and hands the answer to the step that waits for it.

/// A read of an order that waits for the database's answer.
pub struct GetAwaitingOrder {
    order_id: u128,
}

/// What comes next in a read of an order.
pub enum GetNext {
    /// Read the order from the database.
    FetchOrder(GetAwaitingOrder),
    /// The read is over.
    Done(Result<Option<Order>, EngineError>),
}

impl GetAwaitingOrder {
    /// The order to read.
    pub closed spec fn order(self) -> u128 {
        self.order_id
    }

    pub fn order_id(&self) -> (r: u128)
        ensures
            r == self.order(),
    {
        self.order_id
    }

    /// Takes in the database's answer; a found order is cached.
    pub fn order_fetched(self, cache: &mut OrderCache, fetched: Result<Option<Order>, DbError>) -> (r:
        Result<Option<Order>, EngineError>)
        ensures
            match fetched {
                Ok(Some(o)) => final(cache)@ == old(cache)@.insert(self.order(), o) && r == Ok::<
                    Option<Order>,
                    EngineError,
                >(Some(o)),
                Ok(None) => final(cache)@ == old(cache)@ && r == Ok::<Option<Order>, EngineError>(
                    None,
                ),
                Err(e) => final(cache)@ == old(cache)@ && r == Err::<Option<Order>, EngineError>(
                    engine_error_of(e),
                ),
            },
    {
        cache.record_fetched(self.order_id, fetched)
    }
}

/// Starts reading the order `order_id`: the cache answers when it holds
/// the order; otherwise the order is read from the database.
pub fn begin_get(cache: &OrderCache, order_id: u128) -> (r: GetNext)
    ensures
        match cached(cache@, order_id) {
            Some(o) => r == GetNext::Done(Ok(Some(o))),
            None => r matches GetNext::FetchOrder(w) && w.order() == order_id,
        },
{
    match cache.lookup(order_id) {
        Some(order) => GetNext::Done(Ok(Some(order))),
        None => GetNext::FetchOrder(GetAwaitingOrder { order_id }),
    }
}

/// A submission whose order is to be inserted.
pub struct SubmitAwaitingInsert {
    initial_status: OrderStatus,
}

/// A submission that waits to read back the order it inserted.
pub struct SubmitAwaitingReadBack {
    order_id: u128,
}

/// What comes next in a submission.
pub enum SubmitNext {
    /// Insert the order, in the status given.
    InsertOrder(SubmitAwaitingInsert),
    /// Read back the inserted order.
    ReadBack(SubmitAwaitingReadBack),
    /// The submission is over.
    Done(Result<Order, EngineError>),
}

/// Starts a submission: a request that breaks a rule is refused before
/// anything is written; an accepted one is inserted awaiting validation.
pub fn begin_submit(req: &NewOrderRequest) -> (r: SubmitNext)
    ensures
        req.order_type != OrderType::Limit && req.order_quantity.is_positive() ==> r is InsertOrder,
        req.order_type == OrderType::Limit ==> (r is InsertOrder <==> (req.order_quantity.is_positive()
            && (req.price matches Some(p) && p.is_positive()))),
        !req.order_quantity.is_positive() ==> r is Done,
        r is InsertOrder <==> is_valid_request(*req),
        r matches SubmitNext::InsertOrder(w) ==> w.status() == OrderStatus::PendingValidation,
        !req.order_quantity.is_positive() ==> (r matches SubmitNext::Done(
            Err(EngineError::Validation(m)),
        ) && m@ == "Order quantity must be positive."@),
        req.order_quantity.is_positive() && !is_valid_request(*req) ==> (r matches SubmitNext::Done(
            Err(EngineError::Validation(m)),
        ) && m@ == "Price must be set and positive for a Limit order."@),
{
    match submission_status(req) {
        Ok(status) => SubmitNext::InsertOrder(SubmitAwaitingInsert { initial_status: status }),
        Err(e) => SubmitNext::Done(Err(e)),
    }
}

impl SubmitAwaitingInsert {
    /// The status to insert the order in.
    pub closed spec fn status(self) -> OrderStatus {
        self.initial_status
    }

    pub fn initial_status(&self) -> (r: OrderStatus)
        ensures
            r == self.status(),
    {
        self.initial_status
    }

    /// Takes in the database's answer to the insert: the identifier of the
    /// new order, which is then read back, or a failure.
    pub fn order_inserted(self, inserted: Result<u128, DbError>) -> (r: SubmitNext)
        ensures
            match inserted {
                Ok(id) => r matches SubmitNext::ReadBack(w) && w.order() == id,
                Err(e) => r == SubmitNext::Done(Err(engine_error_of(e))),
            },
    {
        match inserted {
            Ok(order_id) => SubmitNext::ReadBack(SubmitAwaitingReadBack { order_id }),
            Err(e) => SubmitNext::Done(Err(EngineError::from(e))),
        }
    }
}

impl SubmitAwaitingReadBack {
    /// The inserted order.
    pub closed spec fn order(self) -> u128 {
        self.order_id
    }

    pub fn order_id(&self) -> (r: u128)
        ensures
            r == self.order(),
    {
        self.order_id
    }

    /// Takes in the read-back order: it is cached and is the result of the
    /// submission.
    pub fn order_read_back(self, cache: &mut OrderCache, fetched: Result<Option<Order>, DbError>) -> (r:
        Result<Order, EngineError>)
        ensures
            match fetched {
                Ok(Some(o)) => final(cache)@ == old(cache)@.insert(self.order(), o) && r == Ok::<
                    Order,
                    EngineError,
                >(o),
                Ok(None) => final(cache)@ == old(cache)@ && r == Err::<Order, EngineError>(
                    EngineError::OrderNotFound(self.order()),
                ),
                Err(e) => final(cache)@ == old(cache)@ && r == Err::<Order, EngineError>(
                    engine_error_of(e),
                ),
            },
    {
        cache.record_stored(self.order_id, fetched)
    }
}

/// A confirmation that waits for the database's answer to a read of its
/// order.
pub struct ConfirmAwaitingOrder {
    order_id: u128,
    new_status: OrderStatus,
}

/// A confirmation whose status update is to be issued.
pub struct ConfirmAwaitingUpdate {
    order_id: u128,
    new_status: OrderStatus,
}

/// A confirmation that waits to read back its updated order.
pub struct ConfirmAwaitingReread {
    order_id: u128,
}

/// What comes next in a confirmation.
pub enum ConfirmNext {
    /// Read the order from the database.
    FetchOrder(ConfirmAwaitingOrder),
    /// Update the order's status.
    UpdateStatus(ConfirmAwaitingUpdate),
    /// Read back the updated order.
    RereadOrder(ConfirmAwaitingReread),
    /// The confirmation is over.
    Done(Result<Order, EngineError>),
}

/// `r` is what a confirmation of `order_id` to `new_status` does once the
/// order has been looked for: a missing order is not found, a refused
/// change is a conflict, and only an allowed change goes on to the update.
pub open spec fn confirm_decided(
    order_id: u128,
    new_status: OrderStatus,
    found: Option<Order>,
    r: ConfirmNext,
) -> bool {
    match found {
        None => r == ConfirmNext::Done(Err(EngineError::OrderNotFound(order_id))),
        Some(o) => if is_confirm_conflict(o.order_status, new_status) {
            r matches ConfirmNext::Done(Err(EngineError::UpdateConflict(m))) && m@ == conflict_message(
                order_id,
                o.order_status,
            )
        } else {
            r matches ConfirmNext::UpdateStatus(w) && w.order() == order_id && w.requested()
                == new_status
        },
    }
}

/// A confirmation issues its status update only for an order that was found
/// and whose change is allowed.
pub proof fn lemma_update_only_when_allowed(
    order_id: u128,
    new_status: OrderStatus,
    found: Option<Order>,
    r: ConfirmNext,
)
    requires
        confirm_decided(order_id, new_status, found, r),
        r is UpdateStatus,
    ensures
        found matches Some(o) && !is_confirm_conflict(o.order_status, new_status),
{
}

/// Decides a confirmation once the order has been looked for.
fn decide_confirm(order_id: u128, new_status: OrderStatus, found: Option<Order>) -> (r: ConfirmNext)
    ensures
        confirm_decided(order_id, new_status, found, r),
{
    match check_confirmable(order_id, found, new_status) {
        Ok(_) => ConfirmNext::UpdateStatus(ConfirmAwaitingUpdate { order_id, new_status }),
        Err(e) => ConfirmNext::Done(Err(e)),
    }
}

/// Starts a confirmation of `order_id` to `new_status`: the order is taken
/// from the cache when it holds it, otherwise it is read from the database.
pub fn begin_confirm(cache: &OrderCache, order_id: u128, new_status: OrderStatus) -> (r: ConfirmNext)
    ensures
        match cached(cache@, order_id) {
            Some(o) => confirm_decided(order_id, new_status, Some(o), r),
            None => r matches ConfirmNext::FetchOrder(w) && w.order() == order_id && w.requested()
                == new_status,
        },
{
    match cache.lookup(order_id) {
        Some(order) => decide_confirm(order_id, new_status, Some(order)),
        None => ConfirmNext::FetchOrder(ConfirmAwaitingOrder { order_id, new_status }),
    }
}

impl ConfirmAwaitingOrder {
    /// The order to confirm.
    pub closed spec fn order(self) -> u128 {
        self.order_id
    }

    /// The status asked for.
    pub closed spec fn requested(self) -> OrderStatus {
        self.new_status
    }

    pub fn order_id(&self) -> (r: u128)
        ensures
            r == self.order(),
    {
        self.order_id
    }

    /// Takes in the database's answer to the read of the order: a found
    /// order is cached, then the confirmation is decided on it.
    pub fn order_fetched(self, cache: &mut OrderCache, fetched: Result<Option<Order>, DbError>) -> (r:
        ConfirmNext)
        ensures
            match fetched {
                Ok(Some(o)) => final(cache)@ == old(cache)@.insert(self.order(), o)
                    && confirm_decided(self.order(), self.requested(), Some(o), r),
                Ok(None) => final(cache)@ == old(cache)@ && confirm_decided(
                    self.order(),
                    self.requested(),
                    None,
                    r,
                ),
                Err(e) => final(cache)@ == old(cache)@ && r == ConfirmNext::Done(
                    Err(engine_error_of(e)),
                ),
            },
    {
        match cache.record_fetched(self.order_id, fetched) {
            Ok(found) => decide_confirm(self.order_id, self.new_status, found),
            Err(e) => ConfirmNext::Done(Err(e)),
        }
    }
}

impl ConfirmAwaitingUpdate {
    /// The order to update.
    pub closed spec fn order(self) -> u128 {
        self.order_id
    }

    /// The status to write.
    pub closed spec fn requested(self) -> OrderStatus {
        self.new_status
    }

    pub fn order_id(&self) -> (r: u128)
        ensures
            r == self.order(),
    {
        self.order_id
    }

    pub fn new_status(&self) -> (r: OrderStatus)
        ensures
            r == self.requested(),
    {
        self.new_status
    }

    /// Takes in the database's answer to the update: the order is read back
    /// when a row changed; no changed row means the order is not found.
    pub fn status_updated(self, updated: Result<u64, DbError>) -> (r: ConfirmNext)
        ensures
            match updated {
                Ok(n) => if n == 0 {
                    r == ConfirmNext::Done(Err(EngineError::OrderNotFound(self.order())))
                } else {
                    r matches ConfirmNext::RereadOrder(w) && w.order() == self.order()
                },
                Err(e) => r == ConfirmNext::Done(Err(engine_error_of(e))),
            },
    {
        match status_update_outcome(self.order_id, updated) {
            Ok(()) => ConfirmNext::RereadOrder(ConfirmAwaitingReread { order_id: self.order_id }),
            Err(e) => ConfirmNext::Done(Err(e)),
        }
    }
}

impl ConfirmAwaitingReread {
    /// The updated order.
    pub closed spec fn order(self) -> u128 {
        self.order_id
    }

    pub fn order_id(&self) -> (r: u128)
        ensures
            r == self.order(),
    {
        self.order_id
    }

    /// Takes in the updated order read back: it is cached and is the result
    /// of the confirmation.
    pub fn order_reread(self, cache: &mut OrderCache, fetched: Result<Option<Order>, DbError>) -> (r:
        Result<Order, EngineError>)
        ensures
            match fetched {
                Ok(Some(o)) => final(cache)@ == old(cache)@.insert(self.order(), o) && r == Ok::<
                    Order,
                    EngineError,
                >(o),
                Ok(None) => final(cache)@ == old(cache)@ && r == Err::<Order, EngineError>(
                    EngineError::OrderNotFound(self.order()),
                ),
                Err(e) => final(cache)@ == old(cache)@ && r == Err::<Order, EngineError>(
                    engine_error_of(e),
                ),
            },
    {
        cache.record_stored(self.order_id, fetched)
    }
}

} // verus!
