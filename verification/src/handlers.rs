//! The request-handling layer: the route table binding verbs and paths to
//! the five order operations, validation of decoded request bodies, one
//! handler per operation, and `handle`, which strings them together into a
//! single request step against a store.
//!
//! The HTTP transport and the JSON text are external collaborators: a
//! request arrives here already split into a verb, a matched path, and the
//! body's two fields as loosely typed values; a response leaves as a
//! status code and a body value still to be serialized.

use vstd::prelude::*;

use crate::error::CustomError;
use crate::error::HttpResponse;
use crate::error::ResponseBody;
use crate::error::map_store_err;
use crate::orders::Order;
use crate::orders::OrderStatus;
use crate::orders::spec_parse_status;
use crate::store::Row;
use crate::store::Store;
use crate::store::contains_id;
use crate::store::spec_find;
use crate::store::spec_find_index;
use crate::store::spec_get_order;
use crate::store::spec_orders_of;

verus! {

/// The HTTP verbs the service routes.
#[derive(Clone, Copy, Debug, PartialEq, Eq, Structural)]
pub enum Method {
    Get,
    Post,
    Patch,
    Delete,
}

/// A matched request path: the collection (`/orders`) or one item
/// (`/orders/{id}`).
#[derive(Clone, Copy, Debug, PartialEq, Eq, Structural)]
pub enum RequestPath {
    Collection,
    Item(i64),
}

/// The five operations the route table binds.
#[derive(Clone, Copy, Debug, PartialEq, Eq, Structural)]
pub enum Op {
    FetchAll,
    Create,
    FetchOne(i64),
    UpdateStatus(i64),
    Delete(i64),
}

/// The route table: which verb on which path performs which operation.
pub open spec fn spec_dispatch(method: Method, path: RequestPath) -> Option<Op> {
    match (method, path) {
        (Method::Get, RequestPath::Collection) => Some(Op::FetchAll),
        (Method::Post, RequestPath::Collection) => Some(Op::Create),
        (Method::Get, RequestPath::Item(id)) => Some(Op::FetchOne(id)),
        (Method::Patch, RequestPath::Item(id)) => Some(Op::UpdateStatus(id)),
        (Method::Delete, RequestPath::Item(id)) => Some(Op::Delete(id)),
        _ => None,
    }
}

/// Bind a verb and a matched path to an operation; `None` where the table
/// has no entry (a verb the path does not support).
pub fn dispatch(method: Method, path: RequestPath) -> (r: Option<Op>)
    ensures
        r == spec_dispatch(method, path),
{
    match (method, path) {
        (Method::Get, RequestPath::Collection) => Some(Op::FetchAll),
        (Method::Post, RequestPath::Collection) => Some(Op::Create),
        (Method::Get, RequestPath::Item(id)) => Some(Op::FetchOne(id)),
        (Method::Patch, RequestPath::Item(id)) => Some(Op::UpdateStatus(id)),
        (Method::Delete, RequestPath::Item(id)) => Some(Op::Delete(id)),
        _ => None,
    }
}

/// One field of a decoded JSON body, reduced to what the order routes can
/// meet: absent, an integer, a string, or present but of some other shape.
#[derive(Debug, Clone, PartialEq, Eq)]
pub enum FieldValue {
    Absent,
    Int(i64),
    Str(String),
    Malformed,
}

/// A request as this layer sees it: the verb, the matched path, and the
/// body's two possible fields.
#[derive(Debug, Clone)]
pub struct Request {
    pub method: Method,
    pub path: RequestPath,
    pub amount: FieldValue,
    pub status: FieldValue,
}

/// A malformed or semantically invalid input field, caught before any
/// store interaction; mapped to 422 with a body naming the field.
#[derive(Clone, Copy, Debug, PartialEq, Eq, Structural)]
pub enum ValidationError {
    InvalidAmount,
    InvalidStatus,
}

impl ValidationError {
    /// The stable body text naming the offending field.
    pub open spec fn spec_message(self) -> Seq<char> {
        match self {
            ValidationError::InvalidAmount => "amount: invalid value, expected an integer"@,
            ValidationError::InvalidStatus =>
                "status: unknown variant, expected one of pending, in-progress, complete, canceled"@,
        }
    }

    /// Map this validation failure to its HTTP response: always 422.
    pub fn into_response(self) -> (r: HttpResponse)
        ensures
            r.status == 422,
            r.body matches ResponseBody::Message(m) && m@ == self.spec_message(),
    {
        match self {
            ValidationError::InvalidAmount => HttpResponse {
                status: 422,
                body: ResponseBody::Message("amount: invalid value, expected an integer".to_owned()),
            },
            ValidationError::InvalidStatus => HttpResponse {
                status: 422,
                body: ResponseBody::Message(
                    "status: unknown variant, expected one of pending, in-progress, complete, canceled".to_owned(),
                ),
            },
        }
    }
}

/// Validation of the `status` field where the route requires one (PATCH):
/// it must be a string carrying one of the four canonical encodings.
pub open spec fn spec_validate_patch_status(f: FieldValue) -> Result<OrderStatus, ValidationError> {
    match f {
        FieldValue::Str(s) => match spec_parse_status(s@) {
            Some(status) => Ok(status),
            None => Err(ValidationError::InvalidStatus),
        },
        _ => Err(ValidationError::InvalidStatus),
    }
}

/// Validation of the `status` field of a POSTed order: absent defaults to
/// `Pending`; anything present must parse strictly.
pub open spec fn spec_validate_post_status(f: FieldValue) -> Result<OrderStatus, ValidationError> {
    match f {
        FieldValue::Absent => Ok(OrderStatus::Pending),
        _ => spec_validate_patch_status(f),
    }
}

/// Validation of a POSTed order body: `amount` must be an integer, the
/// optional `status` must parse strictly. The outcome is a never-persisted
/// order (no identifier): a POSTed body's own `id` field, if any, is
/// ignored.
pub open spec fn spec_validate_new_order(amount: FieldValue, status: FieldValue) -> Result<
    Order,
    ValidationError,
> {
    match amount {
        FieldValue::Int(a) => match spec_validate_post_status(status) {
            Ok(st) => Ok(Order { id: None, amount: a, status: st }),
            Err(e) => Err(e),
        },
        _ => Err(ValidationError::InvalidAmount),
    }
}

/// Validate the required `status` field of a PATCH body.
pub fn validate_patch_status(status: &FieldValue) -> (r: Result<OrderStatus, ValidationError>)
    ensures
        r == spec_validate_patch_status(*status),
{
    match status {
        FieldValue::Str(s) => match OrderStatus::parse(s.as_str()) {
            Some(st) => Ok(st),
            None => Err(ValidationError::InvalidStatus),
        },
        _ => Err(ValidationError::InvalidStatus),
    }
}

/// Validate a POSTed order body into a fresh, never-persisted order.
pub fn validate_new_order(amount: &FieldValue, status: &FieldValue) -> (r: Result<
    Order,
    ValidationError,
>)
    ensures
        r == spec_validate_new_order(*amount, *status),
{
    let amount_value = match amount {
        FieldValue::Int(a) => *a,
        _ => {
            return Err(ValidationError::InvalidAmount);
        },
    };
    let status_value = match status {
        FieldValue::Absent => OrderStatus::Pending,
        _ => match validate_patch_status(status) {
            Ok(st) => st,
            Err(e) => {
                return Err(e);
            },
        },
    };
    Ok(Order { id: None, amount: amount_value, status: status_value })
}

/// GET /orders: every persisted order, in insertion order.
pub fn get_orders(db: &Store) -> (r: Result<Vec<Order>, CustomError>)
    ensures
        r is Ok,
        r->Ok_0@ == spec_orders_of(db.rows@),
{
    map_store_err(Order::get_all(db))
}

/// GET /orders/{id}: the order, or `RecordNotFound` when no row carries
/// the identifier.
pub fn get_order_by_id(db: &Store, id: i64) -> (r: Result<Order, CustomError>)
    ensures
        contains_id(db.rows@, id) ==> r == Ok::<Order, CustomError>(
            spec_get_order(db.rows@, id)->0,
        ),
        !contains_id(db.rows@, id) ==> r == Err::<Order, CustomError>(CustomError::RecordNotFound),
{
    match map_store_err(Order::get_by_id(db, id)) {
        Ok(Some(order)) => Ok(order),
        Ok(None) => Err(CustomError::RecordNotFound),
        Err(e) => Err(e),
    }
}

/// POST /orders: persist a freshly validated order as a new row. The order
/// comes back carrying its assigned, previously-unused identifier.
pub fn create_order(db: &mut Store, order: &mut Order) -> (r: Result<(), CustomError>)
    requires
        old(db).wf(),
        old(db).next_id < i64::MAX,
        old(order).id is None,
    ensures
        final(db).wf(),
        r is Ok,
        final(order).id == Some(old(db).next_id),
        final(order).amount == old(order).amount,
        final(order).status == old(order).status,
        !contains_id(old(db).rows@, old(db).next_id),
        final(db).rows@ == old(db).rows@.push(
            Row { id: old(db).next_id, amount: old(order).amount, status: old(order).status },
        ),
        final(db).next_id == old(db).next_id + 1,
{
    match map_store_err(order.save(db)) {
        Ok(()) => Ok(()),
        Err(e) => Err(e),
    }
}

/// PATCH /orders/{id}: fetch the order, set the new status, save. The
/// amount is kept; a missing identifier is `RecordNotFound`, and the store
/// is then left unchanged.
pub fn update_order_status(db: &mut Store, id: i64, status: OrderStatus) -> (r: Result<
    (),
    CustomError,
>)
    requires
        old(db).wf(),
    ensures
        final(db).wf(),
        final(db).next_id == old(db).next_id,
        !contains_id(old(db).rows@, id) ==> r == Err::<(), CustomError>(CustomError::RecordNotFound)
            && final(db).rows@ == old(db).rows@,
        contains_id(old(db).rows@, id) ==> ({
            let idx = spec_find_index(old(db).rows@, id);
            let row = Row { id, amount: old(db).rows@[idx].amount, status };
            &&& r is Ok
            &&& final(db).rows@ == old(db).rows@.update(idx, row)
            &&& spec_find(final(db).rows@, id) == Some(row)
        }),
{
    proof {
        crate::store::lemma_find_index_spec(db.rows@, id);
    }
    match map_store_err(Order::get_by_id(db, id)) {
        Ok(Some(mut order)) => {
            order.status = status;
            match map_store_err(order.save(db)) {
                Ok(()) => Ok(()),
                Err(e) => Err(e),
            }
        },
        Ok(None) => Err(CustomError::RecordNotFound),
        Err(e) => Err(e),
    }
}

/// DELETE /orders/{id}: remove the row; deleting an absent identifier is
/// `RecordNotFound` and leaves the store unchanged.
pub fn delete_order(db: &mut Store, id: i64) -> (r: Result<(), CustomError>)
    requires
        old(db).wf(),
    ensures
        final(db).wf(),
        final(db).next_id == old(db).next_id,
        !contains_id(final(db).rows@, id),
        contains_id(old(db).rows@, id) ==> r is Ok && final(db).rows@ == old(db).rows@.remove(
            spec_find_index(old(db).rows@, id),
        ),
        !contains_id(old(db).rows@, id) ==> r == Err::<(), CustomError>(CustomError::RecordNotFound)
            && final(db).rows@ == old(db).rows@,
{
    match map_store_err(Order::delete_by_id(db, id)) {
        Ok(true) => Ok(()),
        Ok(false) => Err(CustomError::RecordNotFound),
        Err(e) => Err(e),
    }
}

/// One full request step against a store: route the verb and path, validate
/// the body where the route takes one, run the operation, and map the
/// outcome to a response.
///
/// The contract walks the route table. A verb without a table entry is 405.
/// Reads leave the store unchanged; a 422 or 404 leaves it unchanged too;
/// a successful POST appends one fresh row, a successful PATCH rewrites
/// exactly the addressed row's status, a successful DELETE removes exactly
/// the addressed row.
pub fn handle(db: &mut Store, req: Request) -> (r: HttpResponse)
    requires
        old(db).wf(),
        old(db).next_id < i64::MAX,
    ensures
        final(db).wf(),
        spec_dispatch(req.method, req.path) is None ==> r.status == 405 && old(db).same_state(*final(db)),
        spec_dispatch(req.method, req.path) == Some(Op::FetchAll) ==> r.status == 200 && *final(db)
            == *old(db) && (r.body matches ResponseBody::OrdersJson(orders) && orders@
            == spec_orders_of(old(db).rows@)),
        spec_dispatch(req.method, req.path) == Some(Op::Create) ==> ({
            let validated = spec_validate_new_order(req.amount, req.status);
            &&& (validated matches Err(e) ==> r.status == 422 && old(db).same_state(*final(db)) && (
            r.body matches ResponseBody::Message(m) && m@ == e.spec_message()))
            &&& (validated matches Ok(o) ==> ({
                let row = Row { id: old(db).next_id, amount: o.amount, status: o.status };
                &&& r.status == 200
                &&& (r.body matches ResponseBody::OrderJson(saved) && saved == row.as_order())
                &&& final(db).rows@ == old(db).rows@.push(row)
                &&& final(db).next_id == old(db).next_id + 1
            }))
        }),
        spec_dispatch(req.method, req.path) matches Some(Op::FetchOne(id)) ==> *final(db)
            == *old(db) && (match spec_get_order(old(db).rows@, id) {
            Some(o) => r.status == 200 && (r.body matches ResponseBody::OrderJson(found) && found
                == o),
            None => r.status == 404 && (r.body matches ResponseBody::Message(m) && m@
                == CustomError::RecordNotFound.spec_message()),
        }),
        spec_dispatch(req.method, req.path) matches Some(Op::UpdateStatus(id)) ==> ({
            let validated = spec_validate_patch_status(req.status);
            &&& (validated matches Err(e) ==> r.status == 422 && old(db).same_state(*final(db)) && (
            r.body matches ResponseBody::Message(m) && m@ == e.spec_message()))
            &&& (validated matches Ok(st) ==> {
                &&& (!contains_id(old(db).rows@, id) ==> r.status == 404 && old(db).same_state(*final(db))
                    && (r.body matches ResponseBody::Message(m) && m@
                        == CustomError::RecordNotFound.spec_message()))
                &&& (contains_id(old(db).rows@, id) ==> ({
                    let idx = spec_find_index(old(db).rows@, id);
                    let row = Row { id, amount: old(db).rows@[idx].amount, status: st };
                    &&& r.status == 200
                    &&& r.body is Empty
                    &&& final(db).rows@ == old(db).rows@.update(idx, row)
                    &&& spec_find(final(db).rows@, id) == Some(row)
                }))
            })
        }),
        spec_dispatch(req.method, req.path) matches Some(Op::Delete(id)) ==> ({
            &&& !contains_id(final(db).rows@, id)
            &&& (contains_id(old(db).rows@, id) ==> r.status == 200 && r.body is Empty
                && final(db).rows@ == old(db).rows@.remove(spec_find_index(old(db).rows@, id)))
            &&& (!contains_id(old(db).rows@, id) ==> r.status == 404 && old(db).same_state(*final(db))
                && (r.body matches ResponseBody::Message(m) && m@
                    == CustomError::RecordNotFound.spec_message()))
        }),
{
    match dispatch(req.method, req.path) {
        None => HttpResponse { status: 405, body: ResponseBody::Empty },
        Some(Op::FetchAll) => match get_orders(db) {
            Ok(orders) => HttpResponse { status: 200, body: ResponseBody::OrdersJson(orders) },
            Err(e) => e.into_response(),
        },
        Some(Op::Create) => match validate_new_order(&req.amount, &req.status) {
            Err(e) => e.into_response(),
            Ok(mut order) => match create_order(db, &mut order) {
                Ok(()) => HttpResponse { status: 200, body: ResponseBody::OrderJson(order) },
                Err(e) => e.into_response(),
            },
        },
        Some(Op::FetchOne(id)) => match get_order_by_id(db, id) {
            Ok(order) => HttpResponse { status: 200, body: ResponseBody::OrderJson(order) },
            Err(e) => e.into_response(),
        },
        Some(Op::UpdateStatus(id)) => match validate_patch_status(&req.status) {
            Err(e) => e.into_response(),
            Ok(status) => match update_order_status(db, id, status) {
                Ok(()) => HttpResponse { status: 200, body: ResponseBody::Empty },
                Err(e) => e.into_response(),
            },
        },
        Some(Op::Delete(id)) => match delete_order(db, id) {
            Ok(()) => HttpResponse { status: 200, body: ResponseBody::Empty },
            Err(e) => e.into_response(),
        },
    }
}

} // verus!
