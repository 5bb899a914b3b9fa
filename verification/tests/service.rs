use order_service::error::{map_store_err, CustomError, HttpResponse, ResponseBody};
use order_service::handlers::{
    dispatch, handle, validate_new_order, validate_patch_status, FieldValue, Method, Op, Request,
    RequestPath, ValidationError,
};
use order_service::orders::{Order, OrderStatus};
use order_service::store::{Store, StoreError};

fn get_request(path: RequestPath) -> Request {
    Request { method: Method::Get, path, amount: FieldValue::Absent, status: FieldValue::Absent }
}

fn post_request(amount: FieldValue, status: FieldValue) -> Request {
    Request { method: Method::Post, path: RequestPath::Collection, amount, status }
}

fn patch_request(id: i64, status: FieldValue) -> Request {
    Request { method: Method::Patch, path: RequestPath::Item(id), amount: FieldValue::Absent, status }
}

fn delete_request(id: i64) -> Request {
    Request {
        method: Method::Delete,
        path: RequestPath::Item(id),
        amount: FieldValue::Absent,
        status: FieldValue::Absent,
    }
}

fn message_of(response: &HttpResponse) -> &str {
    match &response.body {
        ResponseBody::Message(m) => m.as_str(),
        _ => panic!("expected a message body"),
    }
}

#[test]
fn test_create_order() {
    let mut db = Store::new();

    let response = handle(&mut db, post_request(FieldValue::Int(500), FieldValue::Absent));

    assert_eq!(response.status, 200);
    let order = match response.body {
        ResponseBody::OrderJson(order) => order,
        _ => panic!("should serialise into an order"),
    };
    assert!(order.id.is_some());
}

#[test]
fn test_create_order_bad_input() {
    let mut db = Store::new();

    let response = handle(
        &mut db,
        post_request(
            FieldValue::Str("invalid amount".to_owned()),
            FieldValue::Str("invalid status".to_owned()),
        ),
    );

    assert_eq!(response.status, 422);
    // should say amount can't be used
    assert!(message_of(&response).contains("amount"));
}

#[test]
fn test_update_order_status() {
    let mut db = Store::new();

    let mut order = Order::new(500);
    order.save(&mut db).expect("order should save without error");
    let id = order.id.expect("should have id after save()");

    let response = handle(&mut db, patch_request(id, FieldValue::Str("complete".to_owned())));

    assert_eq!(response.status, 200);
    assert_eq!(response.body, ResponseBody::Empty);

    let order = Order::get_by_id(&db, id).unwrap();
    assert_eq!(order.unwrap().status, OrderStatus::Complete);
}

#[test]
fn test_update_order_status_not_found() {
    let mut db = Store::new();

    let response = handle(&mut db, patch_request(999, FieldValue::Str("complete".to_owned())));

    assert_eq!(response.status, 404);
}

#[test]
fn test_update_order_status_bad_input() {
    let mut db = Store::new();

    let mut order = Order::new(500);
    order.save(&mut db).expect("order should save without error");
    let id = order.id.expect("should have id after save()");

    let response = handle(&mut db, patch_request(id, FieldValue::Str("invalid-status".to_owned())));

    assert_eq!(response.status, 422);
    // should say unknown variant for the enum
    assert!(message_of(&response).contains("unknown variant"));
}

#[test]
fn test_get_order_by_id() {
    let mut db = Store::new();

    let mut order = Order::new(500);
    order.save(&mut db).expect("order should save without error");
    let id = order.id.expect("should have id after save()");

    let response = handle(&mut db, get_request(RequestPath::Item(id)));

    assert_eq!(response.status, 200);
    let response_order = match response.body {
        ResponseBody::OrderJson(found) => found,
        _ => panic!("should serialise into an order"),
    };
    assert_eq!(response_order.id, order.id);
}

#[test]
fn test_get_order_by_id_not_found() {
    let mut db = Store::new();

    let response = handle(&mut db, get_request(RequestPath::Item(999)));

    assert_eq!(response.status, 404);
}

#[test]
fn main_test_get_all_orders() {
    let mut db = Store::new();

    for _ in 0..5 {
        let mut order = Order::new(500);
        order.save(&mut db).expect("order should save without error");
    }

    let response = handle(&mut db, get_request(RequestPath::Collection));

    assert_eq!(response.status, 200);
    let orders = match response.body {
        ResponseBody::OrdersJson(orders) => orders,
        _ => panic!("should serialise into an order"),
    };
    assert_eq!(orders.len(), 5);
}

#[test]
fn test_delete_order() {
    let mut db = Store::new();

    let mut order = Order::new(500);
    order.save(&mut db).expect("order should save without error");
    let id = order.id.expect("should have id after save()");

    let response = handle(&mut db, delete_request(id));

    assert_eq!(response.status, 200);

    let result = Order::get_by_id(&db, id).unwrap();
    assert!(result.is_none());
}

#[test]
fn test_delete_order_not_found() {
    let mut db = Store::new();

    let response = handle(&mut db, delete_request(999));

    assert_eq!(response.status, 404);
}

#[test]
fn test_server_error() {
    // the in-memory table cannot fail, so hand the mapping a failed store
    // outcome directly, as a broken engine would produce it
    let outcome: Result<Vec<Order>, StoreError> = Err(StoreError);

    let error = map_store_err(outcome).unwrap_err();
    let response = error.into_response();

    assert_eq!(response.status, 500);
    assert!(message_of(&response).contains("Something went wrong!"));
}

#[test]
fn test_save_and_get_order() {
    let mut db = Store::new();

    let mut order = Order::new(500);
    order.save(&mut db).expect("order should save without error");

    let fresh_order = Order::get_by_id(&db, order.id.expect("order should have id after saved"))
        .expect("query should run without error")
        .expect("order should have been found");

    assert_eq!(order.amount, fresh_order.amount);

    order.amount = 900;
    order.save(&mut db).expect("order should save without error");

    let fresh_order = Order::get_by_id(&db, order.id.expect("order should have id after saved"))
        .expect("query should run without error")
        .expect("order should have been found");

    assert_eq!(900, fresh_order.amount);
}

#[test]
fn test_get_by_id_none_if_not_exist() {
    let db = Store::new();

    let result = Order::get_by_id(&db, 999).expect("should not error");

    assert!(result.is_none());
}

#[test]
fn orders_test_get_all_orders() {
    let mut db = Store::new();

    for _ in 0..5 {
        let mut order = Order::new(500);
        order.save(&mut db).expect("order should save without error");
    }

    let results = Order::get_all(&db).expect("should not error");

    assert_eq!(results.len(), 5);
}

#[test]
fn test_new_order_has_pending_status_and_fresh_id() {
    let mut db = Store::new();

    let order = Order::new(42);
    assert_eq!(order.id, None);
    assert_eq!(order.status, OrderStatus::Pending);
    assert_eq!(order.amount, 42);

    let mut first = Order::new(1);
    first.save(&mut db).unwrap();
    let mut second = Order::new(2);
    second.save(&mut db).unwrap();

    // each save assigns a previously-unused identifier
    assert_eq!(first.id, Some(1));
    assert_eq!(second.id, Some(2));
    assert_ne!(first.id, second.id);
}

#[test]
fn test_status_encoding_round_trip() {
    let all = [
        OrderStatus::Pending,
        OrderStatus::InProgress,
        OrderStatus::Complete,
        OrderStatus::Canceled,
    ];
    for status in all {
        let text = status.to_string();
        assert_eq!(OrderStatus::parse(text.as_str()), Some(status));
        assert_eq!(OrderStatus::from(text), status);
    }
    assert_eq!(OrderStatus::Pending.to_string(), "pending");
    assert_eq!(OrderStatus::InProgress.to_string(), "in-progress");
    assert_eq!(OrderStatus::Complete.to_string(), "complete");
    assert_eq!(OrderStatus::Canceled.to_string(), "canceled");
}

#[test]
fn test_status_decoding_defaults_to_pending() {
    assert_eq!(OrderStatus::from("shipped".to_owned()), OrderStatus::Pending);
    assert_eq!(OrderStatus::from("".to_owned()), OrderStatus::Pending);
    assert_eq!(OrderStatus::from("Complete".to_owned()), OrderStatus::Pending);
    assert_eq!(OrderStatus::parse("shipped"), None);
    assert_eq!(OrderStatus::default(), OrderStatus::Pending);
}

#[test]
fn test_post_without_status_defaults_to_pending() {
    let order = validate_new_order(&FieldValue::Int(7), &FieldValue::Absent).unwrap();
    assert_eq!(order.id, None);
    assert_eq!(order.amount, 7);
    assert_eq!(order.status, OrderStatus::Pending);
}

#[test]
fn test_create_order_with_explicit_status() {
    let mut db = Store::new();

    let response = handle(
        &mut db,
        post_request(FieldValue::Int(250), FieldValue::Str("in-progress".to_owned())),
    );

    assert_eq!(response.status, 200);
    let order = match response.body {
        ResponseBody::OrderJson(order) => order,
        _ => panic!("expected the created order back"),
    };
    assert_eq!(order, Order { id: Some(1), amount: 250, status: OrderStatus::InProgress });
}

#[test]
fn test_post_with_missing_or_malformed_amount() {
    assert_eq!(
        validate_new_order(&FieldValue::Absent, &FieldValue::Absent),
        Err(ValidationError::InvalidAmount)
    );
    assert_eq!(
        validate_new_order(&FieldValue::Malformed, &FieldValue::Absent),
        Err(ValidationError::InvalidAmount)
    );

    let mut db = Store::new();
    let response = handle(&mut db, post_request(FieldValue::Absent, FieldValue::Absent));
    assert_eq!(response.status, 422);
    assert!(message_of(&response).contains("amount"));
}

#[test]
fn test_patch_without_status_is_rejected() {
    assert_eq!(validate_patch_status(&FieldValue::Absent), Err(ValidationError::InvalidStatus));
    assert_eq!(validate_patch_status(&FieldValue::Int(3)), Err(ValidationError::InvalidStatus));

    let mut db = Store::new();
    let mut order = Order::new(500);
    order.save(&mut db).unwrap();

    let response = handle(&mut db, patch_request(order.id.unwrap(), FieldValue::Absent));
    assert_eq!(response.status, 422);
    assert!(message_of(&response).contains("status"));
}

#[test]
fn test_dispatch_table() {
    assert_eq!(dispatch(Method::Get, RequestPath::Collection), Some(Op::FetchAll));
    assert_eq!(dispatch(Method::Post, RequestPath::Collection), Some(Op::Create));
    assert_eq!(dispatch(Method::Get, RequestPath::Item(7)), Some(Op::FetchOne(7)));
    assert_eq!(dispatch(Method::Patch, RequestPath::Item(7)), Some(Op::UpdateStatus(7)));
    assert_eq!(dispatch(Method::Delete, RequestPath::Item(7)), Some(Op::Delete(7)));
    assert_eq!(dispatch(Method::Patch, RequestPath::Collection), None);
    assert_eq!(dispatch(Method::Delete, RequestPath::Collection), None);
    assert_eq!(dispatch(Method::Post, RequestPath::Item(7)), None);

    let mut db = Store::new();
    let response = handle(
        &mut db,
        Request {
            method: Method::Post,
            path: RequestPath::Item(7),
            amount: FieldValue::Absent,
            status: FieldValue::Absent,
        },
    );
    assert_eq!(response.status, 405);
}

#[test]
fn test_unassigned_identifier_yields_404_everywhere() {
    let mut db = Store::new();

    let patch = handle(&mut db, patch_request(999, FieldValue::Str("complete".to_owned())));
    let get = handle(&mut db, get_request(RequestPath::Item(999)));
    let delete = handle(&mut db, delete_request(999));

    assert_eq!(patch.status, 404);
    assert_eq!(get.status, 404);
    assert_eq!(delete.status, 404);
    assert_eq!(message_of(&get), "404 Record not found");
}

#[test]
fn test_delete_absent_id_is_signalled_not_an_error() {
    let mut db = Store::new();

    let deleted = Order::delete_by_id(&mut db, 999).expect("should not error");

    assert!(!deleted);
    assert_eq!(Order::get_all(&db).unwrap().len(), 0);
}

#[test]
fn test_update_of_deleted_id_is_a_silent_noop() {
    let mut db = Store::new();

    let mut order = Order::new(500);
    order.save(&mut db).unwrap();
    let id = order.id.unwrap();
    assert!(Order::delete_by_id(&mut db, id).unwrap());

    // saving an order whose row is gone neither errors nor resurrects it
    order.amount = 900;
    order.save(&mut db).expect("update of a missing row should not error");
    assert!(Order::get_by_id(&db, id).unwrap().is_none());
    assert_eq!(Order::get_all(&db).unwrap().len(), 0);
}

#[test]
fn test_error_response_mapping() {
    let not_found = CustomError::RecordNotFound.into_response();
    assert_eq!(not_found.status, 404);
    assert_eq!(message_of(&not_found), "404 Record not found");

    let other = CustomError::Other(StoreError).into_response();
    assert_eq!(other.status, 500);
    assert_eq!(message_of(&other), "Something went wrong!");
}

#[test]
fn test_full_order_lifecycle_over_http() {
    let mut db = Store::new();

    // POST {"amount": 500}
    let response = handle(&mut db, post_request(FieldValue::Int(500), FieldValue::Absent));
    assert_eq!(response.status, 200);
    let created = match response.body {
        ResponseBody::OrderJson(order) => order,
        _ => panic!("expected the created order back"),
    };
    assert_eq!(created, Order { id: Some(1), amount: 500, status: OrderStatus::Pending });
    assert_eq!(created.status.to_string(), "pending");

    // PATCH /orders/1 {"status": "complete"}
    let response = handle(&mut db, patch_request(1, FieldValue::Str("complete".to_owned())));
    assert_eq!(response.status, 200);
    assert_eq!(response.body, ResponseBody::Empty);

    // GET /orders/1
    let response = handle(&mut db, get_request(RequestPath::Item(1)));
    assert_eq!(response.status, 200);
    let fetched = match response.body {
        ResponseBody::OrderJson(order) => order,
        _ => panic!("expected the order back"),
    };
    assert_eq!(fetched, Order { id: Some(1), amount: 500, status: OrderStatus::Complete });

    // DELETE /orders/1, then GET /orders/1
    let response = handle(&mut db, delete_request(1));
    assert_eq!(response.status, 200);
    let response = handle(&mut db, get_request(RequestPath::Item(1)));
    assert_eq!(response.status, 404);
}
