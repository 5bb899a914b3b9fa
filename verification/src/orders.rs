//! The order entity and its status lifecycle.
//!
//! An order carries an optional identifier (absent until the store first
//! persists it), an integer amount, and a status drawn from a closed set of
//! four values. Statuses are stored and transmitted as lowercase, hyphenated
//! strings; decoding is total: any unrecognized string falls back to
//! `Pending` rather than failing.

use vstd::prelude::*;

verus! {

/// The closed set of states an order may hold. There is no transition
/// graph: any status may be replaced by any other via a save.
#[derive(Clone, Copy, Debug, PartialEq, Eq, Structural)]
pub enum OrderStatus {
    Pending,
    InProgress,
    Complete,
    Canceled,
}

/// The textual encoding of a status, as it appears both in storage and on
/// the wire.
pub open spec fn spec_status_str(s: OrderStatus) -> Seq<char> {
    match s {
        OrderStatus::Pending => "pending"@,
        OrderStatus::InProgress => "in-progress"@,
        OrderStatus::Complete => "complete"@,
        OrderStatus::Canceled => "canceled"@,
    }
}

/// Strict decoding: `Some` exactly on the four canonical strings.
pub open spec fn spec_parse_status(s: Seq<char>) -> Option<OrderStatus> {
    if s == spec_status_str(OrderStatus::Pending) {
        Some(OrderStatus::Pending)
    } else if s == spec_status_str(OrderStatus::InProgress) {
        Some(OrderStatus::InProgress)
    } else if s == spec_status_str(OrderStatus::Complete) {
        Some(OrderStatus::Complete)
    } else if s == spec_status_str(OrderStatus::Canceled) {
        Some(OrderStatus::Canceled)
    } else {
        None
    }
}

/// Defaulting decoding, as used for values read back from storage: any
/// string outside the four canonical ones decodes to `Pending`.
pub open spec fn spec_status_of_str(s: Seq<char>) -> OrderStatus {
    match spec_parse_status(s) {
        Some(status) => status,
        None => OrderStatus::Pending,
    }
}

impl OrderStatus {
    /// Encode this status as its canonical lowercase, hyphenated string.
    pub fn to_string(&self) -> (r: String)
        ensures
            r@ == spec_status_str(*self),
    {
        match self {
            OrderStatus::Pending => "pending".to_owned(),
            OrderStatus::InProgress => "in-progress".to_owned(),
            OrderStatus::Complete => "complete".to_owned(),
            OrderStatus::Canceled => "canceled".to_owned(),
        }
    }

    /// Strict parse of a status string: succeeds exactly on the four
    /// canonical encodings.
    pub fn parse(s: &str) -> (r: Option<OrderStatus>)
        ensures
            r == spec_parse_status(s@),
    {
        let owned = s.to_owned();
        if owned == "pending".to_owned() {
            Some(OrderStatus::Pending)
        } else if owned == "in-progress".to_owned() {
            Some(OrderStatus::InProgress)
        } else if owned == "complete".to_owned() {
            Some(OrderStatus::Complete)
        } else if owned == "canceled".to_owned() {
            Some(OrderStatus::Canceled)
        } else {
            None
        }
    }

    /// Defaulting decode of a stored status string: unrecognized (legacy)
    /// values decode to `Pending` rather than failing.
    pub fn from(value: String) -> (r: OrderStatus)
        ensures
            r == spec_status_of_str(value@),
    {
        match OrderStatus::parse(value.as_str()) {
            Some(status) => status,
            None => OrderStatus::Pending,
        }
    }
}

impl Default for OrderStatus {
    /// A status defaults to `Pending` when none is given.
    fn default() -> (r: OrderStatus)
        ensures
            r == OrderStatus::Pending,
    {
        OrderStatus::Pending
    }
}

/// The encoding is bidirectional and lossless for the four canonical
/// values: strict parsing inverts encoding, and so does the defaulting
/// decode used for storage.
pub proof fn lemma_status_round_trip(status: OrderStatus)
    ensures
        spec_parse_status(spec_status_str(status)) == Some(status),
        spec_status_of_str(spec_status_str(status)) == status,
{
    reveal_strlit("pending");
    reveal_strlit("in-progress");
    reveal_strlit("complete");
    reveal_strlit("canceled");
    assert("pending"@.len() == 7);
    assert("in-progress"@.len() == 11);
    assert("complete"@.len() == 8);
    assert("canceled"@.len() == 8);
    assert("complete"@[1] != "canceled"@[1]);
}

/// The sole entity: an order with an optional identifier (absent until the
/// store first persists it), an integer amount, and a status.
#[derive(Clone, Copy, Debug, PartialEq, Eq)]
pub struct Order {
    pub id: Option<i64>,
    pub amount: i64,
    pub status: OrderStatus,
}

impl Default for Order {
    /// An order that was never persisted: no identifier, zero amount,
    /// status `Pending`.
    fn default() -> (r: Order)
        ensures
            r.id is None,
            r.amount == 0,
            r.status == OrderStatus::Pending,
    {
        Order { id: None, amount: 0, status: OrderStatus::Pending }
    }
}

impl Order {
    /// A fresh, never-persisted order: no identifier yet, and the status
    /// defaulted to `Pending`.
    pub fn new(amount: i64) -> (r: Order)
        ensures
            r.id is None,
            r.amount == amount,
            r.status == OrderStatus::Pending,
    {
        Order { id: None, amount, status: OrderStatus::Pending }
    }
}

} // verus!
