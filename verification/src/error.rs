//! The failure taxonomy and its mapping to HTTP responses.
//!
//! Two failure kinds reach the HTTP layer: a lookup that legitimately
//! found nothing (404, fixed body), and an opaque store failure (500,
//! fixed body leaking no internal detail). Validation failures of a
//! request body carry their own mapping to 422; see the handlers module.

use vstd::prelude::*;

use crate::orders::Order;
use crate::store::StoreError;

verus! {

/// A failure surfaced by a handler.
#[derive(Clone, Copy, Debug, PartialEq, Eq, Structural)]
pub enum CustomError {
    /// A lookup yielded nothing: expected, mapped to 404.
    RecordNotFound,
    /// Any underlying store failure: opaque, mapped to 500.
    Other(StoreError),
}

/// What a response carries. Orders leave this layer as values; turning
/// them into JSON text is the serialization collaborator's work.
#[derive(Debug, PartialEq, Eq)]
pub enum ResponseBody {
    Empty,
    Message(String),
    OrderJson(Order),
    OrdersJson(Vec<Order>),
}

/// An HTTP response: a status code and a body.
#[derive(Debug, PartialEq, Eq)]
pub struct HttpResponse {
    pub status: u16,
    pub body: ResponseBody,
}

impl CustomError {
    /// The status code this failure maps to.
    pub open spec fn spec_status(self) -> u16 {
        match self {
            CustomError::RecordNotFound => 404,
            CustomError::Other(_) => 500,
        }
    }

    /// The fixed, stable body text this failure maps to. It never echoes
    /// input and never exposes internal diagnostics.
    pub open spec fn spec_message(self) -> Seq<char> {
        match self {
            CustomError::RecordNotFound => "404 Record not found"@,
            CustomError::Other(_) => "Something went wrong!"@,
        }
    }

    /// Map this failure to its HTTP response.
    pub fn into_response(self) -> (r: HttpResponse)
        ensures
            r.status == self.spec_status(),
            r.body matches ResponseBody::Message(m) && m@ == self.spec_message(),
    {
        match self {
            CustomError::RecordNotFound => HttpResponse {
                status: 404,
                body: ResponseBody::Message("404 Record not found".to_owned()),
            },
            CustomError::Other(_) => HttpResponse {
                status: 500,
                body: ResponseBody::Message("Something went wrong!".to_owned()),
            },
        }
    }
}

/// Propagate a store outcome: success passes through, any store failure
/// becomes the opaque server-side failure.
pub fn map_store_err<T>(r: Result<T, StoreError>) -> (out: Result<T, CustomError>)
    ensures
        out is Ok <==> r is Ok,
        r is Ok ==> out->Ok_0 == r->Ok_0,
        r is Err ==> out->Err_0 == CustomError::Other(r->Err_0),
{
    match r {
        Ok(v) => Ok(v),
        Err(e) => Err(CustomError::Other(e)),
    }
}

} // verus!
