//! A small order-management library: the order entity with its status
//! lifecycle, an insert-or-update key-row store for orders, the request
//! handlers that map the five order routes onto that store, and the
//! mapping from failures to HTTP status codes and response bodies.

pub mod error;
pub mod handlers;
pub mod orders;
pub mod store;
