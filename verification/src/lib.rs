//! The request/response core of a small CRUD service over one resource, the
//! meetup: what is asked of the relational store for each operation, and what
//! is answered to the client for each thing the store can say.
//!
//! Nothing here touches a socket or a database. A handler comes in two parts:
//! a [`store::StoreQuery`] to run, and a function from what the store said to
//! the [`response::Response`] to send. The caller does the running and the
//! sending.

pub mod decimal;
pub mod error;
pub mod handlers;
pub mod models;
pub mod response;
pub mod schemas;
pub mod store;
pub mod table;
