//! A small server-rendered web service: the request-context middleware, its
//! error type, and the handlers' decisions, stated over plain values.

pub mod context;
pub mod error;
pub mod handlers;
pub mod middleware;
pub mod models;
pub mod response;
pub mod templates;
