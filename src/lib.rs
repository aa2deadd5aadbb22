//! Request/response rules of a small notes service: the error taxonomy, the
//! note model and request schemas, and the decisions each handler makes
//! around its database call.

pub mod error;
pub mod model;
pub mod schema;
pub mod handler;
pub mod lemmas;
