//! A small "users" HTTP resource: routing on the request method, fetching a
//! user by id or the fixed list of users, and echoing a created user, with the
//! JSON text of every response stated exactly.

pub mod decimal;
pub mod json;
pub mod user;
pub mod routes;
