//! Verified core of the Webby backend: request decisions, credential
//! checks, input validation and response codes, independent of the web
//! framework, the database and the token format that carry them.

pub mod auth;
pub mod decimal;
pub mod errors;
pub mod models;
pub mod validation;
pub mod handlers;
