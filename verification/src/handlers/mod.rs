//! The request handlers, as decisions between the storage steps that the
//! service performs for them.

pub mod admin;
pub mod authentication;
pub mod items;
pub mod users;
