//! Client library for the Holiday API web service: credential and version
//! validation, request builders for the five read-only endpoints, and the
//! classification of the service's replies.
pub mod api;
pub mod error;
pub mod query;
pub mod request;
pub mod response;
pub mod text;
pub mod validate;
