//! Request models of the narrow-field endpoints.

pub mod date_request;
