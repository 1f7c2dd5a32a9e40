//! Form-state encoding, page decisions and routing for the server-rendered
//! authentication pages.

pub mod escape;
pub mod form_state;
pub mod pages;
pub mod query;
pub mod routes;
