//! Error codes of Tower proof submission and the rendering of results of
//! Move view functions, with their contracts.

pub mod decimal;
pub mod tower_error;
pub mod query_view;
