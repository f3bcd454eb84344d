//! Edge-side request routing: classification of inbound requests, the static
//! asset table, dispatch decisions and correlated log records.

pub mod text;
pub mod request;
pub mod assets;
pub mod route;
pub mod correlate;

