//! The command surface served over HTTP.

pub mod http;
pub mod router;
