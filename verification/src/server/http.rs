//! Routing of requests and the replies to them.

pub mod http_router;
pub mod http_routes;
pub mod http_server;
