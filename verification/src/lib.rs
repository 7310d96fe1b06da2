//! A minimal HTTP service model: one fixed route, `GET /hello`, answered with
//! a constant greeting, and `404 Not Found` for every other request.
//!
//! The request/response logic is verified here; the transport (binding a
//! listener, reading and writing sockets) lives outside the library.

pub mod http;
pub mod router;
