//! Request handling for the R2 file explorer edge worker: the log line written
//! for each request, the table of routes, and the replies those routes give.

pub mod text;
pub mod request_log;
pub mod routes;
pub mod reply;
pub mod service;
