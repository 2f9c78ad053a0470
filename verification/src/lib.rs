//! A request-capture sink: the rules by which inbound requests are recorded in a
//! bounded log, paged for inspection, routed to configured templates and sealed for
//! durable storage.

pub mod body;
pub mod capture;
pub mod clock;
pub mod config;
pub mod name_map;
pub mod paginate;
pub mod persist;
pub mod query;
pub mod raw;
pub mod record;
pub mod reply;
pub mod request_log;
pub mod routes;
pub mod serve;
pub mod target;
pub mod text;
