//! A locally bound lookup server for user contact records: the routing,
//! request decoding, response encoding and lifecycle decisions, each with a
//! contract. Sockets, threads and the backing store are driven by the caller.

pub mod config;
pub mod form;
pub mod json;
pub mod lifecycle;
pub mod records;
pub mod router;
pub mod shutdown;
pub mod stats;
pub mod text;
