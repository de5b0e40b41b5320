//! Market-data and account-event ingestion for a derivatives exchange:
//! symbol partitioning, a price cache, a resilient stream state machine,
//! request signing, session renewal and event decoding.

pub mod bookticker;
pub mod decimal;
pub mod json;
pub mod messages;
pub mod models;
pub mod partition;
pub mod price_cache;
pub mod rest;
pub mod session;
pub mod supervisor;
pub mod text;
