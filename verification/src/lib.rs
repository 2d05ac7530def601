//! Decoding, filtering and forwarding rules of a bridge that republishes the
//! advertisements of environmental sensor tags to a message broker.

pub mod broker;
pub mod config;
pub mod decode_ruuvi;
pub mod dedup;
pub mod discovery;
pub mod filter;
pub mod ingest;
pub mod json;
pub mod monitor;
pub mod mqtt;
pub mod sensor_id;
pub mod sensor_set;
pub mod startup_info;
pub mod text;
