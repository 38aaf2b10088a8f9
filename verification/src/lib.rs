//! Verified core of a Solana indexing pipeline: instruction and event
//! decoders, account arrangement, datasource dispatch decisions and
//! in-memory metrics bookkeeping.

pub mod keys;
pub mod codec;
pub mod account_meta;
pub mod decoders;
pub mod datasource;
pub mod grpc_config;
pub mod name_table;
pub mod metrics;
