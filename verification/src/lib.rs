//! Verified core of a small self-hosted object store: where objects live on
//! disk, who may call the API, what metadata an upload records, and how each
//! request handler reacts to the outcome of its storage and database steps.

pub mod auth;
pub mod config;
pub mod digest;
pub mod flow;
pub mod records;
pub mod status;
pub mod storage;
