//! The WeChat gateway: the iLink bot protocol, its client and its polling decisions.
pub mod types;
pub mod gateway;
pub mod client;
