//! mnemo: the verified core of an AI companion agent that talks over messaging gateways.
pub mod text;
pub mod numeric;
pub mod wechat;
pub mod message;
pub mod deps;
pub mod qq;
pub mod config;
pub mod db;
pub mod llm;
pub mod agent;
pub mod run;
pub mod cli;
pub mod encoding;
