//! Protocol bridge for a legacy game backend: request recognition, routing,
//! the shard registry and the plaintext wire formats, with verified contracts.

pub mod auth;
pub mod config;
pub mod database;
pub mod query;
pub mod request;
pub mod response;
pub mod server;
pub mod shard_list;
pub mod text;
