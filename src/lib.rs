//! Puts several tool-providing backend processes behind one JSON-RPC
//! endpoint: their tools form one catalog under composite names
//! (`backend__tool`), and each call is routed to the backend that owns it.
//!
//! - `names`: composite tool names, and how they split.
//! - `protocol`: the JSON-RPC and tool-protocol data.
//! - `pending`: the requests of one connection that wait for a response.
//! - `connection`: the life of one connection and how its replies are read.
//! - `registry`: the connected backends, their combined catalog, routing.
//! - `router`: what the endpoint answers to each request.
//! - `config`: the stored list of backends.
//! - `error`: how work with backends fails.

use vstd::prelude::*;

pub mod config;
pub mod connection;
pub mod error;
pub mod names;
pub mod pending;
pub mod protocol;
pub mod registry;
pub mod router;
