//! Core of a load-testing tool: the bookkeeping of a load run and the
//! request/reply protocol that agents speak with a relay.

pub mod address;
pub mod commands;
pub mod config;
pub mod correlator;
pub mod json;
pub mod protocol;
pub mod stats;
pub mod text;
pub mod websocket;
