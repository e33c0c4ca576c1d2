//! Verified decision logic of the Cross-Lab runtime.

pub mod bytes;
pub mod pairing;
pub mod pairing_laws;
pub mod exchange;
pub mod exchange_laws;
pub mod text;
pub mod error;
pub mod time;
pub mod config;
pub mod command;
pub mod metrics;
pub mod candidate;
pub mod actor;
pub mod stream;
pub mod node;
pub mod status;
pub mod lines;
pub mod rendezvous;
pub mod bootstrap;
pub mod netns;
pub mod bridge;
pub mod record;
