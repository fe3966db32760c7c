//! A synthetic sentiment feed for a fixed set of financial instruments.
//!
//! Every quantity that the feed computes is a fixed-point number counted in
//! millionths, the resolution of the six-digit decimal text that goes out on
//! the wire. The engine, the value store and the datagram contents are plain
//! state transitions here; timers, threads and sockets belong to the caller.

pub mod broadcaster;
pub mod config;
pub mod engine;
pub mod laws;
pub mod mood;
pub mod noise;
pub mod service;
pub mod stock;
pub mod store;
pub mod units;
pub mod window;
pub mod wire;
