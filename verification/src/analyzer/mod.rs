//! CAN bus analyzer: what a passive sniffer keeps of the traffic, and the
//! bounded snapshots it hands out.
//!
//! Every captured frame goes into a fixed-size ring of recent frames (the trace)
//! and into cumulative per-identifier statistics (the aggregates). The caller
//! polls both; the trace by a cursor of sequence numbers.

pub mod health;
pub mod keyset;
pub mod laws;
pub mod model;
pub mod poll;
pub mod record;
pub mod session;
pub mod state;
