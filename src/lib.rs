//! A live topology graph of a radio mesh network, built and refreshed from
//! neighbor reports, node announcements and position reports.
//!
//! `graph` holds the store and its abstract view, `update` the three
//! packet-driven operations with their exact effects, and `laws` what those
//! operations guarantee together.
pub mod keyed;
pub mod model;
pub mod graph;
mod clock;
pub mod update;
pub mod laws;
