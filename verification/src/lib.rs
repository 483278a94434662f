//! A status line assembled from four independently refreshed indicators.
//!
//! The crate holds the indicator store, the rules that turn raw readings into
//! display text, and the decisions of the producer and aggregator cycles.
//! Running the cycles (tasks, sleeping, talking to the display) is left to the
//! program that links this crate.

pub mod battery;
pub mod clock;
pub mod cycle;
pub mod network;
pub mod numbers;
pub mod store;
pub mod text;
pub mod volume;
