//! Host metrics: record types for OS snapshots, a single-flight cache shared
//! between owners, and the counter arithmetic behind time-windowed sampling.

pub mod args;
pub mod error;
pub mod records;
pub mod cache;
pub mod sampling;
pub mod network;
pub mod interrupts;
pub mod facade;
