//! A recency-tracked triple-buffer channel for a predator/prey artificial-life
//! simulation.
//!
//! A simulation backend produces population snapshots at its own pace while a
//! renderer consumes them at display rate. The channel mediates between the
//! two: the consumer always observes the most recently *completed* snapshot,
//! the producer never waits for the consumer, and no partially written
//! snapshot is ever observed. Data lives in three fixed slots; promotion is
//! always a copy of payload bytes between slots, never a relabeling of which
//! slot plays which role.

pub mod carriage;
pub mod dataset;
pub mod display;
pub mod flipbook;
pub mod settings;
pub mod shaders;
