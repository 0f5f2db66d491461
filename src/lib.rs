//! A single-neuron, two-input linear classifier: threshold activation,
//! the decisions of the training loop, the logical-function data generator,
//! validation counts and the parsing of the command-line configuration.
//!
//! Single-precision values are carried as their IEEE-754 bit patterns (`u32`);
//! the ordering and equality of such values are defined and proved here.
pub mod bits32;
pub mod neuron;
pub mod config;
pub mod data;
pub mod generator;
