//! The deterministic core of a small arcade game: the per-key input state
//! machine, the mapping from raw input events to logical controls, and
//! the decisions of the frame loop.

pub mod events;
pub mod frame;
pub mod keys;
