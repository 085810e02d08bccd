//! Decoding of arcdps combat logs and the encounter analysis built on it:
//! who the boss was, where the phases of the fight lie, and whether the
//! group won.

pub mod filter;
pub mod golem;
pub mod log;
pub mod message;
pub mod parse;
pub mod sender;
pub mod target;
pub mod text;
