//! The build that is played on the training golem: its skills and casts,
//! its gear, and what the events of a fight do to it.

pub mod cast;
pub mod character;
pub mod events;
pub mod gear;
pub mod skill;
