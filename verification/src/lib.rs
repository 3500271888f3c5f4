//! Item and stat management for a game-item combination optimizer: the data
//! model, the text-entry rules, the interactive editor's state machine and the
//! combination enumeration used by the optimizer.

pub mod item;
pub mod text;
pub mod stats;
pub mod app;
pub mod event;
pub mod optimizer;
pub mod layout;
pub mod laws;
pub mod screen;
