//! Transcript block reconciliation: an ordered store of speaker-attributed
//! blocks of timed words, and the rules by which update messages change it.

pub mod block;
pub mod commands;
pub mod engine;
pub mod laws;
pub mod messages;
pub mod model;
pub mod naming;
pub mod navigation;
pub mod relay;
pub mod store;
pub mod text;
pub mod word;
