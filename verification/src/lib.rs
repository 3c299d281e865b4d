//! Developer tools: KRunner query recognition (UUIDs, random strings, times,
//! timestamp conversion, JSON and media tool entries), the shared tool model, and
//! the GUI worker's decisions, checks and readers.

pub mod text;
pub mod runner;
pub mod model;
pub mod tools;
pub mod worker;
