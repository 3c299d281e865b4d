//! The KRunner runner: query recognition and the values that a match copies.

pub mod kmatch;
pub mod clock;
pub mod uuid;
pub mod rand;
pub mod time;
pub mod convert;
pub mod json;
pub mod data_convert;
pub mod media;
pub mod dispatch;
