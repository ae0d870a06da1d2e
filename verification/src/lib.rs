pub mod args;
pub mod generator;
pub mod json;
pub mod monitor;
pub mod schedule;
pub mod shared;
pub mod snapshot;
pub mod text;
