//! Fibonacci terms computed two ways, with the bookkeeping that lets a display
//! follow the slow computation while it runs.

pub mod counter;
pub mod decimal;
pub mod input;
pub mod observer;
pub mod orchestrator;
pub mod ordinal;
pub mod progress;
pub mod report;
pub mod sequence;
