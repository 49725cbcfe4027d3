//! The verified core of a Geiger-counter instrument: the sliding window of
//! pulse timestamps, the rate and dose-rate estimate drawn from it, and the
//! integer side of the boost-converter regulator.

pub mod boost;
pub mod counter;
pub mod fraction;
pub mod history;
pub mod rate;
pub mod ring;
pub mod uart;
