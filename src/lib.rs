//! Admission control for a single airport: whether an aircraft may land or
//! take off, given occupancy, a capacity limit and the current weather.
pub mod controller;
pub mod occupancy;
pub mod plane;
pub mod weather;
