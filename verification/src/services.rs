//! System services.

pub mod am;
pub mod cfgu;
pub mod fs;
pub mod ndsp;
pub mod ptmu;
pub mod srv;
