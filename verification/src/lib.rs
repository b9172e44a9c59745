//! A small leveled logger: it builds the console line and the day-file entry
//! of a log call as plain strings, with contracts that say exactly what each
//! string holds. Printing and file access are left to the caller.

pub mod clock;
pub mod config;
pub mod dump;
pub mod label;
pub mod laws;
pub mod level;
pub mod logger;
pub mod paint;
