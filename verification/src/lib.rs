//! Weekday and timezone resolver: given a weekday alias and an optional
//! timezone name, compute the next (or current-cycle) occurrence of that
//! weekday in the zone's local calendar and project it into a fixed set of
//! timestamp renderings plus epoch values.

pub mod compute;
pub mod date;
pub mod fmt;
pub mod resolve;
pub mod tz;
pub mod weekday;
