//! Converts an in-game date and time (day, hour, minute) of a survival game
//! into the world-time tick count taken by its `settime` console command.

pub mod datetime;

pub use datetime::{world_time, DateError, SevendaysDatetimes};
