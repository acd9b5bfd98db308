//! School schedule: classifies calendar dates into rotation days, resolves
//! their periods, specials and overrides, builds a display block for a date
//! and counts the days of the school year.

pub mod date;
pub mod table;
pub mod blocks;
pub mod alter;
pub mod stat;
pub mod laws;
pub mod pages;
