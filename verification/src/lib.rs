//! Text-statistics library in the manner of the classic `wc` utility.
//!
//! Given the full text of an input and a set of requested measurement
//! kinds, the library computes byte, character, line and word counts and
//! renders them as a single whitespace-separated output line.

pub mod args;
pub mod count;
pub mod counts;
