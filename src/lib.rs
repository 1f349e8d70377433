//! Side-by-side, line-by-line comparison of two texts.
//!
//! Lines are paired by position: line `n` of the left text against line `n`
//! of the right text, with the shorter side padded by absence. Each pair is
//! classified and rendered as one row of a fixed three-column report.

pub mod text;
pub mod style;
pub mod pairing;
pub mod report;
pub mod laws;
