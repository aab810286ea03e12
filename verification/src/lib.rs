//! Profitability evaluator for a two-leg trade.
//!
//! Each input line is a JSON object describing one trade scenario with
//! string-typed integer fields. The library decodes the line into exact
//! 128-bit integers, computes the nominal and the worst-case profit,
//! decides whether the worst case clears the caller's threshold, and
//! encodes the verdict as one JSON output line.

pub mod decode;
pub mod encode;
pub mod evaluate;
pub mod intstr;
pub mod model;
pub mod pipeline;

pub use intstr::parse_i128;
