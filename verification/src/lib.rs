//! A small toolkit for locating roots and fixed points of scalar
//! functions supplied as opaque callables.
//!
//! Real quantities are modelled on a fixed-point grid: a value of type
//! `i64` stands for the real number `value / scale`, for a scale the
//! caller chooses and applies uniformly. A continuous function is any
//! `Fn(i64) -> i64` value; its contract, stated through `call_requires`
//! and `call_ensures`, is all the search engine relies on.
//!
//! `root_search` holds the two search algorithms (interval bisection and
//! fixed-point iteration); `functional` holds the transforms that turn a
//! function, and optionally its derivative, into a new function fit for
//! fixed-point iteration; `sign` and `arith` hold the shared sign and
//! division helpers.

pub mod arith;
pub mod functional;
pub mod root_search;
pub mod sign;
