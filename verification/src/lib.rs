//! A verified facade over a Workflow Description Language (WDL) parser.
//!
//! The grammar engine turns source text into a syntax tree plus a list of
//! diagnostics.  This crate models that output, decides acceptance (no
//! error-severity diagnostic), aggregates error messages on rejection, and
//! summarizes an accepted document by its first workflow or task name.

pub mod engine;
pub mod facade;
pub mod model;
pub mod report;
pub mod summary;
