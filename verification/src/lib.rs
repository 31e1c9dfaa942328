//! Parser for the line-oriented, section-structured text format that
//! describes a rhythm-game beatmap.
//!
//! The crate turns a sequence of input lines into a typed [`data::OsuFile`]
//! document: a record per recognized section, a stored version string, a
//! validity flag, and a list of recoverable diagnostics.  The whole parse is
//! specified by a functional model (`model`) and the executable parser is
//! proved to compute exactly that model.

pub mod text;
pub mod numbers;
pub mod data;
pub mod model;
pub mod parser;
pub mod select;
pub mod laws;
