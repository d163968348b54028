//! Uniform rendering of values and collections of values in a
//! caller-selected output format.
//!
//! The [`format::Formatting`] enum is the closed set of output modes, each
//! with a canonical lowercase name used for parsing and display.  A value
//! becomes printable by implementing the capability traits in
//! [`printable`]; the functions in [`render`] turn a value, a sequence, a
//! keyed map, or a map of groups into the exact lines the chosen format
//! calls for, and the functions in [`print`] write those lines to the
//! standard streams.

pub mod format;
pub mod printable;
pub mod print;
pub mod render;
