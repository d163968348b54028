//! Writing rendered lines to the standard streams.
//!
//! Successful records go to standard output, one line each (an aggregate
//! YAML or JSON document is one write that may hold newlines).  An empty
//! collection writes nothing to standard output and one `No items`
//! diagnostic line to standard error, so consumers watching that stream can
//! tell an empty result from silent success.

use std::io::Write;

use vstd::prelude::*;

use crate::format::Formatting;
use crate::printable::OutputFormat;
use crate::render::{
    render_groups, render_map, render_one, render_seq, AggregateDocs, Rendered,
};

verus! {

/// Relies on `writeln!` to `std::io::Stdout`: writes the line and a newline
/// to standard output.  A write error is ignored: printing is best-effort.
#[verifier::external_body]
fn emit_stdout_line(line: &str) {
    let _ = writeln!(std::io::stdout(), "{}", line);
}

/// Relies on `writeln!` to `std::io::Stderr`: writes the diagnostic line
/// and a newline to standard error.  A write error is ignored.
#[verifier::external_body]
fn emit_stderr_line(line: &str) {
    let _ = writeln!(std::io::stderr(), "{}", line);
}

/// Write every line to standard output, in order.
fn emit_lines(lines: &Vec<String>) {
    let mut i: usize = 0;
    while i < lines.len()
        decreases lines@.len() - i,
    {
        emit_stdout_line(lines[i].as_str());
        i += 1;
    }
}

/// Print a single value as one line on standard output, rendered as
/// [`crate::render::render_one`] says.
pub fn output_print<T: OutputFormat>(value: &T, format: Formatting) {
    let line = render_one(value, format);
    emit_stdout_line(line.as_str());
}

/// Print a sequence of values: the lines of
/// [`crate::render::render_seq`] on standard output, or the `No items`
/// diagnostic on standard error when the sequence is empty.  A set prints
/// the same way, handed over in its own iteration order.
pub fn print_seq<T: OutputFormat>(items: &Vec<T>, format: Formatting) {
    match render_seq(items, format) {
        Rendered::NoItems => emit_stderr_line("No items"),
        Rendered::Lines(lines) => emit_lines(&lines),
    }
}

/// Print a keyed collection, one record per key, handed over in the map's
/// own iteration order: the lines of [`crate::render::render_map`] on
/// standard output, or the `No items` diagnostic on standard error when the
/// collection is empty.
pub fn print_map<T: OutputFormat>(
    entries: &Vec<(String, T)>,
    format: Formatting,
    docs: &AggregateDocs,
) {
    match render_map(entries, format, docs) {
        Rendered::NoItems => emit_stderr_line("No items"),
        Rendered::Lines(lines) => emit_lines(&lines),
    }
}

/// Print a keyed collection of groups, handed over in the map's own
/// iteration order: the lines of [`crate::render::render_groups`] on
/// standard output, or the `No items` diagnostic on standard error when
/// every group is empty.
pub fn print_groups<T: OutputFormat>(
    entries: &Vec<(String, Vec<T>)>,
    format: Formatting,
    docs: &AggregateDocs,
) {
    match render_groups(entries, format, docs) {
        Rendered::NoItems => emit_stderr_line("No items"),
        Rendered::Lines(lines) => emit_lines(&lines),
    }
}

} // verus!
