//! The capability traits a value type implements to become printable.

use vstd::prelude::*;

verus! {

/// The character sequences of a list of strings.
pub open spec fn seq_views(s: Seq<String>) -> Seq<Seq<char>> {
    s.map_values(|p: String| p@)
}

/// The character sequence of an optional string, `None` kept as `None`.
pub open spec fn option_view(o: Option<String>) -> Option<Seq<char>> {
    match o {
        Some(s) => Some(s@),
        None => None,
    }
}

/// Compact rendering: a single-line, type-specific human-readable summary
/// of one value, such as `<txid>:<vout>` for a transaction outpoint.
pub trait OutputCompact {
    /// The compact form of this value.  A verified implementation
    /// overrides this with the actual form; an unverified one may leave the
    /// default, which leaves the form unspecified.
    open spec fn compact_spec(&self) -> Seq<char> {
        arbitrary()
    }

    /// Render the compact form.
    fn output_compact(&self) -> (r: String)
        ensures
            r@ == self.compact_spec(),
    ;
}

/// Full rendering: everything the printers need from a value — a short
/// identifier, the type-level header names, the per-field values (one per
/// header, in header order), and the value's structured serialization as
/// YAML and as JSON text.  Serialization is allowed to fail; a failed
/// serialization is reported as `None` and printed as an empty string.
pub trait OutputFormat: OutputCompact {
    /// The identifier string of this value.
    open spec fn id_spec(&self) -> Seq<char> {
        arbitrary()
    }

    /// The ordered header names of this type.
    open spec fn headers_spec() -> Seq<Seq<char>> {
        arbitrary()
    }

    /// The rendered field values of this value, one per header.
    open spec fn fields_spec(&self) -> Seq<Seq<char>> {
        arbitrary()
    }

    /// The YAML document of this value, or `None` when serialization fails.
    open spec fn yaml_spec(&self) -> Option<Seq<char>> {
        arbitrary()
    }

    /// The JSON document of this value, or `None` when serialization fails.
    open spec fn json_spec(&self) -> Option<Seq<char>> {
        arbitrary()
    }

    /// Render the identifier string.
    fn output_id_string(&self) -> (r: String)
        ensures
            r@ == self.id_spec(),
    ;

    /// The header names of the type, in field order.
    fn output_headers() -> (r: Vec<String>)
        ensures
            seq_views(r@) == Self::headers_spec(),
    ;

    /// Render the field values, one per header.
    fn output_fields(&self) -> (r: Vec<String>)
        ensures
            seq_views(r@) == self.fields_spec(),
    ;

    /// Serialize this value as YAML text, `None` on failure.
    fn output_yaml(&self) -> (r: Option<String>)
        ensures
            option_view(r) == self.yaml_spec(),
    ;

    /// Serialize this value as JSON text, `None` on failure.
    fn output_json(&self) -> (r: Option<String>)
        ensures
            option_view(r) == self.json_spec(),
    ;
}

} // verus!
