//! The output mode selector and its textual parsing and display.

use vstd::prelude::*;
use vstd::string::StringExecFns;

verus! {

/// The output mode a caller selects for printing.  Variants are totally
/// ordered and hashable so that the selector can serve as a map key;
/// the order carries no meaning.
#[derive(Copy, Clone, PartialEq, Eq, PartialOrd, Ord, Hash, Debug, Structural)]
pub enum Formatting {
    /// Print only data identifier strings, one per line.
    Id,
    /// Print a single entry per line in the type's compact form.
    Compact,
    /// Print a tab-separated list of items.
    Tab,
    /// Print a comma-separated list of items.
    Csv,
    /// Output data as formatted YAML.
    Yaml,
    /// Output data as JSON.
    Json,
}

/// The canonical lowercase name of a format, used both for display and —
/// after trimming and lowercasing — for parsing.
pub open spec fn canonical_name(f: Formatting) -> Seq<char> {
    match f {
        Formatting::Id => "id"@,
        Formatting::Compact => "compact"@,
        Formatting::Tab => "tab"@,
        Formatting::Csv => "csv"@,
        Formatting::Yaml => "yaml"@,
        Formatting::Json => "json"@,
    }
}

/// What parsing accepts once the input has been trimmed and lowercased:
/// exactly the six canonical names, nothing else.
pub open spec fn parse_canonical(s: Seq<char>) -> Option<Formatting> {
    if s == "id"@ {
        Some(Formatting::Id)
    } else if s == "compact"@ {
        Some(Formatting::Compact)
    } else if s == "tab"@ {
        Some(Formatting::Tab)
    } else if s == "csv"@ {
        Some(Formatting::Csv)
    } else if s == "yaml"@ {
        Some(Formatting::Yaml)
    } else if s == "json"@ {
        Some(Formatting::Json)
    } else {
        None
    }
}

/// A lowercase ASCII letter.
pub open spec fn is_lower_alpha(c: char) -> bool {
    'a' <= c && c <= 'z'
}

/// A string made of lowercase ASCII letters only (possibly empty).
pub open spec fn is_plain_lower(s: Seq<char>) -> bool {
    forall|i: int| 0 <= i < s.len() ==> is_lower_alpha(s[i])
}

/// What `str::trim` returns on a given string.
pub uninterp spec fn trim_of(s: Seq<char>) -> Seq<char>;

/// What `str::to_lowercase` returns on a given string.
pub uninterp spec fn lower_of(s: Seq<char>) -> Seq<char>;

/// Relies on `str::trim`: it removes leading and trailing whitespace, so an
/// empty string, or one whose first and last characters are lowercase ASCII
/// letters (hence not whitespace), comes back unchanged.
#[verifier::external_body]
fn trimmed(s: &str) -> (r: &str)
    ensures
        r@ == trim_of(s@),
        s@.len() == 0 ==> r@ == s@,
        s@.len() > 0 && is_lower_alpha(s@.first()) && is_lower_alpha(s@.last()) ==> r@ == s@,
{
    s.trim()
}

/// Relies on `str::to_lowercase`: the result depends on the characters
/// alone, and a string of characters that are already lowercase ASCII
/// letters is unchanged.
#[verifier::external_body]
fn lowered(s: &str) -> (r: String)
    ensures
        r@ == lower_of(s@),
        is_plain_lower(s@) ==> r@ == s@,
{
    s.to_lowercase()
}

impl Formatting {
    /// Parse a format name.  The input is trimmed and lowercased, then
    /// matched against the six canonical names; any other input is an
    /// "Unknown format name" error.  An input that is already a plain
    /// lowercase word is matched as it stands.
    pub fn parse(s: &str) -> (r: Result<Formatting, String>)
        ensures
            match r {
                Ok(f) => parse_canonical(lower_of(trim_of(s@))) == Some(f),
                Err(e) => parse_canonical(lower_of(trim_of(s@))) is None && e@
                    == "Unknown format name"@,
            },
            is_plain_lower(s@) ==> match r {
                Ok(f) => parse_canonical(s@) == Some(f),
                Err(_) => parse_canonical(s@) is None,
            },
    {
        let t = trimmed(s);
        proof {
            if is_plain_lower(s@) && s@.len() > 0 {
                assert(is_lower_alpha(s@.first()));
                assert(is_lower_alpha(s@.last()));
            }
        }
        let l = lowered(t);
        if l == String::from_str("id") {
            Ok(Formatting::Id)
        } else if l == String::from_str("compact") {
            Ok(Formatting::Compact)
        } else if l == String::from_str("tab") {
            Ok(Formatting::Tab)
        } else if l == String::from_str("csv") {
            Ok(Formatting::Csv)
        } else if l == String::from_str("yaml") {
            Ok(Formatting::Yaml)
        } else if l == String::from_str("json") {
            Ok(Formatting::Json)
        } else {
            Err(String::from_str("Unknown format name"))
        }
    }

    /// The canonical name of this format, a plain lowercase word.
    pub fn display(&self) -> (r: String)
        ensures
            r@ == canonical_name(*self),
            is_plain_lower(r@),
    {
        proof {
            reveal_strlit("id");
            reveal_strlit("compact");
            reveal_strlit("tab");
            reveal_strlit("csv");
            reveal_strlit("yaml");
            reveal_strlit("json");
        }
        match self {
            Formatting::Id => String::from_str("id"),
            Formatting::Compact => String::from_str("compact"),
            Formatting::Tab => String::from_str("tab"),
            Formatting::Csv => String::from_str("csv"),
            Formatting::Yaml => String::from_str("yaml"),
            Formatting::Json => String::from_str("json"),
        }
    }
}

/// Law: every canonical format name, parsed as it stands, yields its own
/// variant, so display round-trips through parsing.
pub proof fn lemma_display_parse_roundtrip(f: Formatting)
    ensures
        parse_canonical(canonical_name(f)) == Some(f),
{
    reveal_strlit("id");
    reveal_strlit("compact");
    reveal_strlit("tab");
    reveal_strlit("csv");
    reveal_strlit("yaml");
    reveal_strlit("json");
    assert("id"@.len() == 2);
    assert("compact"@.len() == 7);
    assert("tab"@.len() == 3);
    assert("csv"@.len() == 3);
    assert("yaml"@.len() == 4);
    assert("json"@.len() == 4);
    assert("tab"@[0] == 't' && "csv"@[0] == 'c');
    assert("yaml"@[0] == 'y' && "json"@[0] == 'j');
}

impl core::str::FromStr for Formatting {
    type Err = String;

    fn from_str(s: &str) -> Result<Formatting, String> {
        Formatting::parse(s)
    }
}

} // verus!
