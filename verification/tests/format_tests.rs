use std::str::FromStr;

use output_format::format::Formatting;

fn all() -> Vec<(Formatting, &'static str)> {
    vec![
        (Formatting::Id, "id"),
        (Formatting::Compact, "compact"),
        (Formatting::Tab, "tab"),
        (Formatting::Csv, "csv"),
        (Formatting::Yaml, "yaml"),
        (Formatting::Json, "json"),
    ]
}

#[test]
fn parse_canonical_names() {
    for (f, name) in all() {
        assert_eq!(Formatting::parse(name), Ok(f));
    }
}

#[test]
fn parse_is_case_insensitive() {
    for (f, name) in all() {
        let upper = name.to_uppercase();
        assert_eq!(Formatting::parse(&upper), Ok(f));
        assert_eq!(Formatting::parse(&upper), Formatting::parse(name));
    }
    assert_eq!(Formatting::parse("Json"), Ok(Formatting::Json));
    assert_eq!(Formatting::parse("cSv"), Ok(Formatting::Csv));
}

#[test]
fn parse_trims_whitespace() {
    for (f, name) in all() {
        let padded = format!(" {} ", name);
        assert_eq!(Formatting::parse(&padded), Ok(f));
        assert_eq!(Formatting::parse(&padded), Formatting::parse(name));
        let tabbed = format!("\t{}\n", name);
        assert_eq!(Formatting::parse(&tabbed), Ok(f));
    }
}

#[test]
fn parse_rejects_garbage() {
    let garbage = [
        "", " ", "xml", "idd", "c sv", "jsonn", "compacts", "ta b", "-", "csv,", "id.", "???",
        "İD", "ｃｓｖ",
    ];
    for s in garbage {
        assert_eq!(
            Formatting::parse(s),
            Err(String::from("Unknown format name")),
            "input {:?} should not parse",
            s
        );
    }
}

#[test]
fn display_gives_canonical_names() {
    for (f, name) in all() {
        assert_eq!(f.display(), name);
    }
}

#[test]
fn display_roundtrips_through_parse() {
    for (f, _) in all() {
        assert_eq!(Formatting::parse(&f.display()), Ok(f));
        let shouted = f.display().to_uppercase();
        assert_eq!(Formatting::parse(&shouted), Ok(f));
        let padded = format!("  {}  ", f.display());
        assert_eq!(Formatting::parse(&padded), Ok(f));
    }
}

#[test]
fn from_str_matches_parse() {
    assert_eq!(Formatting::from_str("YAML "), Ok(Formatting::Yaml));
    assert_eq!("json".parse::<Formatting>(), Ok(Formatting::Json));
    assert_eq!(
        "nope".parse::<Formatting>(),
        Err(String::from("Unknown format name"))
    );
}
