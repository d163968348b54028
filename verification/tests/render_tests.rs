use output_format::format::Formatting;
use output_format::printable::{OutputCompact, OutputFormat};
use output_format::print::{output_print, print_groups, print_map, print_seq};
use output_format::render::{
    join_strings, keyed_headers, render_entry, render_groups, render_map, render_one, render_seq,
    AggregateDocs, Rendered,
};

/// A record with two fields, serialized through the real serde machinery.
#[derive(Clone)]
struct Rec {
    id: String,
    a: String,
    b: String,
}

impl Rec {
    fn new(id: &str, a: &str, b: &str) -> Rec {
        Rec { id: id.to_string(), a: a.to_string(), b: b.to_string() }
    }

    fn as_value(&self) -> serde_json::Value {
        let mut m = serde_json::Map::new();
        m.insert("a".to_string(), serde_json::Value::String(self.a.clone()));
        m.insert("b".to_string(), serde_json::Value::String(self.b.clone()));
        serde_json::Value::Object(m)
    }
}

impl OutputCompact for Rec {
    fn output_compact(&self) -> String {
        format!("{}:{}", self.a, self.b)
    }
}

impl OutputFormat for Rec {
    fn output_id_string(&self) -> String {
        self.id.clone()
    }

    fn output_headers() -> Vec<String> {
        vec!["A".to_string(), "B".to_string()]
    }

    fn output_fields(&self) -> Vec<String> {
        vec![self.a.clone(), self.b.clone()]
    }

    fn output_yaml(&self) -> Option<String> {
        serde_yaml::to_string(&self.as_value()).ok()
    }

    fn output_json(&self) -> Option<String> {
        serde_json::to_string(&self.as_value()).ok()
    }
}

/// A record whose serializer always fails.
struct Unserializable;

impl OutputCompact for Unserializable {
    fn output_compact(&self) -> String {
        "broken".to_string()
    }
}

impl OutputFormat for Unserializable {
    fn output_id_string(&self) -> String {
        "broken".to_string()
    }

    fn output_headers() -> Vec<String> {
        vec!["A".to_string()]
    }

    fn output_fields(&self) -> Vec<String> {
        vec!["broken".to_string()]
    }

    fn output_yaml(&self) -> Option<String> {
        None
    }

    fn output_json(&self) -> Option<String> {
        None
    }
}

fn lines_of(r: Rendered) -> Vec<String> {
    match r {
        Rendered::NoItems => panic!("expected lines, got NoItems"),
        Rendered::Lines(lines) => lines,
    }
}

fn no_docs() -> AggregateDocs {
    AggregateDocs { yaml: None, json: None }
}

#[test]
fn join_basics() {
    assert_eq!(join_strings(&vec![], ","), "");
    assert_eq!(join_strings(&vec!["x".to_string()], ","), "x");
    assert_eq!(
        join_strings(&vec!["x".to_string(), "y".to_string(), "z".to_string()], "\t"),
        "x\ty\tz"
    );
}

#[test]
fn render_one_per_format() {
    let r = Rec::new("r1", "1", "2");
    assert_eq!(render_one(&r, Formatting::Id), "r1");
    assert_eq!(render_one(&r, Formatting::Compact), "1:2");
    assert_eq!(render_one(&r, Formatting::Tab), "1\t2");
    assert_eq!(render_one(&r, Formatting::Csv), "1,2");
    assert_eq!(render_one(&r, Formatting::Json), "{\"a\":\"1\",\"b\":\"2\"}");
    let yaml = render_one(&r, Formatting::Yaml);
    let back: serde_json::Value = serde_yaml::from_str(&yaml).unwrap();
    assert_eq!(back, r.as_value());
}

#[test]
fn failed_serializer_renders_empty_line() {
    assert_eq!(render_one(&Unserializable, Formatting::Yaml), "");
    assert_eq!(render_one(&Unserializable, Formatting::Json), "");
    assert_eq!(render_one(&Unserializable, Formatting::Compact), "broken");
}

#[test]
fn empty_seq_renders_no_items() {
    let empty: Vec<Rec> = vec![];
    for f in [
        Formatting::Id,
        Formatting::Compact,
        Formatting::Tab,
        Formatting::Csv,
        Formatting::Yaml,
        Formatting::Json,
    ] {
        assert!(matches!(render_seq(&empty, f), Rendered::NoItems));
    }
}

#[test]
fn tab_seq_prints_header_plus_one_line_per_record() {
    let items = vec![Rec::new("x", "1", "2"), Rec::new("y", "3", "4"), Rec::new("z", "5", "6")];
    let lines = lines_of(render_seq(&items, Formatting::Tab));
    assert_eq!(lines.len(), items.len() + 1);
    assert_eq!(lines[0], "A\tB");
    assert_eq!(lines[1], "1\t2");
    assert_eq!(lines[2], "3\t4");
    assert_eq!(lines[3], "5\t6");
}

#[test]
fn csv_seq_scenario() {
    let items = vec![Rec::new("x", "1", "2"), Rec::new("y", "3", "4")];
    let lines = lines_of(render_seq(&items, Formatting::Csv));
    assert_eq!(lines, vec!["A,B", "1,2", "3,4"]);
}

#[test]
fn id_seq_has_no_header() {
    let items = vec![Rec::new("x", "1", "2"), Rec::new("y", "3", "4")];
    let lines = lines_of(render_seq(&items, Formatting::Id));
    assert_eq!(lines, vec!["x", "y"]);
}

#[test]
fn yaml_seq_prints_one_document_per_element() {
    let items = vec![Rec::new("x", "1", "2"), Rec::new("y", "3", "4")];
    let lines = lines_of(render_seq(&items, Formatting::Yaml));
    assert_eq!(lines.len(), 2);
    for (line, rec) in lines.iter().zip(items.iter()) {
        let back: serde_json::Value = serde_yaml::from_str(line).unwrap();
        assert_eq!(back, rec.as_value());
    }
}

#[test]
fn keyed_headers_prepend_id() {
    let headers = keyed_headers::<Rec>();
    assert_eq!(headers, vec!["ID", "A", "B"]);
}

#[test]
fn render_entry_per_format() {
    let r = Rec::new("r1", "1", "2");
    let key = "a".to_string();
    assert_eq!(render_entry(&key, &r, Formatting::Id), "a");
    assert_eq!(render_entry(&key, &r, Formatting::Compact), "1:2#a");
    assert_eq!(render_entry(&key, &r, Formatting::Tab), "a\t1\t2");
    assert_eq!(render_entry(&key, &r, Formatting::Csv), "a,1,2");
}

#[test]
fn empty_map_renders_no_items() {
    let entries: Vec<(String, Rec)> = vec![];
    assert!(matches!(render_map(&entries, Formatting::Yaml, &no_docs()), Rendered::NoItems));
    assert!(matches!(render_map(&entries, Formatting::Tab, &no_docs()), Rendered::NoItems));
}

#[test]
fn compact_map_appends_key_after_hash() {
    let entries = vec![("a".to_string(), Rec::new("r1", "1", "2"))];
    let lines = lines_of(render_map(&entries, Formatting::Compact, &no_docs()));
    assert_eq!(lines, vec!["1:2#a"]);
}

#[test]
fn tab_map_prints_id_header_and_keyed_rows() {
    let entries = vec![
        ("a".to_string(), Rec::new("r1", "1", "2")),
        ("b".to_string(), Rec::new("r2", "3", "4")),
    ];
    let lines = lines_of(render_map(&entries, Formatting::Tab, &no_docs()));
    assert_eq!(lines, vec!["ID\tA\tB", "a\t1\t2", "b\t3\t4"]);
}

#[test]
fn yaml_map_is_one_aggregate_document() {
    let entries = vec![
        ("a".to_string(), Rec::new("r1", "1", "2")),
        ("b".to_string(), Rec::new("r2", "3", "4")),
    ];
    let mut m = serde_json::Map::new();
    for (k, r) in &entries {
        m.insert(k.clone(), r.as_value());
    }
    let whole = serde_json::Value::Object(m);
    let docs = AggregateDocs {
        yaml: serde_yaml::to_string(&whole).ok(),
        json: serde_json::to_string(&whole).ok(),
    };
    let yaml_lines = lines_of(render_map(&entries, Formatting::Yaml, &docs));
    assert_eq!(yaml_lines.len(), 1);
    let back: serde_json::Value = serde_yaml::from_str(&yaml_lines[0]).unwrap();
    assert_eq!(back, whole);
    let json_lines = lines_of(render_map(&entries, Formatting::Json, &docs));
    assert_eq!(json_lines.len(), 1);
    assert_eq!(json_lines[0], serde_json::to_string(&whole).unwrap());
}

#[test]
fn failed_aggregate_serializer_renders_empty_line() {
    let entries = vec![("a".to_string(), Rec::new("r1", "1", "2"))];
    let lines = lines_of(render_map(&entries, Formatting::Yaml, &no_docs()));
    assert_eq!(lines, vec![""]);
}

#[test]
fn groups_all_empty_renders_no_items() {
    let entries: Vec<(String, Vec<Rec>)> = vec![
        ("a".to_string(), vec![]),
        ("b".to_string(), vec![]),
    ];
    assert!(matches!(render_groups(&entries, Formatting::Tab, &no_docs()), Rendered::NoItems));
    let none: Vec<(String, Vec<Rec>)> = vec![];
    assert!(matches!(render_groups(&none, Formatting::Id, &no_docs()), Rendered::NoItems));
}

#[test]
fn tab_groups_repeat_key_per_record() {
    let entries = vec![(
        "k".to_string(),
        vec![Rec::new("r1", "1", "2"), Rec::new("r2", "3", "4")],
    )];
    let lines = lines_of(render_groups(&entries, Formatting::Tab, &no_docs()));
    assert_eq!(lines, vec!["ID\tA\tB", "k\t1\t2", "k\t3\t4"]);
    assert!(lines[1].starts_with("k\t"));
    assert!(lines[2].starts_with("k\t"));
}

#[test]
fn id_groups_print_key_once_per_record() {
    let entries = vec![
        ("k".to_string(), vec![Rec::new("r1", "1", "2"), Rec::new("r2", "3", "4")]),
        ("m".to_string(), vec![Rec::new("r3", "5", "6")]),
    ];
    let lines = lines_of(render_groups(&entries, Formatting::Id, &no_docs()));
    assert_eq!(lines, vec!["k", "k", "m"]);
}

#[test]
fn printers_run_without_panicking() {
    let items = vec![Rec::new("x", "1", "2")];
    output_print(&items[0], Formatting::Csv);
    print_seq(&items, Formatting::Tab);
    let empty: Vec<Rec> = vec![];
    print_seq(&empty, Formatting::Csv);
    let entries = vec![("a".to_string(), Rec::new("r1", "1", "2"))];
    print_map(&entries, Formatting::Compact, &no_docs());
    let groups = vec![("k".to_string(), vec![Rec::new("r1", "1", "2")])];
    print_groups(&groups, Formatting::Id, &no_docs());
}
