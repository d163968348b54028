//! Pure rendering: from values and collections to the exact lines that the
//! selected format calls for.  Nothing here touches the standard streams;
//! the functions in [`crate::print`] write what these functions return.

use vstd::prelude::*;
use vstd::string::StringExecFns;

use crate::format::Formatting;
use crate::printable::{option_view, seq_views, OutputCompact, OutputFormat};

verus! {

/// The parts joined with the separator between consecutive parts; an empty
/// list joins to the empty string.
pub open spec fn join_with(parts: Seq<Seq<char>>, sep: Seq<char>) -> Seq<char>
    decreases parts.len(),
{
    if parts.len() == 0 {
        Seq::empty()
    } else if parts.len() == 1 {
        parts[0]
    } else {
        parts[0] + sep + join_with(parts.drop_first(), sep)
    }
}

/// Joining one more part appends a separator and the part (or is the part
/// itself when nothing was joined before it).
pub proof fn lemma_join_push(parts: Seq<Seq<char>>, sep: Seq<char>, x: Seq<char>)
    ensures
        parts.len() == 0 ==> join_with(parts.push(x), sep) == x,
        parts.len() > 0 ==> join_with(parts.push(x), sep) == join_with(parts, sep) + sep + x,
    decreases parts.len(),
{
    if parts.len() == 0 {
        assert(parts.push(x)[0] == x);
    } else if parts.len() == 1 {
        assert(parts.push(x).drop_first() =~= seq![x]);
        assert(parts.push(x)[0] == parts[0]);
        assert(join_with(seq![x], sep) == x);
        assert(join_with(parts.push(x), sep) == parts[0] + sep + x);
    } else {
        assert(parts.push(x).drop_first() =~= parts.drop_first().push(x));
        lemma_join_push(parts.drop_first(), sep, x);
        assert(join_with(parts, sep) + sep + x =~= parts[0] + sep + (join_with(
            parts.drop_first(),
            sep,
        ) + sep + x));
    }
}

/// Join a list of strings with a separator.
pub fn join_strings(parts: &Vec<String>, sep: &str) -> (r: String)
    ensures
        r@ == join_with(seq_views(parts@), sep@),
{
    let mut r = String::new();
    let mut i: usize = 0;
    while i < parts.len()
        invariant
            i <= parts@.len(),
            r@ == join_with(seq_views(parts@).take(i as int), sep@),
        decreases parts@.len() - i,
    {
        if i > 0 {
            r.append(sep);
        }
        r.append(parts[i].as_str());
        proof {
            let sv = seq_views(parts@);
            assert(sv.take(i as int).push(parts@[i as int]@) =~= sv.take(i as int + 1));
            lemma_join_push(sv.take(i as int), sep@, parts@[i as int]@);
        }
        i += 1;
    }
    proof {
        assert(seq_views(parts@).take(parts@.len() as int) =~= seq_views(parts@));
    }
    r
}

/// A document that may have failed to serialize, printed as the empty
/// string on failure rather than aborting the print operation.
pub open spec fn doc_or_empty(d: Option<Seq<char>>) -> Seq<char> {
    match d {
        Some(s) => s,
        None => Seq::empty(),
    }
}

/// The one line a single value renders to under each format: its identifier
/// for `Id`, its compact form for `Compact`, its fields joined with the
/// delimiter for `Tab` and `Csv`, and its serialized document (empty on
/// failure) for `Yaml` and `Json`.
pub open spec fn rendered_line<T: OutputFormat>(v: T, format: Formatting) -> Seq<char> {
    match format {
        Formatting::Id => v.id_spec(),
        Formatting::Compact => v.compact_spec(),
        Formatting::Tab => join_with(v.fields_spec(), "\t"@),
        Formatting::Csv => join_with(v.fields_spec(), ","@),
        Formatting::Yaml => doc_or_empty(v.yaml_spec()),
        Formatting::Json => doc_or_empty(v.json_spec()),
    }
}

/// Render a single value to its one line in the given format.
pub fn render_one<T: OutputFormat>(value: &T, format: Formatting) -> (line: String)
    ensures
        line@ == rendered_line(*value, format),
{
    match format {
        Formatting::Id => value.output_id_string(),
        Formatting::Compact => value.output_compact(),
        Formatting::Tab => {
            let fields = value.output_fields();
            join_strings(&fields, "\t")
        },
        Formatting::Csv => {
            let fields = value.output_fields();
            join_strings(&fields, ",")
        },
        Formatting::Yaml => match value.output_yaml() {
            Some(doc) => doc,
            None => String::new(),
        },
        Formatting::Json => match value.output_json() {
            Some(doc) => doc,
            None => String::new(),
        },
    }
}

/// What a renderer owes the standard streams.
pub enum Rendered {
    /// The collection was empty: nothing is owed to standard output, and
    /// one diagnostic line is owed to standard error.
    NoItems,
    /// The lines owed to standard output, in order.  An aggregate YAML or
    /// JSON document is a single entry that may hold newlines.
    Lines(Vec<String>),
}

/// The header row a sequence prints before its body: the type's header
/// names joined with the delimiter, for `Tab` and `Csv` only.
pub open spec fn header_lines<T: OutputFormat>(format: Formatting) -> Seq<Seq<char>> {
    match format {
        Formatting::Tab => seq![join_with(T::headers_spec(), "\t"@)],
        Formatting::Csv => seq![join_with(T::headers_spec(), ","@)],
        _ => Seq::empty(),
    }
}

/// The body of a sequence: one rendered line per item, in order.
pub open spec fn body_lines<T: OutputFormat>(items: Seq<T>, format: Formatting) -> Seq<Seq<char>> {
    items.map_values(|t: T| rendered_line(t, format))
}

/// Every line a non-empty sequence prints: the header row (for `Tab` and
/// `Csv`) followed by one line per item.
pub open spec fn seq_lines<T: OutputFormat>(items: Seq<T>, format: Formatting) -> Seq<Seq<char>> {
    header_lines::<T>(format) + body_lines(items, format)
}

/// Render a sequence of values: an empty sequence renders to `NoItems`; a
/// non-empty one renders to its header row (for `Tab` and `Csv`) followed
/// by one line per item, in the sequence's order.  Note that a bare
/// sequence renders per element under every format, `Yaml` and `Json`
/// included — one document per record; only the keyed collections below
/// aggregate the whole collection into a single document.
pub fn render_seq<T: OutputFormat>(items: &Vec<T>, format: Formatting) -> (r: Rendered)
    ensures
        match r {
            Rendered::NoItems => items@.len() == 0,
            Rendered::Lines(lines) => items@.len() > 0 && seq_views(lines@) == seq_lines(
                items@,
                format,
            ),
        },
{
    if items.len() == 0 {
        return Rendered::NoItems;
    }
    let mut lines: Vec<String> = Vec::new();
    match format {
        Formatting::Tab => {
            let headers = T::output_headers();
            lines.push(join_strings(&headers, "\t"));
        },
        Formatting::Csv => {
            let headers = T::output_headers();
            lines.push(join_strings(&headers, ","));
        },
        _ => {},
    }
    proof {
        assert(seq_views(lines@) =~= header_lines::<T>(format) + body_lines(
            items@.take(0),
            format,
        ));
    }
    let mut i: usize = 0;
    while i < items.len()
        invariant
            i <= items@.len(),
            seq_views(lines@) == header_lines::<T>(format) + body_lines(
                items@.take(i as int),
                format,
            ),
        decreases items@.len() - i,
    {
        let ghost old_lines = lines@;
        let line = render_one(&items[i], format);
        lines.push(line);
        proof {
            assert(seq_views(lines@) =~= seq_views(old_lines).push(line@));
            assert(body_lines(items@.take(i as int + 1), format) =~= body_lines(
                items@.take(i as int),
                format,
            ).push(rendered_line(items@[i as int], format)));
            assert(seq_views(lines@) =~= header_lines::<T>(format) + body_lines(
                items@.take(i as int + 1),
                format,
            ));
        }
        i += 1;
    }
    proof {
        assert(items@.take(items@.len() as int) =~= items@);
    }
    Rendered::Lines(lines)
}

/// Law: a sequence of records prints one line per record, plus one header
/// row under `Tab` and `Csv` and none under any other format.
pub proof fn lemma_seq_line_count<T: OutputFormat>(items: Seq<T>, format: Formatting)
    ensures
        format is Tab || format is Csv ==> seq_lines(items, format).len() == items.len() + 1,
        !(format is Tab) && !(format is Csv) ==> seq_lines(items, format).len() == items.len(),
{
}

/// The aggregate serializations of a whole keyed collection, produced by
/// the caller's serializer: the YAML and the JSON document of the entire
/// collection, or `None` where serialization failed (printed as an empty
/// line, never as an abort).
pub struct AggregateDocs {
    /// The YAML document of the whole collection, `None` on failure.
    pub yaml: Option<String>,
    /// The JSON document of the whole collection, `None` on failure.
    pub json: Option<String>,
}

/// The keys and records of a keyed collection, as character sequences and
/// values.
pub open spec fn entry_views<T>(s: Seq<(String, T)>) -> Seq<(Seq<char>, T)> {
    s.map_values(|e: (String, T)| (e.0@, e.1))
}

/// The one body line a keyed record renders to: the key alone for `Id`,
/// `<compact>#<key>` for `Compact`, and the key ahead of the delimited
/// fields for `Tab` and `Csv`.  `Yaml` and `Json` render no body lines
/// (the whole collection is one aggregate document instead).
pub open spec fn entry_line<T: OutputFormat>(key: Seq<char>, rec: T, format: Formatting) -> Seq<
    char,
> {
    match format {
        Formatting::Id => key,
        Formatting::Compact => rec.compact_spec() + "#"@ + key,
        Formatting::Tab => key + "\t"@ + join_with(rec.fields_spec(), "\t"@),
        Formatting::Csv => key + ","@ + join_with(rec.fields_spec(), ","@),
        _ => Seq::empty(),
    }
}

/// Render one keyed record to its body line in the given format.
pub fn render_entry<T: OutputFormat>(key: &String, rec: &T, format: Formatting) -> (line: String)
    ensures
        line@ == entry_line(key@, *rec, format),
{
    match format {
        Formatting::Id => key.clone(),
        Formatting::Compact => {
            let mut line = rec.output_compact();
            line.append("#");
            line.append(key.as_str());
            line
        },
        Formatting::Tab => {
            let mut line = key.clone();
            line.append("\t");
            let fields = rec.output_fields();
            let joined = join_strings(&fields, "\t");
            line.append(joined.as_str());
            line
        },
        Formatting::Csv => {
            let mut line = key.clone();
            line.append(",");
            let fields = rec.output_fields();
            let joined = join_strings(&fields, ",");
            line.append(joined.as_str());
            line
        },
        _ => String::new(),
    }
}

/// The header names of a keyed collection: `"ID"` ahead of the record
/// type's own header names.
pub open spec fn keyed_headers_spec<T: OutputFormat>() -> Seq<Seq<char>> {
    seq!["ID"@] + T::headers_spec()
}

/// The header names a keyed collection of records of type `T` prints:
/// `"ID"` followed by `T`'s own header names.
pub fn keyed_headers<T: OutputFormat>() -> (r: Vec<String>)
    ensures
        seq_views(r@) == keyed_headers_spec::<T>(),
{
    let mut r: Vec<String> = Vec::new();
    r.push(String::from_str("ID"));
    let headers = T::output_headers();
    let mut i: usize = 0;
    while i < headers.len()
        invariant
            i <= headers@.len(),
            seq_views(headers@) == T::headers_spec(),
            seq_views(r@) == seq!["ID"@] + T::headers_spec().take(i as int),
        decreases headers@.len() - i,
    {
        let ghost old_r = r@;
        r.push(headers[i].clone());
        proof {
            assert(seq_views(r@) =~= seq_views(old_r).push(headers@[i as int]@));
            assert(seq_views(r@) =~= seq!["ID"@] + T::headers_spec().take(i as int + 1));
        }
        i += 1;
    }
    proof {
        assert(T::headers_spec().take(T::headers_spec().len() as int) =~= T::headers_spec());
    }
    r
}

/// The header row a keyed collection prints before its body, for `Tab` and
/// `Csv` only.
pub open spec fn keyed_header_lines<T: OutputFormat>(format: Formatting) -> Seq<Seq<char>> {
    match format {
        Formatting::Tab => seq![join_with(keyed_headers_spec::<T>(), "\t"@)],
        Formatting::Csv => seq![join_with(keyed_headers_spec::<T>(), ","@)],
        _ => Seq::empty(),
    }
}

/// The body of a keyed collection: one line per entry, in order.
pub open spec fn entry_body_lines<T: OutputFormat>(
    entries: Seq<(Seq<char>, T)>,
    format: Formatting,
) -> Seq<Seq<char>> {
    entries.map_values(|e: (Seq<char>, T)| entry_line(e.0, e.1, format))
}

/// Every line a non-empty keyed collection prints: one aggregate document
/// for `Yaml` and `Json`; otherwise the header row (for `Tab` and `Csv`)
/// followed by one body line per entry.
pub open spec fn map_lines<T: OutputFormat>(
    entries: Seq<(Seq<char>, T)>,
    format: Formatting,
    yaml: Option<Seq<char>>,
    json: Option<Seq<char>>,
) -> Seq<Seq<char>> {
    match format {
        Formatting::Yaml => seq![doc_or_empty(yaml)],
        Formatting::Json => seq![doc_or_empty(json)],
        _ => keyed_header_lines::<T>(format) + entry_body_lines(entries, format),
    }
}

/// Law: under `Yaml` and `Json` a keyed collection prints exactly one
/// aggregate document, however many entries it has.
pub proof fn lemma_aggregate_single_document<T: OutputFormat>(
    entries: Seq<(Seq<char>, T)>,
    yaml: Option<Seq<char>>,
    json: Option<Seq<char>>,
)
    ensures
        map_lines(entries, Formatting::Yaml, yaml, json).len() == 1,
        map_lines(entries, Formatting::Json, yaml, json).len() == 1,
        map_lines(entries, Formatting::Yaml, yaml, json)[0] == doc_or_empty(yaml),
        map_lines(entries, Formatting::Json, yaml, json)[0] == doc_or_empty(json),
{
}

/// Render a keyed collection, one record per key.  Entries are taken in
/// the order given (a map's own iteration order).  An empty collection
/// renders to `NoItems`; for `Yaml` and `Json` the whole collection is the
/// caller-serialized aggregate document; every other format prints its
/// header row (for `Tab` and `Csv`) and one body line per entry.
pub fn render_map<T: OutputFormat>(
    entries: &Vec<(String, T)>,
    format: Formatting,
    docs: &AggregateDocs,
) -> (r: Rendered)
    ensures
        match r {
            Rendered::NoItems => entries@.len() == 0,
            Rendered::Lines(lines) => entries@.len() > 0 && seq_views(lines@) == map_lines(
                entry_views(entries@),
                format,
                option_view(docs.yaml),
                option_view(docs.json),
            ),
        },
{
    if entries.len() == 0 {
        return Rendered::NoItems;
    }
    let mut lines: Vec<String> = Vec::new();
    match format {
        Formatting::Yaml => {
            match &docs.yaml {
                Some(doc) => lines.push(doc.clone()),
                None => lines.push(String::new()),
            }
            proof {
                assert(seq_views(lines@) =~= seq![doc_or_empty(option_view(docs.yaml))]);
            }
            return Rendered::Lines(lines);
        },
        Formatting::Json => {
            match &docs.json {
                Some(doc) => lines.push(doc.clone()),
                None => lines.push(String::new()),
            }
            proof {
                assert(seq_views(lines@) =~= seq![doc_or_empty(option_view(docs.json))]);
            }
            return Rendered::Lines(lines);
        },
        Formatting::Tab => {
            let headers = keyed_headers::<T>();
            lines.push(join_strings(&headers, "\t"));
        },
        Formatting::Csv => {
            let headers = keyed_headers::<T>();
            lines.push(join_strings(&headers, ","));
        },
        _ => {},
    }
    proof {
        assert(seq_views(lines@) =~= keyed_header_lines::<T>(format) + entry_body_lines(
            entry_views(entries@).take(0),
            format,
        ));
    }
    let mut i: usize = 0;
    while i < entries.len()
        invariant
            i <= entries@.len(),
            !(format is Yaml) && !(format is Json),
            seq_views(lines@) == keyed_header_lines::<T>(format) + entry_body_lines(
                entry_views(entries@).take(i as int),
                format,
            ),
        decreases entries@.len() - i,
    {
        let ghost old_lines = lines@;
        let pair = &entries[i];
        let line = render_entry(&pair.0, &pair.1, format);
        lines.push(line);
        proof {
            let ev = entry_views(entries@);
            assert(ev[i as int] == (entries@[i as int].0@, entries@[i as int].1));
            assert(seq_views(lines@) =~= seq_views(old_lines).push(line@));
            assert(entry_body_lines(ev.take(i as int + 1), format) =~= entry_body_lines(
                ev.take(i as int),
                format,
            ).push(entry_line(ev[i as int].0, ev[i as int].1, format)));
            assert(seq_views(lines@) =~= keyed_header_lines::<T>(format) + entry_body_lines(
                ev.take(i as int + 1),
                format,
            ));
        }
        i += 1;
    }
    proof {
        assert(entry_views(entries@).take(entries@.len() as int) =~= entry_views(entries@));
    }
    Rendered::Lines(lines)
}

/// The keys and record groups of a keyed collection of groups, as character
/// sequences and value sequences.
pub open spec fn group_views<T>(s: Seq<(String, Vec<T>)>) -> Seq<(Seq<char>, Seq<T>)> {
    s.map_values(|e: (String, Vec<T>)| (e.0@, e.1@))
}

/// A keyed collection of groups counts as empty when every group is empty.
pub open spec fn all_groups_empty<T>(entries: Seq<(Seq<char>, Seq<T>)>) -> bool {
    forall|i: int| 0 <= i < entries.len() ==> entries[i].1.len() == 0
}

/// The body lines of one group: one line per record, each under the group's
/// key, in the group's order.
pub open spec fn group_lines_one<T: OutputFormat>(
    key: Seq<char>,
    group: Seq<T>,
    format: Formatting,
) -> Seq<Seq<char>> {
    group.map_values(|rec: T| entry_line(key, rec, format))
}

/// The body of a keyed collection of groups: the groups' lines, entry by
/// entry, so one key repeats for every record in its group.
pub open spec fn group_body_lines<T: OutputFormat>(
    entries: Seq<(Seq<char>, Seq<T>)>,
    format: Formatting,
) -> Seq<Seq<char>>
    decreases entries.len(),
{
    if entries.len() == 0 {
        Seq::empty()
    } else {
        group_lines_one(entries[0].0, entries[0].1, format) + group_body_lines(
            entries.drop_first(),
            format,
        )
    }
}

/// One more entry appends exactly its own group's lines.
pub proof fn lemma_group_body_push<T: OutputFormat>(
    entries: Seq<(Seq<char>, Seq<T>)>,
    e: (Seq<char>, Seq<T>),
    format: Formatting,
)
    ensures
        group_body_lines(entries.push(e), format) == group_body_lines(entries, format)
            + group_lines_one(e.0, e.1, format),
    decreases entries.len(),
{
    if entries.len() == 0 {
        assert(entries.push(e)[0] == e);
        assert(entries.push(e).drop_first() =~= Seq::<(Seq<char>, Seq<T>)>::empty());
        assert(group_body_lines(entries.push(e).drop_first(), format) == Seq::<Seq<char>>::empty());
        assert(group_body_lines(entries.push(e), format) == group_lines_one(e.0, e.1, format)
            + Seq::<Seq<char>>::empty());
        assert(group_body_lines(entries, format) == Seq::<Seq<char>>::empty());
        assert(group_lines_one(e.0, e.1, format) + Seq::<Seq<char>>::empty() =~= Seq::<
            Seq<char>,
        >::empty() + group_lines_one(e.0, e.1, format));
    } else {
        assert(entries.push(e)[0] == entries[0]);
        assert(entries.push(e).drop_first() =~= entries.drop_first().push(e));
        lemma_group_body_push(entries.drop_first(), e, format);
        assert(group_body_lines(entries, format) + group_lines_one(e.0, e.1, format)
            =~= group_lines_one(entries[0].0, entries[0].1, format) + (group_body_lines(
            entries.drop_first(),
            format,
        ) + group_lines_one(e.0, e.1, format)));
    }
}

/// The number of records over all groups of a keyed collection of groups.
pub open spec fn total_records<T>(entries: Seq<(Seq<char>, Seq<T>)>) -> nat
    decreases entries.len(),
{
    if entries.len() == 0 {
        0
    } else {
        entries[0].1.len() + total_records(entries.drop_first())
    }
}

/// Law: the body of a keyed collection of groups holds exactly one line per
/// record, so one key prints as many lines as its group has records.
pub proof fn lemma_group_line_count<T: OutputFormat>(
    entries: Seq<(Seq<char>, Seq<T>)>,
    format: Formatting,
)
    ensures
        group_body_lines(entries, format).len() == total_records(entries),
    decreases entries.len(),
{
    if entries.len() > 0 {
        lemma_group_line_count(entries.drop_first(), format);
    }
}

/// Every line a non-empty keyed collection of groups prints: one aggregate
/// document for `Yaml` and `Json`; otherwise the header row (for `Tab` and
/// `Csv`) followed by the groups' body lines.
pub open spec fn groups_lines<T: OutputFormat>(
    entries: Seq<(Seq<char>, Seq<T>)>,
    format: Formatting,
    yaml: Option<Seq<char>>,
    json: Option<Seq<char>>,
) -> Seq<Seq<char>> {
    match format {
        Formatting::Yaml => seq![doc_or_empty(yaml)],
        Formatting::Json => seq![doc_or_empty(json)],
        _ => keyed_header_lines::<T>(format) + group_body_lines(entries, format),
    }
}

/// Render a keyed collection of groups, an ordered sequence of records per
/// key.  The collection counts as empty when every group is empty, and then
/// renders to `NoItems`.  For `Yaml` and `Json` the whole collection is the
/// caller-serialized aggregate document; every other format prints its
/// header row (for `Tab` and `Csv`) and then every group's lines in entry
/// order, the key repeated for each record of its group.
pub fn render_groups<T: OutputFormat>(
    entries: &Vec<(String, Vec<T>)>,
    format: Formatting,
    docs: &AggregateDocs,
) -> (r: Rendered)
    ensures
        match r {
            Rendered::NoItems => all_groups_empty(group_views(entries@)),
            Rendered::Lines(lines) => !all_groups_empty(group_views(entries@)) && seq_views(lines@)
                == groups_lines(
                group_views(entries@),
                format,
                option_view(docs.yaml),
                option_view(docs.json),
            ),
        },
{
    let mut empty = true;
    let mut i: usize = 0;
    while i < entries.len()
        invariant
            i <= entries@.len(),
            empty == all_groups_empty(group_views(entries@).take(i as int)),
        decreases entries@.len() - i,
    {
        proof {
            let gv = group_views(entries@);
            let pre = gv.take(i as int);
            let post = gv.take(i as int + 1);
            assert(post[i as int] == gv[i as int]);
            assert(gv[i as int].1 == entries@[i as int].1@);
            if entries@[i as int].1@.len() > 0 {
                assert(!all_groups_empty(post));
            } else if all_groups_empty(pre) {
                assert forall|j: int| 0 <= j < post.len() implies post[j].1.len() == 0 by {
                    if j < i as int {
                        assert(post[j] == pre[j]);
                    }
                }
            } else {
                let j = choose|j: int| 0 <= j < pre.len() && pre[j].1.len() != 0;
                assert(post[j] == pre[j]);
                assert(!all_groups_empty(post));
            }
        }
        if entries[i].1.len() > 0 {
            empty = false;
        }
        i += 1;
    }
    proof {
        assert(group_views(entries@).take(entries@.len() as int) =~= group_views(entries@));
    }
    if empty {
        return Rendered::NoItems;
    }
    let mut lines: Vec<String> = Vec::new();
    match format {
        Formatting::Yaml => {
            match &docs.yaml {
                Some(doc) => lines.push(doc.clone()),
                None => lines.push(String::new()),
            }
            proof {
                assert(seq_views(lines@) =~= seq![doc_or_empty(option_view(docs.yaml))]);
            }
            return Rendered::Lines(lines);
        },
        Formatting::Json => {
            match &docs.json {
                Some(doc) => lines.push(doc.clone()),
                None => lines.push(String::new()),
            }
            proof {
                assert(seq_views(lines@) =~= seq![doc_or_empty(option_view(docs.json))]);
            }
            return Rendered::Lines(lines);
        },
        Formatting::Tab => {
            let headers = keyed_headers::<T>();
            lines.push(join_strings(&headers, "\t"));
        },
        Formatting::Csv => {
            let headers = keyed_headers::<T>();
            lines.push(join_strings(&headers, ","));
        },
        _ => {},
    }
    proof {
        assert(seq_views(lines@) =~= keyed_header_lines::<T>(format) + group_body_lines(
            group_views(entries@).take(0),
            format,
        ));
    }
    let mut i: usize = 0;
    while i < entries.len()
        invariant
            i <= entries@.len(),
            !(format is Yaml) && !(format is Json),
            !all_groups_empty(group_views(entries@)),
            seq_views(lines@) == keyed_header_lines::<T>(format) + group_body_lines(
                group_views(entries@).take(i as int),
                format,
            ),
        decreases entries@.len() - i,
    {
        let pair = &entries[i];
        let mut j: usize = 0;
        while j < pair.1.len()
            invariant
                i < entries@.len(),
                j <= entries@[i as int].1@.len(),
                pair == &entries@[i as int],
                !(format is Yaml) && !(format is Json),
                !all_groups_empty(group_views(entries@)),
                seq_views(lines@) == keyed_header_lines::<T>(format) + group_body_lines(
                    group_views(entries@).take(i as int),
                    format,
                ) + group_lines_one(
                    entries@[i as int].0@,
                    entries@[i as int].1@.take(j as int),
                    format,
                ),
            decreases pair.1@.len() - j,
        {
            let ghost old_lines = lines@;
            let line = render_entry(&pair.0, &pair.1[j], format);
            lines.push(line);
            proof {
                let key = entries@[i as int].0@;
                let group = entries@[i as int].1@;
                assert(seq_views(lines@) =~= seq_views(old_lines).push(line@));
                assert(group_lines_one(key, group.take(j as int + 1), format) =~= group_lines_one(
                    key,
                    group.take(j as int),
                    format,
                ).push(entry_line(key, group[j as int], format)));
                assert(seq_views(lines@) =~= keyed_header_lines::<T>(format) + group_body_lines(
                    group_views(entries@).take(i as int),
                    format,
                ) + group_lines_one(key, group.take(j as int + 1), format));
            }
            j += 1;
        }
        proof {
            let gv = group_views(entries@);
            let group = entries@[i as int].1@;
            assert(group.take(group.len() as int) =~= group);
            lemma_group_body_push(gv.take(i as int), gv[i as int], format);
            assert(gv.take(i as int).push(gv[i as int]) =~= gv.take(i as int + 1));
            assert(gv[i as int] == (entries@[i as int].0@, entries@[i as int].1@));
            assert(seq_views(lines@) =~= keyed_header_lines::<T>(format) + group_body_lines(
                gv.take(i as int + 1),
                format,
            ));
        }
        i += 1;
    }
    proof {
        assert(group_views(entries@).take(entries@.len() as int) =~= group_views(entries@));
    }
    Rendered::Lines(lines)
}

} // verus!
