//! Rendering records as lines of an output file.

use vstd::prelude::*;
use crate::clock::{rfc3339_text, write_rfc3339};
use crate::json::{json_map_insert, json_map_new, json_map_strings, json_map_to_text, json_object_text, text_result_view};
use crate::record::{find_field, first_value, ParsedRecord, RecordView};
use crate::config::copy_texts;
use crate::text::{char_text, join_texts, joined};

verus! {

/// How a record is written as a line.
#[derive(Debug)]
pub enum OutputFormat {
    /// The record's `raw` field.
    Raw,
    /// A JSON object of the instant and the fields.
    Json,
    /// The field values, separated by `, `.
    Csv,
    /// The values of the named fields, separated by `delimiter`.
    Delimited { delimiter: char, fields: Vec<String> },
}

/// The mathematical form of an [`OutputFormat`].
pub enum OutputFormatView {
    Raw,
    Json,
    Csv,
    Delimited { delimiter: char, fields: Seq<Seq<char>> },
}

impl View for OutputFormat {
    type V = OutputFormatView;

    open spec fn view(&self) -> OutputFormatView {
        match self {
            OutputFormat::Raw => OutputFormatView::Raw,
            OutputFormat::Json => OutputFormatView::Json,
            OutputFormat::Csv => OutputFormatView::Csv,
            OutputFormat::Delimited { delimiter, fields } => OutputFormatView::Delimited {
                delimiter: *delimiter,
                fields: fields.deep_view(),
            },
        }
    }
}

impl OutputFormat {
    /// A copy of this format.
    pub fn duplicate(&self) -> (r: OutputFormat)
        ensures
            r@ == self@,
    {
        match self {
            OutputFormat::Raw => OutputFormat::Raw,
            OutputFormat::Json => OutputFormat::Json,
            OutputFormat::Csv => OutputFormat::Csv,
            OutputFormat::Delimited { delimiter, fields } => OutputFormat::Delimited {
                delimiter: *delimiter,
                fields: copy_texts(fields),
            },
        }
    }
}

/// The value of the first field named `key`, or the empty text.
pub open spec fn value_or_empty(fields: Seq<(Seq<char>, Seq<char>)>, key: Seq<char>) -> Seq<char> {
    match first_value(fields, key) {
        Some(v) => v,
        None => seq![],
    }
}

/// The members after putting each field into `m` in order: a later field
/// replaces an earlier member of the same name.
pub open spec fn put_fields(m: Map<Seq<char>, Seq<char>>, fields: Seq<(Seq<char>, Seq<char>)>) -> Map<Seq<char>, Seq<char>>
    decreases fields.len(),
{
    if fields.len() == 0 {
        m
    } else {
        put_fields(m, fields.drop_last()).insert(fields.last().0, fields.last().1)
    }
}

/// The members of a record's JSON object: `timestamp` with the instant in
/// RFC 3339 (where it has one that `chrono` can write), then every field, a
/// later one replacing an earlier one of the same name.
pub open spec fn json_members(record: RecordView) -> Map<Seq<char>, Seq<char>> {
    let base = match record.timestamp {
        Some(ts) => match rfc3339_text(ts) {
            Some(t) => Map::empty().insert("timestamp"@, t),
            None => Map::empty(),
        },
        None => Map::empty(),
    };
    put_fields(base, record.fields)
}

/// The values of the fields, in order.
pub open spec fn field_values(fields: Seq<(Seq<char>, Seq<char>)>) -> Seq<Seq<char>> {
    fields.map_values(|f: (Seq<char>, Seq<char>)| f.1)
}

/// For each name, the value of the first field so named, or the empty text.
pub open spec fn selected_values(fields: Seq<(Seq<char>, Seq<char>)>, names: Seq<Seq<char>>) -> Seq<Seq<char>> {
    names.map_values(|n: Seq<char>| value_or_empty(fields, n))
}

/// The line a record is written as, or the error that stops it.
pub open spec fn formatted(format: OutputFormatView, record: RecordView) -> Result<Seq<char>, Seq<char>> {
    match format {
        OutputFormatView::Raw => Ok(value_or_empty(record.fields, "raw"@)),
        OutputFormatView::Json => json_object_text(json_members(record)),
        OutputFormatView::Csv => Ok(joined(field_values(record.fields), ", "@)),
        OutputFormatView::Delimited { delimiter, fields } => Ok(
            joined(selected_values(record.fields, fields), seq![delimiter]),
        ),
    }
}

/// The formatting half of a file sink: how each record becomes a line.
pub struct FileSink {
    format: OutputFormat,
}

impl View for FileSink {
    type V = OutputFormatView;

    closed spec fn view(&self) -> OutputFormatView {
        self.format@
    }
}

impl FileSink {
    /// A sink that writes records in `format`.
    pub fn new(format: OutputFormat) -> (r: Self)
        ensures
            r@ == format@,
    {
        FileSink { format }
    }

    /// The line a record is written as; formatting never fails.
    pub fn format_record(&self, record: &ParsedRecord) -> (r: Result<String, String>)
        ensures
            text_result_view(r) == formatted(self@, record@),
            r is Ok,
    {
        match &self.format {
            OutputFormat::Raw => {
                let raw = match find_field(&record.fields, "raw") {
                    Some(v) => v.to_owned(),
                    None => String::new(),
                };
                Ok(raw)
            },
            OutputFormat::Json => {
                let mut map = json_map_new();
                if let Some(ts) = record.timestamp {
                    if let Some(text) = write_rfc3339(ts) {
                        json_map_insert(&mut map, String::from_str("timestamp"), text);
                    }
                }
                let ghost base = json_map_strings(map);
                let ghost fv = record.fields.deep_view();
                let mut i: usize = 0;
                while i < record.fields.len()
                    invariant
                        fv == record.fields.deep_view(),
                        fv.len() == record.fields.len(),
                        i <= record.fields.len(),
                        json_map_strings(map) == put_fields(base, fv.take(i as int)),
                    decreases record.fields.len() - i,
                {
                    assert(fv.take(i + 1).drop_last() =~= fv.take(i as int));
                    assert(fv[i as int] == (record.fields[i as int].0@, record.fields[i as int].1@));
                    json_map_insert(&mut map, record.fields[i].0.clone(), record.fields[i].1.clone());
                    i = i + 1;
                }
                assert(fv.take(fv.len() as int) =~= fv);
                json_map_to_text(&map)
            },
            OutputFormat::Csv => {
                let mut values: Vec<String> = Vec::new();
                let ghost fv = record.fields.deep_view();
                let mut i: usize = 0;
                while i < record.fields.len()
                    invariant
                        fv == record.fields.deep_view(),
                        fv.len() == record.fields.len(),
                        i <= record.fields.len(),
                        values.deep_view() =~= field_values(fv.take(i as int)),
                    decreases record.fields.len() - i,
                {
                    let ghost before = values.deep_view();
                    values.push(record.fields[i].1.clone());
                    assert(values.deep_view() =~= before.push(fv[i as int].1));
                    assert(fv.take(i + 1) =~= fv.take(i as int).push(fv[i as int]));
                    i = i + 1;
                }
                assert(fv.take(fv.len() as int) =~= fv);
                Ok(join_texts(&values, ", "))
            },
            OutputFormat::Delimited { delimiter, fields } => {
                let mut values: Vec<String> = Vec::new();
                let ghost names = fields.deep_view();
                let mut i: usize = 0;
                while i < fields.len()
                    invariant
                        names == fields.deep_view(),
                        names.len() == fields.len(),
                        i <= fields.len(),
                        values.deep_view() =~= selected_values(record.fields.deep_view(), names.take(i as int)),
                    decreases fields.len() - i,
                {
                    let v = match find_field(&record.fields, fields[i].as_str()) {
                        Some(v) => v.to_owned(),
                        None => String::new(),
                    };
                    let ghost before = values.deep_view();
                    values.push(v);
                    assert(values.deep_view() =~= before.push(v@));
                    assert(names[i as int] == fields[i as int]@);
                    assert(names.take(i + 1) =~= names.take(i as int).push(names[i as int]));
                    i = i + 1;
                }
                assert(names.take(names.len() as int) =~= names);
                let sep = char_text(*delimiter);
                Ok(join_texts(&values, sep.as_str()))
            },
        }
    }
}

} // verus!
