//! JSON log lines.

use vstd::prelude::*;
use crate::clock::{parse_rfc3339, rfc3339_instant};
use crate::etl_core::parser::Parser;
use crate::json::{json_document, members_of, read_json_document, JsonDocument, JsonDocumentView, JsonMember, JsonMemberView};
use crate::record::{find_field, first_value, ParsedRecord, RecordView, Timestamp};
use crate::text::text_eq;

verus! {

/// The value of the first field named `timestamp` or `time`, if any.
pub open spec fn first_time_value(fields: Seq<(Seq<char>, Seq<char>)>) -> Option<Seq<char>>
    decreases fields.len(),
{
    if fields.len() == 0 {
        None
    } else if fields[0].0 == "timestamp"@ || fields[0].0 == "time"@ {
        Some(fields[0].1)
    } else {
        first_time_value(fields.drop_first())
    }
}

/// The instant of a JSON record: the first `timestamp` or `time` field read
/// as RFC 3339; none where that field does not read, or there is none.
pub open spec fn json_timestamp(fields: Seq<(Seq<char>, Seq<char>)>) -> Option<Timestamp> {
    match first_time_value(fields) {
        Some(v) => rfc3339_instant(v),
        None => None,
    }
}

/// The text a member's value becomes: a string's content; `null`, `true`
/// or `false`; the JSON text of a number, an array or an object.
pub open spec fn member_text(m: JsonMemberView) -> Seq<char> {
    match m {
        JsonMemberView::Null => "null"@,
        JsonMemberView::Bool(b) => if b {
            "true"@
        } else {
            "false"@
        },
        JsonMemberView::Number(t) => t,
        JsonMemberView::Str(s) => s,
        JsonMemberView::Array(t) => t,
        JsonMemberView::Object(t) => t,
    }
}

/// The name a key gets under `field_map`: the mapped name where the map has
/// the key (its first entry for it), else the key itself.
pub open spec fn renamed(field_map: Seq<(Seq<char>, Seq<char>)>, key: Seq<char>) -> Seq<char> {
    match first_value(field_map, key) {
        Some(n) => n,
        None => key,
    }
}

/// The fields of a JSON value: for an object, each member in order, its key
/// renamed under `field_map` and its value as [`member_text`]; none for any
/// other value.
pub open spec fn document_fields(field_map: Seq<(Seq<char>, Seq<char>)>, doc: JsonDocumentView) -> Seq<(Seq<char>, Seq<char>)> {
    match doc {
        JsonDocumentView::Object(ms) => ms.map_values(
            |p: (Seq<char>, JsonMemberView)| (renamed(field_map, p.0), member_text(p.1)),
        ),
        JsonDocumentView::Other(_) => seq![],
    }
}

/// The record of a JSON value: its fields, and the instant read from them.
pub open spec fn json_record(field_map: Seq<(Seq<char>, Seq<char>)>, doc: JsonDocumentView) -> RecordView {
    let fields = document_fields(field_map, doc);
    RecordView { timestamp: json_timestamp(fields), fields }
}

/// What a parser with `field_map` makes of a line.
pub open spec fn json_parse(field_map: Seq<(Seq<char>, Seq<char>)>, line: Seq<char>) -> Result<RecordView, Seq<char>> {
    match json_document(line) {
        Err(e) => Err(e),
        Ok(doc) => Ok(json_record(field_map, doc)),
    }
}

/// Reads a line holding one JSON value, renaming keys under a field map.
pub struct JsonParser {
    field_map: Vec<(String, String)>,
}

impl JsonParser {
    /// The key renamings: each entry maps a key to the name it gets.
    pub closed spec fn field_map(&self) -> Seq<(Seq<char>, Seq<char>)> {
        self.field_map.deep_view()
    }

    /// A JSON parser that renames no key.
    pub fn new() -> (r: Self)
        ensures
            r.field_map() == Seq::<(Seq<char>, Seq<char>)>::empty(),
    {
        let r = JsonParser { field_map: Vec::new() };
        assert(r.field_map() =~= Seq::<(Seq<char>, Seq<char>)>::empty());
        r
    }

    /// A JSON parser that renames keys under `field_map`.
    pub fn with_field_map(field_map: Vec<(String, String)>) -> (r: Self)
        ensures
            r.field_map() == field_map.deep_view(),
    {
        JsonParser { field_map }
    }

    /// The text a member's value becomes.
    pub fn member_text(m: &JsonMember) -> (r: String)
        ensures
            r@ == member_text(m@),
    {
        match m {
            JsonMember::Null => String::from_str("null"),
            JsonMember::Bool(b) => if *b {
                String::from_str("true")
            } else {
                String::from_str("false")
            },
            JsonMember::Number(t) => t.clone(),
            JsonMember::Str(t) => t.clone(),
            JsonMember::Array(t) => t.clone(),
            JsonMember::Object(t) => t.clone(),
        }
    }

    /// The name `key` gets under this parser's field map.
    pub fn rename(&self, key: &str) -> (r: String)
        ensures
            r@ == renamed(self.field_map(), key@),
    {
        match find_field(&self.field_map, key) {
            Some(n) => n.to_owned(),
            None => key.to_owned(),
        }
    }

    /// The instant of the first `timestamp` or `time` field, read as RFC 3339.
    pub fn find_timestamp(fields: &Vec<(String, String)>) -> (r: Option<Timestamp>)
        ensures
            r == json_timestamp(fields.deep_view()),
    {
        let ghost fv = fields.deep_view();
        let mut i: usize = 0;
        assert(fv.skip(0) =~= fv);
        while i < fields.len()
            invariant
                fv == fields.deep_view(),
                fv.len() == fields.len(),
                i <= fields.len(),
                first_time_value(fv) == first_time_value(fv.skip(i as int)),
            decreases fields.len() - i,
        {
            assert(fv.skip(i as int).drop_first() =~= fv.skip(i + 1));
            assert(fv.skip(i as int)[0] == (fields[i as int].0@, fields[i as int].1@));
            let k = fields[i].0.as_str();
            if text_eq(k, "timestamp") || text_eq(k, "time") {
                return parse_rfc3339(fields[i].1.as_str());
            }
            i = i + 1;
        }
        None
    }

    /// The record of a JSON value as `serde_json` read it.
    pub fn record_from_document(&self, doc: JsonDocument) -> (r: ParsedRecord)
        ensures
            r@ == json_record(self.field_map(), doc@),
    {
        let ghost dv = doc@;
        let mut fields: Vec<(String, String)> = Vec::new();
        match doc {
            JsonDocument::Object(members) => {
                let ghost ms = members_of(members@);
                let mut i: usize = 0;
                while i < members.len()
                    invariant
                        i <= members.len(),
                        dv == JsonDocumentView::Object(ms),
                        ms == members_of(members@),
                        fields.deep_view() =~= document_fields(self.field_map(), JsonDocumentView::Object(ms.take(i as int))),
                    decreases members.len() - i,
                {
                    let ghost before = fields.deep_view();
                    let key = self.rename(members[i].0.as_str());
                    let text = Self::member_text(&members[i].1);
                    fields.push((key, text));
                    assert(ms[i as int] == (members@[i as int].0@, members@[i as int].1@));
                    assert(ms.take(i + 1) =~= ms.take(i as int).push(ms[i as int]));
                    assert(fields.deep_view() =~= before.push((key@, text@)));
                    i = i + 1;
                }
                assert(ms.take(members.len() as int) =~= ms);
            },
            JsonDocument::Other(_) => {
                assert(fields.deep_view() =~= document_fields(self.field_map(), dv));
            },
        }
        let timestamp = Self::find_timestamp(&fields);
        ParsedRecord { timestamp, fields }
    }
}

impl Parser for JsonParser {
    open spec fn parse_spec(&self, line: Seq<char>) -> Result<RecordView, Seq<char>> {
        json_parse(self.field_map(), line)
    }

    /// Reads the line as JSON; the members of an object become the fields,
    /// their keys renamed under the field map.
    fn parse(&self, line: &str) -> (r: Result<ParsedRecord, String>) {
        match read_json_document(line) {
            Err(e) => Err(e),
            Ok(doc) => Ok(self.record_from_document(doc)),
        }
    }
}

} // verus!
