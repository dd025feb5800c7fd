//! Deriving a field from another one: an instant written in a format, or a
//! part of a URL.

use vstd::prelude::*;
use vstd::string::*;
use crate::clock::{format_instant, instant_text, parse_rfc3339, rfc3339_instant};
use crate::config::{EnrichType, UrlPart};
use crate::etl_core::transformer::Transformer;
use crate::record::{find_field, first_value, ParsedRecord, RecordView, Timestamp};
use crate::text::{chars_of, text_eq};
use crate::transformers::filter::{NumericQuery, NumericQueryView};

verus! {

/// The first index at or after `start` whose character is one of `stops`;
/// the length where there is none.
pub open spec fn first_stop(s: Seq<char>, start: int, stops: Seq<char>) -> int
    decreases s.len() - start,
{
    if start < 0 || start >= s.len() {
        s.len() as int
    } else if stops.contains(s[start]) {
        start
    } else {
        first_stop(s, start + 1, stops)
    }
}

/// The first index at or after `start` where `://` begins; the length where there is none.
pub open spec fn scheme_end(s: Seq<char>, start: int) -> int
    decreases s.len() - start,
{
    if start < 0 || start + 3 > s.len() {
        s.len() as int
    } else if s[start] == ':' && s[start + 1] == '/' && s[start + 2] == '/' {
        start
    } else {
        scheme_end(s, start + 1)
    }
}

/// The URL names a host: it holds `://`.
pub open spec fn has_authority(u: Seq<char>) -> bool {
    scheme_end(u, 0) < u.len()
}

/// Where the host part begins: after the first `://`, else at the start.
pub open spec fn authority_start(u: Seq<char>) -> int {
    if has_authority(u) {
        scheme_end(u, 0) + 3
    } else {
        0
    }
}

/// Where the host part ends: at the first `/`, `?` or `#` after it (the
/// start where the URL names no host).
pub open spec fn authority_end(u: Seq<char>) -> int {
    if has_authority(u) {
        first_stop(u, authority_start(u), seq!['/', '?', '#'])
    } else {
        0
    }
}

/// A part of a URL: the domain is the host after `://` up to a port, path,
/// query or fragment (empty without `://`); the path runs from the end of the
/// host to `?` or `#`; the query runs from the `?` that ends the path to `#`
/// (empty where the path is not ended by `?`).
pub open spec fn url_part(u: Seq<char>, part: UrlPart) -> Seq<char> {
    match part {
        UrlPart::Domain => if has_authority(u) {
            u.subrange(authority_start(u), first_stop(u, authority_start(u), seq![':', '/', '?', '#']))
        } else {
            seq![]
        },
        UrlPart::Path => u.subrange(authority_end(u), first_stop(u, authority_end(u), seq!['?', '#'])),
        UrlPart::Query => {
            let q = first_stop(u, authority_end(u), seq!['?', '#']);
            if q < u.len() && u[q] == '?' {
                u.subrange(q + 1, first_stop(u, q + 1, seq!['#']))
            } else {
                seq![]
            }
        },
    }
}

/// The instant an enricher reads: the record's own instant for the source
/// `timestamp`, else the first field of the source's name read as RFC 3339.
pub open spec fn source_instant(source: Seq<char>, record: RecordView) -> Option<Timestamp> {
    if source == "timestamp"@ {
        record.timestamp
    } else {
        match first_value(record.fields, source) {
            Some(v) => rfc3339_instant(v),
            None => None,
        }
    }
}

/// The record with one more field at the end.
pub open spec fn with_field(record: RecordView, name: Seq<char>, value: Seq<char>) -> RecordView {
    RecordView { timestamp: record.timestamp, fields: record.fields.push((name, value)) }
}

/// What an enricher makes of a record. `time_format` adds `field` with the
/// source instant written in the format (nothing where there is no instant
/// or it cannot be written); `url_parse` adds `field` with the part of the
/// source field's URL (nothing where the record lacks the source field);
/// `ip_geo` leaves the record as it is.
pub open spec fn enriched(field: Seq<char>, source: Seq<char>, kind: EnrichType, record: RecordView) -> RecordView {
    match kind {
        EnrichType::TimeFormat { format } => match source_instant(source, record) {
            Some(ts) => match instant_text(ts, format@) {
                Some(t) => with_field(record, field, t),
                None => record,
            },
            None => record,
        },
        EnrichType::UrlParse { part } => match first_value(record.fields, source) {
            Some(u) => with_field(record, field, url_part(u, part)),
            None => record,
        },
        EnrichType::IpGeo => record,
    }
}

/// Whether `c` is one of `stops`.
fn is_stop(c: char, stops: &Vec<char>) -> (r: bool)
    ensures
        r == stops@.contains(c),
{
    let mut i: usize = 0;
    while i < stops.len()
        invariant
            i <= stops.len(),
            forall|j: int| 0 <= j < i ==> stops@[j] != c,
        decreases stops.len() - i,
    {
        if stops[i] == c {
            assert(stops@[i as int] == c);
            return true;
        }
        i = i + 1;
    }
    false
}

/// [`first_stop`], computed.
fn find_stop(cs: &Vec<char>, start: usize, stops: &Vec<char>) -> (r: usize)
    requires
        start <= cs.len(),
    ensures
        r == first_stop(cs@, start as int, stops@),
        start <= r <= cs.len(),
{
    let mut i = start;
    while i < cs.len()
        invariant
            start <= i <= cs.len(),
            first_stop(cs@, start as int, stops@) == first_stop(cs@, i as int, stops@),
        decreases cs.len() - i,
    {
        if is_stop(cs[i], stops) {
            return i;
        }
        i = i + 1;
    }
    i
}

/// [`scheme_end`] from the start, computed.
fn find_scheme_end(cs: &Vec<char>) -> (r: usize)
    ensures
        r == scheme_end(cs@, 0),
        r <= cs.len(),
        r < cs.len() ==> r + 3 <= cs.len(),
{
    let mut i: usize = 0;
    while i < cs.len() && cs.len() - i >= 3
        invariant
            i <= cs.len(),
            scheme_end(cs@, 0) == scheme_end(cs@, i as int),
        decreases cs.len() - i,
    {
        if cs[i] == ':' && cs[i + 1] == '/' && cs[i + 2] == '/' {
            return i;
        }
        i = i + 1;
    }
    cs.len()
}

/// A part of a URL (see [`url_part`]).
pub fn url_part_of(url: &str, part: UrlPart) -> (r: String)
    ensures
        r@ == url_part(url@, part),
{
    let cs = chars_of(url);
    let n = cs.len();
    let se = find_scheme_end(&cs);
    let has_auth = se < n;
    let a_start: usize = if has_auth { se + 3 } else { 0 };
    let mut host_stops: Vec<char> = Vec::new();
    host_stops.push('/');
    host_stops.push('?');
    host_stops.push('#');
    assert(host_stops@ =~= seq!['/', '?', '#']);
    let a_end: usize = if has_auth { find_stop(&cs, a_start, &host_stops) } else { 0 };
    let mut path_stops: Vec<char> = Vec::new();
    path_stops.push('?');
    path_stops.push('#');
    assert(path_stops@ =~= seq!['?', '#']);
    match part {
        UrlPart::Domain => {
            if has_auth {
                let mut domain_stops: Vec<char> = Vec::new();
                domain_stops.push(':');
                domain_stops.push('/');
                domain_stops.push('?');
                domain_stops.push('#');
                assert(domain_stops@ =~= seq![':', '/', '?', '#']);
                let d_end = find_stop(&cs, a_start, &domain_stops);
                url.substring_char(a_start, d_end).to_owned()
            } else {
                String::new()
            }
        },
        UrlPart::Path => {
            let p_end = find_stop(&cs, a_end, &path_stops);
            url.substring_char(a_end, p_end).to_owned()
        },
        UrlPart::Query => {
            let q = find_stop(&cs, a_end, &path_stops);
            if q < n && cs[q] == '?' {
                let mut frag: Vec<char> = Vec::new();
                frag.push('#');
                assert(frag@ =~= seq!['#']);
                let q_end = find_stop(&cs, q + 1, &frag);
                url.substring_char(q + 1, q_end).to_owned()
            } else {
                String::new()
            }
        },
    }
}

/// A transformer that derives `field` from `source_field`.
pub struct EnrichTransformer {
    field: String,
    source_field: String,
    enrich_type: EnrichType,
}

impl EnrichTransformer {
    /// Builds an enricher; this never fails.
    pub fn new(field: String, source_field: String, enrich_type: EnrichType) -> (r: Result<Self, String>)
        ensures
            r matches Ok(e) ==> e.field() == field@ && e.source_field() == source_field@ && e.enrich_type() == enrich_type,
            r is Ok,
    {
        Ok(EnrichTransformer { field, source_field, enrich_type })
    }

    /// The name of the field this enricher derives.
    pub closed spec fn field(&self) -> Seq<char> {
        self.field@
    }

    /// How the field is derived.
    pub closed spec fn enrich_type(&self) -> EnrichType {
        self.enrich_type
    }

    /// The name of the field this enricher reads.
    pub closed spec fn source_field(&self) -> Seq<char> {
        self.source_field@
    }

    /// What this enricher makes of a record.
    pub open spec fn enriched_record(&self, record: RecordView) -> RecordView {
        enriched(self.field(), self.source_field(), self.enrich_type(), record)
    }

    /// The instant this enricher reads from the record.
    fn read_instant(&self, record: &ParsedRecord) -> (r: Option<Timestamp>)
        ensures
            r == source_instant(self.source_field(), record@),
    {
        if text_eq(self.source_field.as_str(), "timestamp") {
            record.timestamp
        } else {
            match find_field(&record.fields, self.source_field.as_str()) {
                Some(v) => parse_rfc3339(v),
                None => None,
            }
        }
    }

    /// Adds the derived field, where there is one to add.
    pub fn enrich(&self, record: ParsedRecord) -> (r: ParsedRecord)
        ensures
            r@ == self.enriched_record(record@),
    {
        let mut record = record;
        let ghost before = record@;
        let value: Option<String> = match &self.enrich_type {
            EnrichType::TimeFormat { format } => match self.read_instant(&record) {
                Some(ts) => format_instant(ts, format.as_str()),
                None => None,
            },
            EnrichType::UrlParse { part } => match find_field(&record.fields, self.source_field.as_str()) {
                Some(u) => Some(url_part_of(u, *part)),
                None => None,
            },
            EnrichType::IpGeo => None,
        };
        if let Some(v) = value {
            let ghost fv = record.fields.deep_view();
            record.fields.push((self.field.clone(), v));
            assert(record.fields.deep_view() =~= fv.push((self.field@, v@)));
        }
        assert(record@ == self.enriched_record(before));
        record
    }
}

impl Transformer for EnrichTransformer {
    open spec fn outcome(&self, record: RecordView, numeric: bool) -> Result<Option<RecordView>, Seq<char>> {
        Ok(Some(self.enriched_record(record)))
    }

    open spec fn query(&self, record: RecordView) -> Option<NumericQueryView> {
        None
    }

    /// Adds the derived field; never drops or fails.
    fn transform(&self, record: ParsedRecord, numeric: bool) -> (r: Result<Option<ParsedRecord>, String>) {
        Ok(Some(self.enrich(record)))
    }

    fn numeric_query(&self, record: &ParsedRecord) -> (r: Option<NumericQuery>) {
        None
    }
}

} // verus!
