//! The structured form of a log line.

use vstd::prelude::*;
use crate::text::text_eq;

verus! {

/// An instant, as seconds since the Unix epoch (UTC) and the nanoseconds
/// within that second.
#[derive(Clone, Copy, Debug, PartialEq, Eq, Structural)]
pub struct Timestamp {
    pub secs: i64,
    pub nanos: u32,
}

/// One record: an optional instant and the named fields in the order the
/// parser produced them.
#[derive(Debug)]
pub struct ParsedRecord {
    pub timestamp: Option<Timestamp>,
    pub fields: Vec<(String, String)>,
}

impl ParsedRecord {
    /// A copy of this record.
    pub fn duplicate(&self) -> (r: ParsedRecord)
        ensures
            r@ == self@,
    {
        ParsedRecord { timestamp: self.timestamp, fields: crate::config::copy_pairs(&self.fields) }
    }
}

/// The mathematical form of a record.
pub struct RecordView {
    pub timestamp: Option<Timestamp>,
    pub fields: Seq<(Seq<char>, Seq<char>)>,
}

impl View for ParsedRecord {
    type V = RecordView;

    open spec fn view(&self) -> RecordView {
        RecordView { timestamp: self.timestamp, fields: self.fields.deep_view() }
    }
}

/// The value of the first field whose name is `key`, if any.
pub open spec fn first_value(fields: Seq<(Seq<char>, Seq<char>)>, key: Seq<char>) -> Option<Seq<char>>
    decreases fields.len(),
{
    if fields.len() == 0 {
        None
    } else if fields[0].0 == key {
        Some(fields[0].1)
    } else {
        first_value(fields.drop_first(), key)
    }
}

/// The index of the first field whose name is `key`, if any.
pub open spec fn first_index(fields: Seq<(Seq<char>, Seq<char>)>, key: Seq<char>) -> Option<int>
    decreases fields.len(),
{
    if fields.len() == 0 {
        None
    } else if fields[0].0 == key {
        Some(0)
    } else {
        match first_index(fields.drop_first(), key) {
            Some(i) => Some(i + 1),
            None => None,
        }
    }
}

/// [`first_value`] is the value at [`first_index`], which is the least index
/// holding `key`.
pub proof fn lemma_first_index(fields: Seq<(Seq<char>, Seq<char>)>, key: Seq<char>)
    ensures
        first_index(fields, key) matches Some(i) ==> {
            &&& 0 <= i < fields.len()
            &&& fields[i].0 == key
            &&& forall|j: int| 0 <= j < i ==> fields[j].0 != key
            &&& first_value(fields, key) == Some(fields[i].1)
        },
        first_index(fields, key) is None ==> {
            &&& forall|j: int| 0 <= j < fields.len() ==> fields[j].0 != key
            &&& first_value(fields, key) is None
        },
    decreases fields.len(),
{
    if fields.len() > 0 && fields[0].0 != key {
        lemma_first_index(fields.drop_first(), key);
        assert forall|j: int| 1 <= j < fields.len() implies fields[j] == fields.drop_first()[j - 1] by {}
        if first_index(fields.drop_first(), key) is None {
            assert forall|j: int| 0 <= j < fields.len() implies fields[j].0 != key by {
                if j > 0 {
                    assert(fields[j] == fields.drop_first()[j - 1]);
                }
            }
        } else {
            let i = first_index(fields.drop_first(), key)->0;
            assert forall|j: int| 0 <= j < i + 1 implies fields[j].0 != key by {
                if j > 0 {
                    assert(fields[j] == fields.drop_first()[j - 1]);
                }
            }
        }
    }
}

/// The value of the first field of `fields` named `key`.
pub fn find_field<'a>(fields: &'a Vec<(String, String)>, key: &str) -> (r: Option<&'a str>)
    ensures
        r matches Some(v) ==> first_value(fields.deep_view(), key@) == Some(v@),
        r is None ==> first_value(fields.deep_view(), key@) is None,
{
    let ghost fv = fields.deep_view();
    proof {
        lemma_first_index(fv, key@);
    }
    let mut i: usize = 0;
    while i < fields.len()
        invariant
            fv == fields.deep_view(),
            fv.len() == fields.len(),
            i <= fields.len(),
            forall|j: int| 0 <= j < i ==> fv[j].0 != key@,
            first_index(fv, key@) matches Some(k) ==> i <= k,
        decreases fields.len() - i,
    {
        assert(fv[i as int] == (fields[i as int].0@, fields[i as int].1@));
        proof {
            lemma_first_index(fv, key@);
        }
        if text_eq(fields[i].0.as_str(), key) {
            return Some(fields[i].1.as_str());
        }
        i = i + 1;
    }
    proof {
        lemma_first_index(fv, key@);
    }
    None
}

} // verus!
