//! Transformers, and a chain that runs several in order.

use vstd::prelude::*;
use crate::record::{ParsedRecord, RecordView};
use crate::transformers::enrich::EnrichTransformer;
use crate::transformers::filter::{FilterTransformer, NumericQuery, NumericQueryView};

verus! {

/// The mathematical form of what a transformer returns.
pub open spec fn outcome_view(r: Result<Option<ParsedRecord>, String>) -> Result<Option<RecordView>, Seq<char>> {
    match r {
        Ok(Some(x)) => Ok(Some(x@)),
        Ok(None) => Ok(None),
        Err(e) => Err(e@),
    }
}

/// The mathematical form of an optional numeric query.
pub open spec fn query_view(q: Option<NumericQuery>) -> Option<NumericQueryView> {
    match q {
        Some(x) => Some(x@),
        None => None,
    }
}

/// A stage that maps a record to a record (`Ok(Some)`), drops it
/// (`Ok(None)`) or fails (`Err`). A stage may need one numeric comparison to
/// decide; `numeric` answers the comparison that [`Transformer::numeric_query`]
/// asks for on the same record.
pub trait Transformer {
    /// What the stage does with `record`, given the numeric answer.
    spec fn outcome(&self, record: RecordView, numeric: bool) -> Result<Option<RecordView>, Seq<char>>;

    /// The numeric comparison the stage needs to decide on `record`, if any.
    spec fn query(&self, record: RecordView) -> Option<NumericQueryView>;

    fn transform(&self, record: ParsedRecord, numeric: bool) -> (r: Result<Option<ParsedRecord>, String>)
        ensures
            outcome_view(r) == self.outcome(record@, numeric),
    ;

    fn numeric_query(&self, record: &ParsedRecord) -> (r: Option<NumericQuery>)
        ensures
            query_view(r) == self.query(record@),
    ;
}

/// One stage of a chain.
pub enum AnyTransformer {
    Filter(FilterTransformer),
    Enrich(EnrichTransformer),
}

impl Transformer for AnyTransformer {
    open spec fn outcome(&self, record: RecordView, numeric: bool) -> Result<Option<RecordView>, Seq<char>> {
        match self {
            AnyTransformer::Filter(f) => f.outcome(record, numeric),
            AnyTransformer::Enrich(e) => e.outcome(record, numeric),
        }
    }

    open spec fn query(&self, record: RecordView) -> Option<NumericQueryView> {
        match self {
            AnyTransformer::Filter(f) => f.query(record),
            AnyTransformer::Enrich(e) => e.query(record),
        }
    }

    fn transform(&self, record: ParsedRecord, numeric: bool) -> (r: Result<Option<ParsedRecord>, String>) {
        match self {
            AnyTransformer::Filter(f) => f.transform(record, numeric),
            AnyTransformer::Enrich(e) => e.transform(record, numeric),
        }
    }

    fn numeric_query(&self, record: &ParsedRecord) -> (r: Option<NumericQuery>) {
        match self {
            AnyTransformer::Filter(f) => f.numeric_query(record),
            AnyTransformer::Enrich(e) => e.numeric_query(record),
        }
    }
}

/// The answer for stage `i`: `false` where none is given.
pub open spec fn answer_at(answers: Seq<bool>, i: int) -> bool {
    0 <= i < answers.len() && answers[i]
}

/// Runs stages `start..` on `record`: the first failure or drop ends the run,
/// and each kept record goes on to the next stage.
pub open spec fn chain_outcome(
    stages: Seq<AnyTransformer>,
    record: RecordView,
    answers: Seq<bool>,
    start: int,
) -> Result<Option<RecordView>, Seq<char>>
    decreases stages.len() - start,
{
    if start < 0 || start >= stages.len() {
        Ok(Some(record))
    } else {
        match stages[start].outcome(record, answer_at(answers, start)) {
            Err(e) => Err(e),
            Ok(None) => Ok(None),
            Ok(Some(next)) => chain_outcome(stages, next, answers, start + 1),
        }
    }
}

/// The record a kept record becomes after stage `t`: a filter passes it on
/// as it is, an enricher adds its field.
pub open spec fn passed_on(t: AnyTransformer, record: RecordView) -> RecordView {
    match t {
        AnyTransformer::Filter(_) => record,
        AnyTransformer::Enrich(e) => e.enriched_record(record),
    }
}

/// The record that reaches stage `i` of a run on `record`, where it is reached.
pub open spec fn stage_input(stages: Seq<AnyTransformer>, record: RecordView, i: int) -> RecordView
    decreases i,
{
    if i <= 0 || i > stages.len() {
        record
    } else {
        passed_on(stages[i - 1], stage_input(stages, record, i - 1))
    }
}

/// Several transformers applied in order.
pub struct TransformerChain {
    transformers: Vec<AnyTransformer>,
}

impl TransformerChain {
    /// The stages, in order.
    pub closed spec fn stages(&self) -> Seq<AnyTransformer> {
        self.transformers@
    }

    /// A chain of the given stages.
    pub fn new(transformers: Vec<AnyTransformer>) -> (r: Self)
        ensures
            r.stages() == transformers@,
    {
        Self { transformers }
    }

    /// For each stage, the numeric comparison it needs to decide on the
    /// record that reaches it in a run on `record`.
    pub fn numeric_queries(&self, record: &ParsedRecord) -> (r: Vec<Option<NumericQuery>>)
        ensures
            r.len() == self.stages().len(),
            forall|i: int| 0 <= i < r.len() ==> query_view(#[trigger] r@[i]) == self.stages()[i].query(stage_input(self.stages(), record@, i)),
    {
        let mut r: Vec<Option<NumericQuery>> = Vec::new();
        let mut cur = record.duplicate();
        let mut i: usize = 0;
        while i < self.transformers.len()
            invariant
                i <= self.transformers.len(),
                r.len() == i,
                cur@ == stage_input(self.stages(), record@, i as int),
                forall|j: int| 0 <= j < i ==> query_view(#[trigger] r@[j]) == self.stages()[j].query(stage_input(self.stages(), record@, j)),
            decreases self.transformers.len() - i,
        {
            let q = self.transformers[i].numeric_query(&cur);
            r.push(q);
            assert(self.stages()[i as int] == self.transformers@[i as int]);
            match &self.transformers[i] {
                AnyTransformer::Enrich(e) => {
                    cur = e.enrich(cur);
                },
                AnyTransformer::Filter(_) => {},
            }
            i = i + 1;
        }
        r
    }

    /// Runs the stages in order; `answers[i]` answers stage `i`'s numeric comparison.
    pub fn transform(&self, record: ParsedRecord, answers: &Vec<bool>) -> (r: Result<Option<ParsedRecord>, String>)
        ensures
            outcome_view(r) == chain_outcome(self.stages(), record@, answers@, 0),
    {
        let ghost whole = chain_outcome(self.stages(), record@, answers@, 0);
        let mut cur = record;
        let mut i: usize = 0;
        while i < self.transformers.len()
            invariant
                i <= self.transformers.len(),
                whole == chain_outcome(self.stages(), record@, answers@, 0),
                whole == chain_outcome(self.stages(), cur@, answers@, i as int),
            decreases self.transformers.len() - i,
        {
            let numeric = i < answers.len() && answers[i];
            let ghost prev = cur@;
            let out = self.transformers[i].transform(cur, numeric);
            assert(numeric == answer_at(answers@, i as int));
            assert(self.stages()[i as int] == self.transformers@[i as int]);
            match out {
                Err(e) => return Err(e),
                Ok(None) => return Ok(None),
                Ok(Some(r)) => cur = r,
            }
            i = i + 1;
        }
        Ok(Some(cur))
    }
}

} // verus!
