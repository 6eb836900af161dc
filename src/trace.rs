//! Debug trace hooks: observers of each request and its result.
use vstd::prelude::*;
use crate::error::Error;

verus! {

/// One trace line: the six words, and on return the typed result.
#[derive(Clone, Copy, Debug)]
pub struct TraceRecord {
    pub words: [usize; 6],
    pub result: Option<Result<usize, Error>>,
}

pub struct Trace {
    pub enabled: bool,
    pub records: Vec<TraceRecord>,
}

/// The records after a hook has seen `rec`.
pub open spec fn record_spec(enabled: bool, recs: Seq<TraceRecord>, rec: TraceRecord) -> Seq<TraceRecord> {
    if enabled { recs.push(rec) } else { recs }
}

impl Trace {
    pub fn new(enabled: bool) -> (r: Trace)
        ensures
            r.enabled == enabled,
            r.records@.len() == 0,
    {
        Trace { enabled, records: Vec::new() }
    }

    /// Entry hook.
    pub fn debug_start(&mut self, words: [usize; 6])
        ensures
            final(self).enabled == old(self).enabled,
            final(self).records@ == record_spec(old(self).enabled, old(self).records@,
                TraceRecord { words, result: None }),
    {
        if self.enabled {
            self.records.push(TraceRecord { words, result: None });
        }
    }

    /// Return hook.
    pub fn debug_end(&mut self, words: [usize; 6], result: Result<usize, Error>)
        ensures
            final(self).enabled == old(self).enabled,
            final(self).records@ == record_spec(old(self).enabled, old(self).records@,
                TraceRecord { words, result: Some(result) }),
    {
        if self.enabled {
            self.records.push(TraceRecord { words, result: Some(result) });
        }
    }
}

} // verus!
