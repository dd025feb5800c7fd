//! What sinks count.

use vstd::prelude::*;

verus! {

/// Counts kept while a batch of records is written.
#[derive(Debug)]
pub struct SinkStats {
    pub records_written: u64,
    pub bytes_written: u64,
    pub errors: u64,
}

impl SinkStats {
    /// All counts zero.
    pub fn new() -> (r: Self)
        ensures
            r.records_written == 0 && r.bytes_written == 0 && r.errors == 0,
    {
        SinkStats { records_written: 0, bytes_written: 0, errors: 0 }
    }

    /// Counts one write: a success as written, a failure as an error.
    pub fn record_write(&mut self, ok: bool)
        requires
            old(self).records_written < u64::MAX,
            old(self).errors < u64::MAX,
        ensures
            ok ==> final(self).records_written == old(self).records_written + 1 && final(self).errors == old(self).errors,
            !ok ==> final(self).errors == old(self).errors + 1 && final(self).records_written == old(self).records_written,
            final(self).bytes_written == old(self).bytes_written,
    {
        if ok {
            self.records_written = self.records_written + 1;
        } else {
            self.errors = self.errors + 1;
        }
    }
}

impl Default for SinkStats {
    fn default() -> (r: Self)
        ensures
            r.records_written == 0 && r.bytes_written == 0 && r.errors == 0,
    {
        SinkStats::new()
    }
}

} // verus!
