//! Configuration for the diagnostic sink: the logging threshold, the
//! number of call frames skipped when a log line records its origin, and
//! the fields attached to every entry.  The sink itself — what opens a
//! writer and formats lines — lives outside this crate.

use vstd::prelude::*;
use crate::level::Level;
use crate::tracker::assoc_map;
use crate::tracker::assoc_set;
use crate::tracker::distinct_keys;

verus! {

/// Sink configuration: threshold level, caller-frame skip count, and
/// the fields always attached to log entries.
pub struct Options {
    level: Level,
    skip: i32,
    fields: Vec<(String, String)>,
}

impl Options {
    /// The fields list names each field once.
    pub closed spec fn wf(&self) -> bool {
        distinct_keys(self.fields@)
    }

    /// The configured threshold level.
    pub closed spec fn spec_level(&self) -> Level {
        self.level
    }

    /// The configured caller-frame skip count.
    pub closed spec fn spec_skip(&self) -> i32 {
        self.skip
    }

    /// The configured always-logged fields.
    pub closed spec fn spec_fields(&self) -> Seq<(String, String)> {
        self.fields@
    }

    /// Default options: info threshold, skip count two, no fields.
    pub fn new() -> (r: Options)
        ensures
            r.wf(),
            r.spec_level() == Level::InfoLevel,
            r.spec_skip() == 2,
            r.spec_fields() == Seq::<(String, String)>::empty(),
    {
        Options { level: Level::InfoLevel, skip: 2, fields: Vec::new() }
    }

    /// The threshold level.
    pub fn level(&self) -> (r: Level)
        ensures
            r == self.spec_level(),
    {
        self.level
    }

    /// The caller-frame skip count.
    pub fn skip(&self) -> (r: i32)
        ensures
            r == self.spec_skip(),
    {
        self.skip
    }

    /// A copy of the always-logged fields.
    pub fn fields(&self) -> (r: Vec<(String, String)>)
        ensures
            r@ == self.spec_fields(),
    {
        let mut out: Vec<(String, String)> = Vec::new();
        let n = self.fields.len();
        let mut i: usize = 0;
        while i < n
            invariant
                n == self.fields@.len(),
                i <= n,
                out@ == self.fields@.take(i as int),
            decreases n - i,
        {
            let k = self.fields[i].0.clone();
            let v = self.fields[i].1.clone();
            out.push((k, v));
            proof {
                assert(self.fields@.take(i + 1) =~= self.fields@.take(i as int) + seq![
                    self.fields@[i as int],
                ]);
            }
            i += 1;
        }
        proof {
            assert(self.fields@.take(n as int) =~= self.fields@);
        }
        out
    }

    /// Sets the threshold level.
    pub fn with_level(self, level: Level) -> (r: Self)
        ensures
            r.spec_level() == level,
            r.spec_skip() == self.spec_skip(),
            r.spec_fields() == self.spec_fields(),
            r.wf() == self.wf(),
    {
        Options { level, ..self }
    }

    /// Sets the caller-frame skip count.
    pub fn with_skip(self, skip: i32) -> (r: Self)
        ensures
            r.spec_skip() == skip,
            r.spec_level() == self.spec_level(),
            r.spec_fields() == self.spec_fields(),
            r.wf() == self.wf(),
    {
        Options { skip, ..self }
    }

    /// Replaces the always-logged fields.
    pub fn with_fields(self, fields: Vec<(String, String)>) -> (r: Self)
        requires
            distinct_keys(fields@),
        ensures
            r.wf(),
            r.spec_fields() == fields@,
            r.spec_level() == self.spec_level(),
            r.spec_skip() == self.spec_skip(),
    {
        Options { fields, ..self }
    }

    /// Adds one field, replacing an earlier field of the same name.
    pub fn insert_field(self, k: String, v: String) -> (r: Self)
        requires
            self.wf(),
        ensures
            r.wf(),
            assoc_map(r.spec_fields()) == assoc_map(self.spec_fields()).insert(k@, v),
            r.spec_level() == self.spec_level(),
            r.spec_skip() == self.spec_skip(),
    {
        let mut out = self;
        assoc_set(&mut out.fields, k.as_str(), v);
        out
    }
}

} // verus!
