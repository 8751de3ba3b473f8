//! One persisted typing result. Records are immutable once created; the store
//! assigns the id.

use vstd::prelude::*;

verus! {

/// A typing result: words per minute, characters per minute, and the timestamp
/// at which it was saved.
#[derive(Debug, Clone)]
pub struct Record {
    pub id: i32,
    pub wpm: i64,
    pub cpm: i64,
    pub date: String,
}

impl PartialEq for Record {
    fn eq(&self, other: &Self) -> (r: bool) {
        self.id == other.id && self.wpm == other.wpm && self.cpm == other.cpm
            && self.date == other.date
    }
}

impl vstd::std_specs::cmp::PartialEqSpecImpl for Record {
    open spec fn obeys_eq_spec() -> bool {
        true
    }

    open spec fn eq_spec(&self, other: &Self) -> bool {
        self.id == other.id && self.wpm == other.wpm && self.cpm == other.cpm
            && self.date@ == other.date@
    }
}

} // verus!
