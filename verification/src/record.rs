//! What the cache needs to know of a record: the name it is shown and found
//! by.

use crate::types::{ApiModioMap, ModEntry, ModioMap};
use vstd::prelude::*;

verus! {

/// A cached item with a display name.
pub trait Record {
    /// The display name, as a sequence of chars.
    spec fn name(&self) -> Seq<char>;

    /// The display name.
    fn display_name(&self) -> (shown: &str)
        ensures
            shown@ == self.name(),
    ;
}

impl Record for ModEntry {
    open spec fn name(&self) -> Seq<char> {
        self.title@
    }

    fn display_name(&self) -> (shown: &str) {
        self.title.as_str()
    }
}

impl Record for ModioMap {
    open spec fn name(&self) -> Seq<char> {
        self.name@
    }

    fn display_name(&self) -> (shown: &str) {
        self.name.as_str()
    }
}

impl Record for ApiModioMap {
    open spec fn name(&self) -> Seq<char> {
        self.name@
    }

    fn display_name(&self) -> (shown: &str) {
        self.name.as_str()
    }
}

/// The display names of a sequence of records, in order.
pub open spec fn names_of<R: Record>(records: Seq<R>) -> Seq<Seq<char>> {
    records.map_values(|record: R| record.name())
}

} // verus!
