//! A filesystem entry as the matchers see it: the base name and the full
//! path of one visited file or directory. The directory walk owns the real
//! handle; matchers only need these two strings to decide satisfaction and
//! to print.

use vstd::prelude::*;

verus! {

/// One visited filesystem entry: its base name (the last path component)
/// and its full path as the walk produced it.
pub struct Entry {
    /// The base name of the entry, compared by name predicates.
    pub name: String,
    /// The full path of the entry, written by printing actions.
    pub path: String,
}

impl Entry {
    /// Builds an entry from its base name and full path.
    pub fn new(name: String, path: String) -> (r: Entry)
        ensures
            r.name@ == name@,
            r.path@ == path@,
    {
        Entry { name, path }
    }
}

} // verus!
