//! What sets a reading of the wall clock apart from any other value.
//!
//! Both predicates hold of what [`crate::clock`] hands out. As definitions they
//! say only what is true of every reading: its range, or the form of its text.
//! They are closed in this module, so no other module can establish one of them
//! of a value by looking at the value: it has to come from the clock.

use vstd::prelude::*;

use crate::clock;

verus! {

/// Known outside this module only of a Unix time that [`crate::clock`] read.
pub closed spec fn clock_seconds(seconds: int) -> bool {
    0 <= seconds <= clock::MAX_UNIX_SECONDS
}

/// Known outside this module only of the text of a time that [`crate::clock`]
/// read.
pub closed spec fn clock_text(t: Seq<char>) -> bool {
    clock::utc_millis_text(t)
}

} // verus!
